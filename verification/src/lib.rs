pub mod parity;
pub mod strings;
pub mod puzzle;
pub mod event;
pub mod derive_scramble_for_event;
pub mod square1;
pub mod square1_phase2;
pub mod square1_scramble_finder;
pub mod wings;
pub mod alg;
pub mod pattern;
pub mod cube4x4x4;
pub mod big_cubes;
pub mod indexed_vec;
pub mod phase2_symmetry;
pub mod kilominx;
pub mod static_move_list;
pub mod random;
pub mod clock;
pub mod megaminx;
pub mod transformation;
pub mod square1_lookup;
pub mod cube4x4x4_phases;
pub mod two_phase_3x3x3;
pub mod lookup_table_checks;
pub mod alg_inversion;
