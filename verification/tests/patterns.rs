use twsearch::cube4x4x4::{phase2_candidate_accepted, phase_search_pattern, remap_piece_for_search_pattern};
use twsearch::pattern::{clone_pattern, mask, super_pattern, transfer_orbit, OrbitInfo, Pattern, PatternOrbit};
use twsearch::transformation::{apply_pre_alg, apply_transformation, invert_transformation, Transformation, TransformationOrbit, invert_kpattern_as_transformation, kpattern_to_transformation, ktransformation_to_kpattern};

fn orbit(name: &str, n: u8, pieces: &[u8], orientations: &[u8], mods: &[u8]) -> PatternOrbit {
    PatternOrbit {
        name: name.to_owned(),
        num_orientations: n,
        pieces: pieces.to_vec(),
        orientations: orientations.to_vec(),
        orientation_mods: mods.to_vec(),
    }
}

fn values(p: &Pattern) -> Vec<(String, u8, Vec<u8>, Vec<u8>, Vec<u8>)> {
    p.orbits
        .iter()
        .map(|o| {
            (
                o.name.clone(),
                o.num_orientations,
                o.pieces.clone(),
                o.orientations.clone(),
                o.orientation_mods.clone(),
            )
        })
        .collect()
}

fn sample() -> Pattern {
    Pattern {
        orbits: vec![
            orbit("CORNERS", 3, &[2, 0, 1, 3], &[1, 2, 0, 0], &[0, 0, 0, 0]),
            orbit("EDGES", 2, &[1, 0, 2], &[1, 0, 1], &[0, 0, 0]),
        ],
    }
}

fn infos() -> Vec<OrbitInfo> {
    vec![
        OrbitInfo { name: "CORNERS".to_owned(), num_pieces: 4, num_orientations: 3 },
        OrbitInfo { name: "EDGES".to_owned(), num_pieces: 3, num_orientations: 2 },
    ]
}

#[test]
fn super_pattern_distinguishes_every_piece() {
    let sp = super_pattern(&infos());
    assert_eq!(sp.orbits.len(), 2);
    assert_eq!(sp.orbits[0].pieces, vec![0, 1, 2, 3]);
    assert_eq!(sp.orbits[0].orientations, vec![0, 0, 0, 0]);
    assert_eq!(sp.orbits[0].orientation_mods, vec![0, 0, 0, 0]);
    assert_eq!(sp.orbits[1].pieces, vec![0, 1, 2]);
    assert_eq!(sp.orbits[1].name, "EDGES");
    assert_eq!(sp.orbits[1].num_orientations, 2);
}

#[test]
fn mask_with_super_pattern_changes_nothing() {
    let source = sample();
    let masked = mask(&source, &super_pattern(&infos())).ok().unwrap();
    assert_eq!(values(&masked), values(&source));
}

#[test]
fn mask_maps_pieces_and_reduces_orientations() {
    let source = sample();
    let mask_pattern = Pattern {
        orbits: vec![
            orbit("CORNERS", 3, &[0, 0, 1, 1], &[0, 0, 0, 0], &[1, 0, 1, 3]),
            orbit("EDGES", 2, &[0, 0, 0], &[0, 0, 0], &[0, 0, 0]),
        ],
    };
    let masked = mask(&source, &mask_pattern).ok().unwrap();
    // Each piece is replaced by what the mask has at that piece's position.
    assert_eq!(masked.orbits[0].pieces, vec![1, 0, 0, 1]);
    // Moduli 1 keep orientation 0; the full modulus (3 or 0) keeps the orientation.
    assert_eq!(masked.orbits[0].orientations, vec![0, 2, 0, 0]);
    assert_eq!(masked.orbits[0].orientation_mods, vec![1, 0, 1, 0]);
    assert_eq!(masked.orbits[1].pieces, vec![0, 0, 0]);
    assert_eq!(masked.orbits[1].orientations, vec![1, 0, 1]);
}

#[test]
fn mask_refuses_oriented_mask() {
    let source = sample();
    let mut mask_pattern = super_pattern(&infos());
    mask_pattern.orbits[1].orientations[2] = 1;
    let err = mask(&source, &mask_pattern).err().unwrap();
    assert_eq!(err.description, "Masks cannot currently have piece orientation");
}

#[test]
fn mask_refuses_incompatible_moduli() {
    let mut source = sample();
    source.orbits[0] = orbit("CORNERS", 6, &[0, 1, 2, 3], &[0, 0, 0, 0], &[2, 0, 0, 0]);
    let mask_pattern = Pattern {
        orbits: vec![
            orbit("CORNERS", 6, &[0, 1, 2, 3], &[0, 0, 0, 0], &[3, 0, 0, 0]),
            orbit("EDGES", 2, &[0, 1, 2], &[0, 0, 0], &[0, 0, 0]),
        ],
    };
    let err = mask(&source, &mask_pattern).err().unwrap();
    assert_eq!(err.description, "Incompatible orientation mod in mask");
}

#[test]
fn mask_reports_the_first_failing_position() {
    let source = sample();
    let mut mask_pattern = super_pattern(&infos());
    mask_pattern.orbits[0].orientation_mods[1] = 2; // 3 and 2 do not divide one another
    mask_pattern.orbits[1].orientations[0] = 1;
    let err = mask(&source, &mask_pattern).err().unwrap();
    assert_eq!(err.description, "Incompatible orientation mod in mask");
}

#[test]
fn transfer_orbit_copies_one_orbit() {
    let source = sample();
    let mut destination = Pattern {
        orbits: vec![
            orbit("A", 3, &[0, 1, 2, 3], &[0, 0, 0, 0], &[0, 0, 0, 0]),
            orbit("B", 2, &[0, 1, 2], &[0, 0, 0], &[0, 0, 0]),
        ],
    };
    transfer_orbit(&source, 0, &mut destination, 0);
    assert_eq!(destination.orbits[0].name, "A");
    assert_eq!(destination.orbits[0].pieces, vec![2, 0, 1, 3]);
    assert_eq!(destination.orbits[0].orientations, vec![1, 2, 0, 0]);
    assert_eq!(destination.orbits[1].pieces, vec![0, 1, 2]);
    let copy = clone_pattern(&destination);
    assert_eq!(values(&copy), values(&destination));
}

#[test]
fn remap_piece_uses_the_target_pattern() {
    let from = sample();
    let target = Pattern {
        orbits: vec![
            orbit("CORNERS", 3, &[3, 3, 0, 0], &[0, 0, 0, 0], &[0, 0, 0, 0]),
            orbit("EDGES", 2, &[2, 1, 0], &[0, 0, 0], &[0, 0, 0]),
        ],
    };
    let mut search = clone_pattern(&target);
    remap_piece_for_search_pattern(0, &from, &target, &mut search, 0);
    // The piece at 0 is 2, and the target has 0 at position 2; corners get orientation 3.
    assert_eq!(search.orbits[0].pieces, vec![0, 3, 0, 0]);
    assert_eq!(search.orbits[0].orientations, vec![3, 0, 0, 0]);
    remap_piece_for_search_pattern(1, &from, &target, &mut search, 0);
    assert_eq!(search.orbits[1].pieces, vec![1, 1, 0]);
    assert_eq!(search.orbits[1].orientations, vec![1, 0, 0]);
}

#[test]
fn phase_search_pattern_remaps_every_position() {
    let main = sample();
    let target = Pattern {
        orbits: vec![
            orbit("CORNERS", 3, &[3, 3, 0, 0], &[0, 0, 0, 0], &[0, 0, 0, 0]),
            orbit("EDGES", 2, &[2, 1, 0], &[0, 0, 0], &[1, 1, 1]),
        ],
    };
    let search = phase_search_pattern(&main, &target);
    assert_eq!(search.orbits[0].pieces, vec![0, 3, 3, 0]);
    assert_eq!(search.orbits[0].orientations, vec![3, 3, 3, 3]);
    assert_eq!(search.orbits[1].pieces, vec![1, 2, 0]);
    assert_eq!(search.orbits[1].orientations, vec![2, 2, 2]);
    assert_eq!(search.orbits[1].orientation_mods, vec![1, 1, 1]);
}

#[test]
fn phase_search_pattern_keeps_orientations_of_other_orbits() {
    let main = Pattern { orbits: vec![orbit("CENTERS", 4, &[1, 0], &[3, 1], &[0, 0])] };
    let target = Pattern { orbits: vec![orbit("CENTERS", 4, &[0, 0], &[0, 0], &[0, 0])] };
    let search = phase_search_pattern(&main, &target);
    assert_eq!(search.orbits[0].orientations, vec![3, 1]);
}

fn solved_wings() -> Vec<u8> {
    (0..24).collect()
}

#[test]
fn phase2_candidate_solved_is_accepted() {
    let bytes: Vec<u8> = (0..10).collect();
    assert!(phase2_candidate_accepted(&bytes, &solved_wings()));
}

#[test]
fn phase2_candidate_odd_parity_is_rejected() {
    let bytes = vec![1, 0, 2, 3];
    assert!(!phase2_candidate_accepted(&bytes, &solved_wings()));
}

#[test]
fn phase2_candidate_split_pair_is_rejected() {
    // Swap the high piece 1 with the low piece 5 of the same pair: both misoriented, count 2.
    let mut wings = solved_wings();
    wings.swap(1, 5);
    let bytes: Vec<u8> = (0..10).collect();
    assert!(!phase2_candidate_accepted(&bytes, &wings));
    // Swap pieces of two pairs both ways: four misoriented pieces, pairs consistent.
    let mut wings = solved_wings();
    wings.swap(0, 16);
    wings.swap(2, 8);
    assert!(phase2_candidate_accepted(&bytes, &wings));
    // A high piece moved to a high position stays oriented.
    let mut wings = solved_wings();
    wings.swap(0, 1);
    wings.swap(16, 12);
    assert!(phase2_candidate_accepted(&bytes, &wings));
}

#[test]
fn transformation_round_trip() {
    let p = sample();
    let t = kpattern_to_transformation(&p).unwrap();
    assert_eq!(t.orbits[0].permutation, vec![2, 0, 1, 3]);
    assert_eq!(t.orbits[0].orientation_delta, vec![1, 2, 0, 0]);
    let back = ktransformation_to_kpattern(&t).unwrap();
    assert_eq!(values(&back), values(&p));
    let mut bad = sample();
    bad.orbits[0].orientation_mods[3] = 3;
    assert!(kpattern_to_transformation(&bad).is_none());
}

#[test]
fn invert_pattern_twice_gives_it_back() {
    let p = sample();
    let q = invert_kpattern_as_transformation(&p).unwrap();
    assert_eq!(q.orbits[0].pieces, vec![1, 2, 0, 3]);
    // The piece from 2 turned by 1 comes back turned by 2 (mod 3).
    assert_eq!(q.orbits[0].orientations, vec![1, 0, 2, 0]);
    assert_eq!(q.orbits[1].pieces, vec![1, 0, 2]);
    assert_eq!(q.orbits[1].orientations, vec![0, 1, 1]);
    let r = invert_kpattern_as_transformation(&q).unwrap();
    assert_eq!(values(&r), values(&p));
}

use twsearch::cube4x4x4_phases::{
    Cube4x4x4Phase2PatternDeriver, Cube4x4x4Phase3PatternDeriver, Cube4x4x4Phase3Puzzle,
    Cube4x4x4Phase4Puzzle,
};

fn identity_orbit(name: &str, n: u8, len: u8) -> PatternOrbit {
    orbit(name, n, &(0..len).collect::<Vec<u8>>(), &vec![0; len as usize], &vec![0; len as usize])
}

fn solved_4x4x4() -> Pattern {
    Pattern {
        orbits: vec![
            identity_orbit("CORNERS", 3, 8),
            identity_orbit("WINGS", 1, 24),
            identity_orbit("CENTERS", 1, 24),
        ],
    }
}

fn phase3_default() -> Pattern {
    let kinds: Vec<u8> = (0..24).map(|i| (i / 4) * 4).collect();
    Pattern {
        orbits: vec![
            identity_orbit("WINGS", 1, 24),
            orbit("CENTERS", 1, &kinds, &vec![0; 24], &vec![0; 24]),
            identity_orbit("PLL_PARITY", 2, 1),
        ],
    }
}

#[test]
fn phase3_pattern_of_solved_and_odd_corners() {
    let deriver = Cube4x4x4Phase3PatternDeriver { phase3_default_pattern: phase3_default() };
    let p = deriver.derive_pattern(&solved_4x4x4()).unwrap();
    assert_eq!(p.orbits[0].pieces, (0..24).collect::<Vec<u8>>());
    assert_eq!(p.orbits[1].pieces, phase3_default().orbits[1].pieces);
    assert_eq!(p.orbits[2].orientations, vec![0]);
    let mut source = solved_4x4x4();
    source.orbits[0].pieces.swap(0, 1);
    let p = deriver.derive_pattern(&source).unwrap();
    assert_eq!(p.orbits[2].orientations, vec![1]);
    // Swapping two whole dedges is relabelled away.
    let mut source = solved_4x4x4();
    source.orbits[1].pieces.swap(0, 1);
    source.orbits[1].pieces.swap(16, 12);
    let p = deriver.derive_pattern(&source).unwrap();
    assert_eq!(p.orbits[0].pieces, (0..24).collect::<Vec<u8>>());
}

#[test]
fn phase4_pattern_of_reduced_cube() {
    let puzzle = Cube4x4x4Phase4Puzzle {
        cube3x3x3_default_pattern: Pattern {
            orbits: vec![
                identity_orbit("EDGES", 2, 12),
                identity_orbit("CORNERS", 3, 8),
                identity_orbit("CENTERS", 4, 6),
            ],
        },
    };
    let mut source = solved_4x4x4();
    source.orbits[0].pieces.swap(2, 5);
    source.orbits[0].orientations[2] = 1;
    let p = puzzle.derive_pattern(&source).unwrap();
    assert_eq!(p.orbits[0].pieces, (0..12).collect::<Vec<u8>>());
    assert_eq!(p.orbits[0].orientations, vec![0; 12]);
    assert_eq!(p.orbits[1].name, "CORNERS");
    assert_eq!(p.orbits[1].pieces, vec![0, 1, 5, 3, 4, 2, 6, 7]);
    assert_eq!(p.orbits[1].orientations, vec![0, 0, 1, 0, 0, 0, 0, 0]);
    assert_eq!(p.orbits[2].pieces, (0..6).collect::<Vec<u8>>());
}

fn phase2_default() -> Pattern {
    let kinds: Vec<u8> = (0..24).map(|i| (i / 4) * 4).collect();
    Pattern {
        orbits: vec![
            orbit("CENTERS", 1, &kinds, &vec![0; 24], &vec![0; 24]),
            identity_orbit("WING_PARITY", 2, 1),
        ],
    }
}

#[test]
fn phase2_pattern_tracks_centers_and_wing_parity() {
    let deriver = Cube4x4x4Phase2PatternDeriver { phase2_default_pattern: phase2_default() };
    let p = deriver.derive_pattern(&solved_4x4x4()).unwrap();
    assert_eq!(p.orbits[0].pieces, phase2_default().orbits[0].pieces);
    assert_eq!(p.orbits[1].orientations, vec![0]);
    // One wing swap makes the wing permutation odd.
    let mut source = solved_4x4x4();
    source.orbits[1].pieces.swap(0, 1);
    let p = deriver.derive_pattern(&source).unwrap();
    assert_eq!(p.orbits[1].orientations, vec![1]);
    // Swapping two centers of different faces shows in the masked centers.
    let mut source = solved_4x4x4();
    source.orbits[2].pieces.swap(0, 4);
    let p = deriver.derive_pattern(&source).unwrap();
    assert_eq!(p.orbits[0].pieces[0], 4);
    assert_eq!(p.orbits[0].pieces[4], 0);
    assert_eq!(p.orbits[1].orientations, vec![0]);
}

#[test]
fn pre_alg_is_applied_before_the_pattern() {
    let kpattern = Pattern { orbits: vec![orbit("CORNERS", 3, &[1, 2, 0], &[1, 0, 0], &[0, 0, 0])] };
    let alg_pattern = Pattern { orbits: vec![orbit("CORNERS", 3, &[0, 2, 1], &[0, 0, 2], &[0, 0, 0])] };
    let p = apply_pre_alg(&kpattern, &alg_pattern).unwrap();
    assert_eq!(p.orbits[0].pieces, vec![2, 1, 0]);
    assert_eq!(p.orbits[0].orientations, vec![1, 2, 0]);
    assert_eq!(p.orbits[0].orientation_mods, vec![0, 0, 0]);
    let masked = Pattern { orbits: vec![orbit("CORNERS", 3, &[1, 2, 0], &[1, 0, 0], &[0, 3, 0])] };
    assert!(apply_pre_alg(&masked, &alg_pattern).is_none());
}

#[test]
fn applying_then_inverting_gives_the_pattern_back() {
    let p = Pattern {
        orbits: vec![
            orbit("CORNERS", 3, &[2, 0, 1, 3], &[1, 2, 0, 0], &[0, 0, 0, 0]),
            orbit("EDGES", 2, &[1, 0], &[0, 0], &[1, 1]),
        ],
    };
    let t = Transformation {
        orbits: vec![
            TransformationOrbit {
                name: "CORNERS".to_owned(),
                num_orientations: 3,
                permutation: vec![3, 2, 0, 1],
                orientation_delta: vec![1, 2, 2, 0],
            },
            TransformationOrbit {
                name: "EDGES".to_owned(),
                num_orientations: 2,
                permutation: vec![1, 0],
                orientation_delta: vec![1, 1],
            },
        ],
    };
    let q = apply_transformation(&p, &t);
    assert_eq!(q.orbits[0].pieces, vec![3, 1, 2, 0]);
    assert_eq!(q.orbits[0].orientations, vec![1, 2, 0, 2]);
    assert_ne!(values(&q), values(&p));
    let r = apply_transformation(&q, &invert_transformation(&t));
    assert_eq!(values(&r), values(&p));
}

fn identity_transformation_orbit(name: &str, n: u8, len: u8) -> TransformationOrbit {
    TransformationOrbit {
        name: name.to_owned(),
        num_orientations: n,
        permutation: (0..len).collect(),
        orientation_delta: vec![0; len as usize],
    }
}

#[test]
fn phase3_moves_keep_wings_canonical() {
    let mut wings = identity_transformation_orbit("WINGS", 1, 24);
    wings.permutation.swap(0, 1);
    wings.permutation.swap(16, 12);
    let t = Transformation {
        orbits: vec![
            wings,
            identity_transformation_orbit("CENTERS", 1, 24),
            identity_transformation_orbit("PLL_PARITY", 2, 1),
        ],
    };
    let puzzle = Cube4x4x4Phase3Puzzle {};
    let p = puzzle.pattern_apply_transformation(&phase3_default(), &t).unwrap();
    assert_eq!(p.orbits[0].pieces, (0..24).collect::<Vec<u8>>());
    assert_eq!(p.orbits[1].pieces, phase3_default().orbits[1].pieces);
    let mut into = phase3_default();
    into.orbits[0].pieces.reverse();
    assert!(puzzle.pattern_apply_transformation_into(&phase3_default(), &t, &mut into));
    assert_eq!(values(&into), values(&p));
    // A single wing swap is not relabelled away.
    let mut single = identity_transformation_orbit("WINGS", 1, 24);
    single.permutation.swap(0, 1);
    let t = Transformation {
        orbits: vec![
            single,
            identity_transformation_orbit("CENTERS", 1, 24),
            identity_transformation_orbit("PLL_PARITY", 2, 1),
        ],
    };
    let p = puzzle.pattern_apply_transformation(&phase3_default(), &t).unwrap();
    assert_ne!(p.orbits[0].pieces, (0..24).collect::<Vec<u8>>());
}
