use twsearch::alg::{Alg, AlgItem, Move, MovePrefix};
use twsearch::big_cubes::{
    add_chosen_suffixes, add_random_suffixes_from, apply_suffix_constraints, clone_move,
    face_or_wide_move, BigCube, BigCubeScrambleFinderScrambleOptions,
    BigCubeScrambleFinderSuffixConstraints, BigCubeScrambleInfo, Cube5x5x5, Cube6x6x6, Cube7x7x7,
};
use twsearch::pattern::{Pattern, PatternOrbit};

fn m(family: &str, prefix: Option<MovePrefix>, amount: i32) -> (String, Option<MovePrefix>, i32) {
    (family.to_owned(), prefix, amount)
}

fn value(mv: &Move) -> (String, Option<MovePrefix>, i32) {
    (mv.family.clone(), mv.prefix, mv.amount)
}

#[test]
fn num_moves() {
    assert_eq!(Cube5x5x5::info().num_random_moves(), 60);
    assert_eq!(Cube6x6x6::info().num_random_moves(), 80);
    assert_eq!(Cube7x7x7::info().num_random_moves(), 100);
}

#[test]
fn big_cube_sizes() {
    assert_eq!(Cube5x5x5::info().size, 5);
    assert_eq!(Cube6x6x6::info().size, 6);
    assert_eq!(Cube7x7x7::info().size, 7);
}

#[test]
fn face_or_wide_moves() {
    assert_eq!(value(&face_or_wide_move(1, "R", 1)), m("R", None, 1));
    assert_eq!(value(&face_or_wide_move(2, "U", -1)), m("Uw", None, -1));
    assert_eq!(value(&face_or_wide_move(3, "F", 2)), m("Fw", Some(MovePrefix::Layer(3)), 2));
    let copy = clone_move(&face_or_wide_move(4, "D", 1));
    assert_eq!(value(&copy), m("Dw", Some(MovePrefix::Layer(4)), 1));
}

#[test]
fn depth_filtering_generator_moves_of_5x5x5() {
    let moves = Cube5x5x5::info().depth_filtering_generator_moves();
    let values: Vec<_> = moves.iter().map(value).collect();
    assert_eq!(
        values,
        vec![
            m("U", None, 1),
            m("Uw", None, 1),
            m("Uw", Some(MovePrefix::Layer(3)), 1),
            m("Uw", Some(MovePrefix::Layer(4)), 1),
            m("F", None, 1),
            m("Fw", None, 1),
            m("Fw", Some(MovePrefix::Layer(3)), 1),
            m("Fw", Some(MovePrefix::Layer(4)), 1),
            m("R", None, 1),
            m("Rw", None, 1),
            m("Rw", Some(MovePrefix::Layer(3)), 1),
            m("Rw", Some(MovePrefix::Layer(4)), 1),
        ]
    );
}

#[test]
fn scrambling_generator_moves_of_7x7x7() {
    let moves = Cube7x7x7::info().scrambling_generator_moves();
    assert_eq!(moves.len(), 18);
    assert_eq!(value(&moves[0]), m("U", None, 1));
    assert_eq!(value(&moves[2]), m("Uw", Some(MovePrefix::Layer(3)), 1));
    assert_eq!(value(&moves[3]), m("L", None, 1));
    assert_eq!(value(&moves[17]), m("Dw", Some(MovePrefix::Layer(3)), 1));
    let six = Cube6x6x6::info().scrambling_generator_moves();
    assert_eq!(six.len(), 18);
    let tiny = BigCubeScrambleInfo { size: 1 }.scrambling_generator_moves();
    assert_eq!(tiny.len(), 0);
}

#[test]
fn no_inspection_suffixes_of_odd_cubes() {
    let [s1, s2] = Cube5x5x5::info().no_inspection_suffixes_from();
    let v1: Vec<_> = s1.iter().map(|o| o.as_ref().map(value)).collect();
    let v2: Vec<_> = s2.iter().map(|o| o.as_ref().map(value)).collect();
    assert_eq!(
        v1,
        vec![
            None,
            Some(m("Rw", Some(MovePrefix::Layer(3)), 1)),
            Some(m("Rw", Some(MovePrefix::Layer(3)), 2)),
            Some(m("Rw", Some(MovePrefix::Layer(3)), -1)),
            Some(m("Fw", Some(MovePrefix::Layer(3)), 1)),
            Some(m("Fw", Some(MovePrefix::Layer(3)), -1)),
        ]
    );
    assert_eq!(
        v2,
        vec![
            None,
            Some(m("Uw", Some(MovePrefix::Layer(3)), 1)),
            Some(m("Uw", Some(MovePrefix::Layer(3)), 2)),
            Some(m("Uw", Some(MovePrefix::Layer(3)), -1)),
        ]
    );
    let [s1, _] = Cube7x7x7::info().no_inspection_suffixes_from();
    assert_eq!(value(s1[1].as_ref().unwrap()), m("Rw", Some(MovePrefix::Layer(4)), 1));
}

fn one_move_alg() -> Alg {
    Alg { nodes: vec![AlgItem::Move(face_or_wide_move(1, "R", 1))] }
}

#[test]
fn chosen_suffixes_are_appended() {
    let suffixes = Cube5x5x5::info().no_inspection_suffixes_from();
    let out = add_chosen_suffixes(one_move_alg(), &suffixes, [2, 3]);
    assert_eq!(out.nodes.len(), 3);
    match (&out.nodes[1], &out.nodes[2]) {
        (AlgItem::Move(a), AlgItem::Move(b)) => {
            assert_eq!(value(a), m("Rw", Some(MovePrefix::Layer(3)), 2));
            assert_eq!(value(b), m("Uw", Some(MovePrefix::Layer(3)), -1));
        }
        _ => panic!("expected moves"),
    }
    let out = add_chosen_suffixes(one_move_alg(), &suffixes, [0, 0]);
    assert_eq!(out.nodes.len(), 1);
    let empty: [Vec<Option<Move>>; 2] = [vec![], vec![]];
    let out = add_chosen_suffixes(one_move_alg(), &empty, [7, 9]);
    assert_eq!(out.nodes.len(), 1);
}

#[test]
fn random_suffixes_come_from_the_lists() {
    for _ in 0..20 {
        let suffixes = Cube5x5x5::info().no_inspection_suffixes_from();
        let out = add_random_suffixes_from(one_move_alg(), suffixes);
        assert!(out.nodes.len() >= 1 && out.nodes.len() <= 3);
        for node in &out.nodes[1..] {
            match node {
                AlgItem::Move(mv) => assert!(["Rw", "Fw", "Uw"].contains(&mv.family.as_str())),
                AlgItem::Other(_) => panic!("expected a move"),
            }
        }
    }
}

#[test]
fn suffix_constraints() {
    let unconstrained = BigCubeScrambleFinderScrambleOptions {
        suffix_constraints: BigCubeScrambleFinderSuffixConstraints::Unconstrained,
    };
    let no_inspection = BigCubeScrambleFinderScrambleOptions {
        suffix_constraints: BigCubeScrambleFinderSuffixConstraints::ForNoInspection,
    };
    assert_eq!(apply_suffix_constraints(&Cube5x5x5::info(), one_move_alg(), &unconstrained).nodes.len(), 1);
    assert_eq!(apply_suffix_constraints(&Cube6x6x6::info(), one_move_alg(), &no_inspection).nodes.len(), 1);
    let mut longer = false;
    for _ in 0..50 {
        let n = apply_suffix_constraints(&Cube7x7x7::info(), one_move_alg(), &no_inspection).nodes.len();
        assert!((1..=3).contains(&n));
        longer |= n > 1;
    }
    assert!(longer);
}

fn orbit(name: &str, n: u8, len: u8) -> PatternOrbit {
    PatternOrbit {
        name: name.to_owned(),
        num_orientations: n,
        pieces: (0..len).collect(),
        orientations: vec![0; len as usize],
        orientation_mods: vec![0; len as usize],
    }
}

#[test]
fn orientation_canonicalization_mask_keeps_only_dlb() {
    let default_pattern = Pattern { orbits: vec![orbit("EDGES", 2, 12), orbit("CORNERS", 3, 8)] };
    let mask = Cube5x5x5::info().orientation_canonicalization_mask(&default_pattern);
    assert_eq!(mask.orbits[0].pieces, vec![0; 12]);
    assert_eq!(mask.orbits[0].orientation_mods, vec![1; 12]);
    assert_eq!(mask.orbits[1].pieces, vec![0, 0, 0, 0, 0, 0, 6, 0]);
    assert_eq!(mask.orbits[1].orientations, vec![0; 8]);
    assert_eq!(mask.orbits[1].orientation_mods, vec![1, 1, 1, 1, 1, 1, 0, 1]);
    assert_eq!(mask.orbits[1].name, "CORNERS");
}
