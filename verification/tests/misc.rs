use std::collections::HashSet;

use twsearch::alg::{Alg, AlgItem, Move, MovePrefix};
use twsearch::two_phase_3x3x3::{
    assemble_two_phase_solution, bld_orientation_rotations, canonical_fsm_moves, fmc_affix_alg,
    TwoPhase3x3x3ScrambleAssociatedAffixes,
};
use twsearch::clock::{clock_scramble_from_amounts, scramble_clock};
use twsearch::indexed_vec::{IndexKey, IndexedVec};
use twsearch::kilominx::{back_pieces, kilominx_front_moves, KilominxPhase1Search};
use twsearch::megaminx::{megaminx_random_move_scramble, megaminx_scramble_from_choices};
use twsearch::phase2_symmetry::{PackedValue, Phase2Coordinate};
use twsearch::square1::FilteringDecision;
use twsearch::square1_phase2::{square1_tuple, FlatMoveIndex};
use twsearch::static_move_list::{
    static_move_list, static_move_opt_list, try_static_move_list, try_static_move_opt_list,
};

fn move_of(item: &AlgItem) -> (String, Option<MovePrefix>, i32) {
    match item {
        AlgItem::Move(m) => (m.family.clone(), m.prefix, m.amount),
        AlgItem::Other(_) => panic!("expected a move"),
    }
}

#[test]
fn indexed_vec_push_at_len_iter() {
    let mut v: IndexedVec<FlatMoveIndex, &str> = IndexedVec::new();
    assert_eq!(v.len(), 0);
    v.push("a");
    v.push("b");
    v.push("c");
    assert_eq!(v.len(), 3);
    assert_eq!(*v.at(FlatMoveIndex(1)), "b");
    let pairs = v.iter();
    assert_eq!(pairs.len(), 3);
    assert_eq!(pairs[2].0, FlatMoveIndex(2));
    assert_eq!(*pairs[2].1, "c");
    let d: IndexedVec<FlatMoveIndex, u8> = Default::default();
    assert_eq!(d.len(), 0);
    assert_eq!(FlatMoveIndex::from_usize(7).to_usize(), 7);
}

#[test]
fn phase2_coordinates() {
    assert_eq!(Phase2Coordinate(12).usize(), 12);
    assert_eq!(Phase2Coordinate(12) - Phase2Coordinate(5), Phase2Coordinate(7));
    assert_eq!(PackedValue(40).usize(), 40);
    assert_eq!(PackedValue(40) - PackedValue(40), PackedValue(0));
}

#[test]
fn kilominx_back_pieces_and_filter() {
    let expected: HashSet<u8> = [10, 11, 13, 15, 18].into_iter().collect();
    assert_eq!(back_pieces(), expected);
    let search = KilominxPhase1Search::new();
    let solved: Vec<u8> = (0..20).collect();
    // Back piece 10 sits at front location 0.
    let mut pieces = solved.clone();
    pieces.swap(0, 10);
    assert_eq!(search.filter_solution(&pieces), FilteringDecision::Reject);
    // Front pieces at the front: accepted.
    assert_eq!(search.filter_solution(&solved), FilteringDecision::Accept);
    // A back piece at a location that is not front: accepted.
    let mut pieces = solved.clone();
    pieces.swap(1, 18);
    assert_eq!(search.filter_solution(&pieces), FilteringDecision::Accept);
    // A back piece at front location 19.
    let mut pieces = solved;
    pieces.swap(19, 13);
    assert_eq!(KilominxPhase1Search::default().filter_solution(&pieces), FilteringDecision::Reject);
}

#[test]
fn kilominx_front_move_list() {
    let moves = kilominx_front_moves();
    let families: Vec<&str> = moves.iter().map(|m| m.family.as_str()).collect();
    assert_eq!(families, vec!["U", "L", "F", "R", "FL", "FR"]);
    assert!(moves.iter().all(|m| m.amount == 1 && m.prefix.is_none()));
}

#[test]
fn static_move_lists_parse_moves() {
    let moves = static_move_list(&["R2'", "3Rw", "2-3Uw", "D++"]);
    let values: Vec<_> = moves.iter().map(|m| (m.family.clone(), m.prefix, m.amount)).collect();
    assert_eq!(
        values,
        vec![
            ("R".to_owned(), None, -2),
            ("Rw".to_owned(), Some(MovePrefix::Layer(3)), 1),
            ("Uw".to_owned(), Some(MovePrefix::Range(2, 3)), 1),
            ("D_PLUSPLUS_".to_owned(), None, 1),
        ]
    );
    let opt = static_move_opt_list(&["", "U'"]);
    assert!(opt[0].is_none());
    assert_eq!(opt[1].as_ref().unwrap().amount, -1);
    assert!(try_static_move_list(&["R", "not a move!"]).is_none());
    assert_eq!(try_static_move_list(&["R", "U"]).unwrap().len(), 2);
    assert!(try_static_move_list(&[""]).is_none());
    assert_eq!(try_static_move_opt_list(&["", "F"]).unwrap().len(), 2);
    assert!(try_static_move_opt_list(&["", "?"]).is_none());
}

#[test]
fn clock_scramble_from_given_amounts() {
    let front = [-5, -4, -3, -2, -1, 0, 1, 2, 3];
    let back = [4, 5, 6, 0, 1];
    let alg = clock_scramble_from_amounts(&front, &back);
    let values: Vec<_> = alg.nodes.iter().map(move_of).collect();
    let families = [
        "U_PLUS_", "R_PLUS_", "D_PLUS_", "L_PLUS_", "ALL_PLUS_", "UR_PLUS_", "DR_PLUS_", "DL_PLUS_",
        "UL_PLUS_",
    ];
    assert_eq!(values.len(), 15);
    for i in 0..9 {
        assert_eq!(values[i], (families[i].to_owned(), None, front[i]));
    }
    assert_eq!(values[9], ("y".to_owned(), None, 2));
    for j in 0..5 {
        assert_eq!(values[10 + j], (families[j].to_owned(), None, back[j]));
    }
}

#[test]
fn random_clock_scrambles_have_the_shape() {
    for _ in 0..20 {
        let alg = scramble_clock();
        assert_eq!(alg.nodes.len(), 15);
        for (i, node) in alg.nodes.iter().enumerate() {
            let (family, _, amount) = move_of(node);
            if i == 9 {
                assert_eq!((family.as_str(), amount), ("y", 2));
            } else {
                assert!((-5..7).contains(&amount));
            }
        }
    }
}

#[test]
fn megaminx_scramble_from_given_choices() {
    let mut choices = vec![false; 70];
    choices[9] = true; // the last D of the first line is D--, so the line ends with U'
    choices[0] = true;
    let alg = megaminx_scramble_from_choices(&choices);
    assert_eq!(alg.nodes.len(), 83);
    assert_eq!(move_of(&alg.nodes[0]), ("R_PLUSPLUS_".to_owned(), None, -1));
    assert_eq!(move_of(&alg.nodes[1]), ("D_PLUSPLUS_".to_owned(), None, 1));
    assert_eq!(move_of(&alg.nodes[9]), ("D_PLUSPLUS_".to_owned(), None, -1));
    assert_eq!(move_of(&alg.nodes[10]), ("U".to_owned(), None, -1));
    assert!(matches!(alg.nodes[11], AlgItem::Other(cubing::alg::AlgNode::NewlineNode(_))));
    assert_eq!(move_of(&alg.nodes[22]), ("U".to_owned(), None, 1));
    assert_eq!(move_of(&alg.nodes[82]), ("U".to_owned(), None, 1));
    let newlines = alg.nodes.iter().filter(|n| matches!(n, AlgItem::Other(_))).count();
    assert_eq!(newlines, 6);
}

#[test]
fn random_megaminx_scrambles_have_the_shape() {
    let alg = megaminx_random_move_scramble();
    assert_eq!(alg.nodes.len(), 83);
    for line in 0..7 {
        let d = move_of(&alg.nodes[line * 12 + 9]);
        let u = move_of(&alg.nodes[line * 12 + 10]);
        assert_eq!(d.0, "D_PLUSPLUS_");
        assert_eq!(u.0, "U");
        assert_eq!(d.2, u.2);
    }
}

#[test]
fn square1_tuple_moves() {
    let alg = square1_tuple(3, -2);
    assert_eq!(alg.nodes.len(), 2);
    assert_eq!(move_of(&alg.nodes[0]), ("U_SQ_".to_owned(), None, 3));
    assert_eq!(move_of(&alg.nodes[1]), ("D_SQ_".to_owned(), None, -2));
}

#[test]
fn bld_orientation_alg_becomes_rotations_in_reverse() {
    let wide = |family: &str, prefix: Option<MovePrefix>, amount: i32| {
        AlgItem::Move(Move { family: family.to_owned(), prefix, amount })
    };
    let alg = Alg { nodes: vec![wide("Rw", None, 1), wide("Uw", Some(MovePrefix::Layer(2)), 2), wide("Fw", None, -1)] };
    let rotations = bld_orientation_rotations(&alg);
    let values: Vec<(String, Option<MovePrefix>, i32)> =
        rotations.into_iter().map(|m| (m.family, m.prefix, m.amount)).collect();
    assert_eq!(
        values,
        vec![
            ("z".to_owned(), None, -1),
            ("y".to_owned(), Some(MovePrefix::Layer(2)), 2),
            ("x".to_owned(), None, 1),
        ]
    );
    assert!(bld_orientation_rotations(&Alg { nodes: vec![] }).is_empty());
}

fn plain(family: &str, amount: i32) -> AlgItem {
    AlgItem::Move(Move { family: family.to_owned(), prefix: None, amount })
}

fn values_of(alg: &Alg) -> Vec<Option<(String, Option<MovePrefix>, i32)>> {
    alg.nodes
        .iter()
        .map(|item| match item {
            AlgItem::Move(m) => Some((m.family.clone(), m.prefix, m.amount)),
            AlgItem::Other(_) => None,
        })
        .collect()
}

#[test]
fn inverting_an_alg_reverses_and_negates_its_moves() {
    let alg = Alg {
        nodes: vec![
            plain("R", 1),
            plain("_SLASH_", 1),
            AlgItem::Move(Move { family: "U".to_owned(), prefix: Some(MovePrefix::Layer(2)), amount: -2 }),
        ],
    };
    let inverse = alg.invert();
    assert_eq!(
        values_of(&inverse),
        vec![
            Some(("U".to_owned(), Some(MovePrefix::Layer(2)), 2)),
            Some(("_SLASH_".to_owned(), None, 1)),
            Some(("R".to_owned(), None, -1)),
        ]
    );
    assert_eq!(values_of(&inverse.invert()), values_of(&alg));
}

#[test]
fn two_phase_solutions_carry_their_affixes() {
    let phase1 = || Alg { nodes: vec![plain("U", 1)] };
    let phase2 = || Alg { nodes: vec![plain("D", 2)] };
    let fmc = assemble_two_phase_solution(&TwoPhase3x3x3ScrambleAssociatedAffixes::ForFMC, phase1(), phase2());
    assert_eq!(
        values_of(&fmc),
        vec![
            Some(("F".to_owned(), None, -1)),
            Some(("U".to_owned(), None, 1)),
            Some(("R".to_owned(), None, 1)),
            Some(("U".to_owned(), None, 1)),
            Some(("D".to_owned(), None, 2)),
            Some(("F".to_owned(), None, -1)),
            Some(("U".to_owned(), None, 1)),
            Some(("R".to_owned(), None, 1)),
        ]
    );
    assert_eq!(values_of(&fmc_affix_alg()), vec![
        Some(("R".to_owned(), None, -1)),
        Some(("U".to_owned(), None, -1)),
        Some(("F".to_owned(), None, 1)),
    ]);
    let bld = TwoPhase3x3x3ScrambleAssociatedAffixes::ForBLD(Alg { nodes: vec![plain("Rw", 1), plain("Uw", -1)] });
    let solution = assemble_two_phase_solution(&bld, phase1(), phase2());
    assert_eq!(
        values_of(&solution),
        vec![
            Some(("Rw".to_owned(), None, 1)),
            Some(("Uw".to_owned(), None, -1)),
            Some(("U".to_owned(), None, 1)),
            Some(("D".to_owned(), None, 2)),
        ]
    );
    let plain_solution =
        assemble_two_phase_solution(&TwoPhase3x3x3ScrambleAssociatedAffixes::NoAffixes, phase1(), phase2());
    assert_eq!(values_of(&plain_solution), vec![Some(("U".to_owned(), None, 1)), Some(("D".to_owned(), None, 2))]);
}

#[test]
fn fmc_searches_know_the_affix_moves() {
    let view = |moves: Option<Vec<Move>>| moves.map(|v| v.into_iter().map(|m| (m.family, m.prefix, m.amount)).collect::<Vec<_>>());
    let fmc = canonical_fsm_moves(&TwoPhase3x3x3ScrambleAssociatedAffixes::ForFMC);
    assert_eq!(view(fmc.pre_moves_phase1), Some(vec![("F".to_owned(), None, 1)]));
    assert_eq!(view(fmc.post_moves_phase1), Some(vec![("R".to_owned(), None, -1)]));
    assert_eq!(view(fmc.pre_moves_phase2), Some(vec![("F".to_owned(), None, -2)]));
    assert_eq!(view(fmc.post_moves_phase2), Some(vec![("R".to_owned(), None, -2)]));
    let plain_moves = canonical_fsm_moves(&TwoPhase3x3x3ScrambleAssociatedAffixes::NoAffixes);
    assert!(plain_moves.pre_moves_phase1.is_none() && plain_moves.post_moves_phase2.is_none());
    let bld = canonical_fsm_moves(&TwoPhase3x3x3ScrambleAssociatedAffixes::ForBLD(Alg { nodes: vec![] }));
    assert!(bld.post_moves_phase1.is_none() && bld.pre_moves_phase2.is_none());
}
