use twsearch::parity::BasicParity;
use twsearch::square1::{
    bandaged_wedge_parity, phase2_filter_derived_pattern, shape_traversal_filter_pattern,
    wedge_parity, wedge_type_lookup, FilteringDecision, PatternValidityChecker, Phase1Checker,
    Phase2Checker, WedgeType,
};
use twsearch::pattern::{Pattern, PatternOrbit};
use twsearch::square1_lookup::{
    build_phase1_lookup_table, build_phase_lookup_table, LookupPattern, PhaseCoordinatesIndex,
    Square1Phase1CompoundSemanticCoordinate, Square1Phase1PruneTable, Phase2ShapePatternDeriver, PhaseLookupTable, PhasePatternIndex,
    Square1Phase1Coordinates, Square1Phase1PatternDeriver,
};
use twsearch::indexed_vec::IndexedVec;
use twsearch::lookup_table_checks::{
    check_table_inputs, try_build_phase1_lookup_table, try_build_phase_lookup_table,
};
use twsearch::transformation::{apply_transformation, Transformation, TransformationOrbit};
use twsearch::square1_phase2::{
    filter_move_transformation, filter_search_solution, trim_phase1_solution, get_phase2_shape_offset_single_side,
    get_phase2_shape_offsets, phase2_prune_depth, restrict_D_move, square0_transformations_for_move,
    FlatMoveIndex, Square0EquatorlessPattern, Square1Phase2Move,
};
use twsearch::square1_phase2::Square1Phase2Move::{D_SQ_, SLASH, U_SQ_};
use twsearch::square1_scramble_finder::{flush_tuple, group_square_1_tuples, Square1AlgNode};

fn solved() -> Vec<u8> {
    (0..24).collect()
}

fn pattern(wedges: Vec<u8>) -> Pattern {
    Pattern {
        orbits: vec![PatternOrbit {
            name: "WEDGES".to_owned(),
            num_orientations: 1,
            orientations: vec![0; wedges.len()],
            orientation_mods: vec![0; wedges.len()],
            pieces: wedges,
        }],
    }
}

#[test]
fn wedge_types() {
    assert_eq!(wedge_type_lookup(0), WedgeType::CornerLower);
    assert_eq!(wedge_type_lookup(1), WedgeType::CornerUpper);
    assert_eq!(wedge_type_lookup(2), WedgeType::Edge);
    assert_eq!(wedge_type_lookup(12), WedgeType::Edge);
    assert_eq!(wedge_type_lookup(13), WedgeType::CornerLower);
    assert_eq!(wedge_type_lookup(23), WedgeType::CornerUpper);
}

#[test]
fn shape_traversal_filter() {
    assert_eq!(shape_traversal_filter_pattern(&solved()), FilteringDecision::Accept);
    assert!(Phase1Checker::is_valid(&pattern(solved())));
    // An upper corner half right after the slice at slot 0.
    let mut wedges = solved();
    wedges.rotate_left(1);
    assert_eq!(shape_traversal_filter_pattern(&wedges), FilteringDecision::Reject);
    assert!(!Phase1Checker::is_valid(&pattern(wedges)));
}

#[test]
fn phase2_shape_filter() {
    assert_eq!(phase2_filter_derived_pattern(&solved()), FilteringDecision::Accept);
    assert!(Phase2Checker::is_valid(&pattern(solved())));
    // Swapping an edge with a corner half breaks the square shape.
    let mut wedges = solved();
    wedges.swap(2, 3);
    assert_eq!(phase2_filter_derived_pattern(&wedges), FilteringDecision::Reject);
    assert!(!Phase2Checker::is_valid(&pattern(wedges)));
}

#[test]
fn wedge_parities() {
    assert_eq!(bandaged_wedge_parity(&solved()), BasicParity::Even);
    assert_eq!(wedge_parity(&solved()), BasicParity::Even);
    // Swapping two edges is an odd permutation of the bandaged pieces.
    let mut wedges = solved();
    wedges.swap(2, 5);
    assert_eq!(wedge_parity(&wedges), BasicParity::Odd);
    // Swapping two whole corners (both halves) is odd too.
    let mut wedges = solved();
    wedges.swap(0, 3);
    wedges.swap(1, 4);
    assert_eq!(wedge_parity(&wedges), BasicParity::Odd);
}

#[test]
fn shape_offsets() {
    let wedges = solved();
    assert_eq!(get_phase2_shape_offset_single_side(&wedges, 0), (-2, 1));
    assert_eq!(get_phase2_shape_offset_single_side(&wedges, 1), (-1, -1));
    assert_eq!(get_phase2_shape_offset_single_side(&wedges, 2), (0, 0));
    let offsets = get_phase2_shape_offsets(&wedges);
    assert_eq!((offsets.edges_amount_U, offsets.corners_amount_U), (-2, 1));
    assert_eq!((offsets.edges_amount_D, offsets.corners_amount_D), (0, 0));
}

#[test]
fn square0_patterns() {
    let edges = Square0EquatorlessPattern::from_edges_pattern(&solved());
    assert_eq!(edges.pattern, vec![0, 1, 2, 3, 4, 5, 6, 7]);
    let corners = Square0EquatorlessPattern::from_corners_pattern(&solved());
    assert_eq!(corners.pattern, vec![0, 1, 2, 3, 4, 5, 6, 7]);
    let mut wedges = solved();
    wedges.swap(2, 5);
    let edges = Square0EquatorlessPattern::from_edges_pattern(&wedges);
    assert_eq!(edges.pattern, vec![1, 0, 2, 3, 4, 5, 6, 7]);
}

#[test]
fn phase2_moves() {
    assert_eq!(Square1Phase2Move::from(FlatMoveIndex(0)), Square1Phase2Move::U_SQ_(1));
    assert_eq!(Square1Phase2Move::from(FlatMoveIndex(10)), Square1Phase2Move::U_SQ_(11));
    assert_eq!(Square1Phase2Move::from(FlatMoveIndex(11)), Square1Phase2Move::D_SQ_(1));
    assert_eq!(Square1Phase2Move::from(FlatMoveIndex(21)), Square1Phase2Move::D_SQ_(11));
    assert_eq!(Square1Phase2Move::from(FlatMoveIndex(22)), Square1Phase2Move::SLASH);
    assert_eq!(Square1Phase2Move::U_SQ_(-1).normalized(), Square1Phase2Move::U_SQ_(11));
    assert_eq!(Square1Phase2Move::D_SQ_(13).normalized(), Square1Phase2Move::D_SQ_(1));
    assert_eq!(Square1Phase2Move::U_SQ_(1).to_edge_transformation(), Some(FlatMoveIndex(0)));
    assert_eq!(Square1Phase2Move::U_SQ_(2).to_edge_transformation(), None);
    assert_eq!(Square1Phase2Move::D_SQ_(7).to_edge_transformation(), Some(FlatMoveIndex(5)));
    assert_eq!(Square1Phase2Move::SLASH.to_edge_transformation(), Some(FlatMoveIndex(6)));
    assert_eq!(Square1Phase2Move::U_SQ_(1).to_corner_transformation(), None);
    assert_eq!(Square1Phase2Move::U_SQ_(5).to_corner_transformation(), Some(FlatMoveIndex(1)));
    assert_eq!(Square1Phase2Move::D_SQ_(10).to_corner_transformation(), Some(FlatMoveIndex(5)));
    assert_eq!(
        square0_transformations_for_move(FlatMoveIndex(3)),
        (Some(FlatMoveIndex(1)), Some(FlatMoveIndex(0)))
    );
    assert_eq!(
        square0_transformations_for_move(FlatMoveIndex(22)),
        (Some(FlatMoveIndex(6)), Some(FlatMoveIndex(6)))
    );
}

#[test]
fn prune_depth_and_move_filters() {
    assert_eq!(phase2_prune_depth(3, 5, 4), 5);
    assert_eq!(phase2_prune_depth(7, 5, 4), 7);
    assert_eq!(phase2_prune_depth(1, 2, 6), 6);
    assert!(restrict_D_move(0, 6));
    assert!(restrict_D_move(1, -3));
    assert!(restrict_D_move(1, 2));
    assert!(!restrict_D_move(1, 3));
    assert!(!restrict_D_move(1, -4));
    assert_eq!(filter_move_transformation(1, 5), FilteringDecision::Reject);
    assert_eq!(filter_move_transformation(2, 5), FilteringDecision::Accept);
}

#[test]
fn phase1_solution_filter() {
    assert_eq!(filter_search_solution(&[]), FilteringDecision::Accept);
    assert_eq!(filter_search_solution(&[U_SQ_(5), SLASH, U_SQ_(1), D_SQ_(2)]), FilteringDecision::Accept);
    assert_eq!(filter_search_solution(&[SLASH, U_SQ_(3)]), FilteringDecision::Reject);
    assert_eq!(filter_search_solution(&[SLASH, D_SQ_(-1)]), FilteringDecision::Reject);
    assert_eq!(filter_search_solution(&[U_SQ_(7), SLASH]), FilteringDecision::Accept);
}

#[test]
fn tuple_grouping() {
    let grouped = group_square_1_tuples(&[U_SQ_(3), D_SQ_(-1), SLASH, U_SQ_(2), U_SQ_(5), SLASH, D_SQ_(4)]);
    assert_eq!(
        grouped,
        vec![
            Square1AlgNode::Tuple(3, -1),
            Square1AlgNode::Slash,
            Square1AlgNode::Tuple(-5, 0),
            Square1AlgNode::Slash,
            Square1AlgNode::Tuple(0, 4),
        ]
    );
    assert_eq!(group_square_1_tuples(&[SLASH, SLASH]), vec![Square1AlgNode::Slash, Square1AlgNode::Slash]);
    let mut u = Some(2);
    let mut d = None;
    let mut builder = vec![Square1AlgNode::Slash];
    flush_tuple(&mut u, &mut d, &mut builder);
    assert_eq!(builder, vec![Square1AlgNode::Slash, Square1AlgNode::Tuple(2, 0)]);
    assert_eq!((u, d), (None, None));
    flush_tuple(&mut u, &mut d, &mut builder);
    assert_eq!(builder.len(), 2);
}

/// The mask that keeps only the shape: each wedge becomes the first wedge of its kind.
fn shape_mask() -> Pattern {
    let kinds: Vec<u8> = (0..24u8)
        .map(|w| match wedge_type_lookup(w) {
            WedgeType::CornerLower => 0,
            WedgeType::CornerUpper => 1,
            WedgeType::Edge => 2,
        })
        .collect();
    pattern(kinds)
}

#[test]
fn lookup_patterns() {
    let lp = LookupPattern::try_new::<Phase1Checker>(&pattern(solved()), &shape_mask()).unwrap();
    assert_eq!(lp.masked_pattern.orbits[0].pieces[..6].to_vec(), vec![0, 1, 2, 0, 1, 2]);
    assert_eq!(lp.masked_pattern.orbits[0].pieces[12..15].to_vec(), vec![2, 0, 1]);
    assert_eq!(lp.parity, BasicParity::Even);
    let mut wedges = solved();
    wedges.rotate_left(1);
    assert!(LookupPattern::try_new::<Phase1Checker>(&pattern(wedges.clone()), &shape_mask()).is_none());
    assert!(Square1Phase1Coordinates::try_new(&pattern(wedges), &shape_mask()).is_none());
    let mut wedges = solved();
    wedges.swap(2, 5);
    let c = Square1Phase1Coordinates::try_new(&pattern(wedges), &shape_mask()).unwrap();
    assert_eq!(c.parity, BasicParity::Odd);
    assert!(LookupPattern::try_new::<Phase2Checker>(&pattern(solved()), &shape_mask()).is_some());
}

#[test]
fn pattern_derivers() {
    let deriver = Square1Phase1PatternDeriver {};
    let p = deriver.derive_pattern(&pattern(solved()), &shape_mask()).unwrap();
    assert_eq!(p.parity, BasicParity::Even);
    assert_eq!(p.masked_shape_pattern.orbits[0].pieces[0], 0);
    let mut wedges = solved();
    wedges.rotate_left(1);
    assert!(deriver.derive_pattern(&pattern(wedges), &shape_mask()).is_none());
    let deriver2 = Phase2ShapePatternDeriver {};
    assert!(deriver2.derive_pattern(&pattern(solved()), &shape_mask()).is_some());
    let mut wedges = solved();
    wedges.swap(2, 3);
    assert!(deriver2.derive_pattern(&pattern(wedges), &shape_mask()).is_none());
}

#[test]
fn phase_lookup_table_moves() {
    let mut move_application_table = IndexedVec::new();
    let mut row0 = IndexedVec::new();
    row0.push(Some(PhasePatternIndex(1)));
    row0.push(None);
    let mut row1 = IndexedVec::new();
    row1.push(Some(PhasePatternIndex(0)));
    row1.push(Some(PhasePatternIndex(1)));
    move_application_table.push(row0);
    move_application_table.push(row1);
    let table = PhaseLookupTable { index_to_lookup_pattern: IndexedVec::new(), move_application_table };
    assert_eq!(table.apply_move(PhasePatternIndex(0), FlatMoveIndex(0)), Some(PhasePatternIndex(1)));
    assert_eq!(table.apply_move(PhasePatternIndex(0), FlatMoveIndex(1)), None);
    assert_eq!(table.apply_move(PhasePatternIndex(1), FlatMoveIndex(1)), Some(PhasePatternIndex(1)));
}

fn wedge_move(permutation: Vec<u8>) -> Transformation {
    Transformation {
        orbits: vec![TransformationOrbit {
            name: "WEDGES".to_owned(),
            num_orientations: 1,
            orientation_delta: vec![0; permutation.len()],
            permutation,
        }],
    }
}

/// Turns the top layer by `n` wedges.
fn top_turn(n: u8) -> Transformation {
    wedge_move((0..24u8).map(|i| if i < 12 { (i + n) % 12 } else { i }).collect())
}

/// Swaps the wedges of two slots.
fn slot_swap(a: usize, b: usize) -> Transformation {
    let mut permutation: Vec<u8> = (0..24).collect();
    permutation.swap(a, b);
    wedge_move(permutation)
}

#[test]
fn apply_transformation_moves_pieces() {
    let p = apply_transformation(&pattern(solved()), &top_turn(3));
    assert_eq!(p.orbits[0].pieces[..12].to_vec(), vec![3, 4, 5, 6, 7, 8, 9, 10, 11, 0, 1, 2]);
    assert_eq!(p.orbits[0].pieces[12..].to_vec(), (12..24).collect::<Vec<u8>>());
}

#[test]
fn phase_lookup_table_of_quarter_turn_and_blocked_turn() {
    let moves = vec![top_turn(3), top_turn(1)];
    let table = build_phase_lookup_table::<Phase1Checker>(&pattern(solved()), &moves, &shape_mask());
    assert_eq!(table.index_to_lookup_pattern.len(), 1);
    assert_eq!(table.move_application_table.len(), 1);
    let row = table.move_application_table.at(PhasePatternIndex(0));
    assert_eq!(*row.at(FlatMoveIndex(0)), Some(PhasePatternIndex(0)));
    assert_eq!(*row.at(FlatMoveIndex(1)), None);
    let first = table.index_to_lookup_pattern.at(PhasePatternIndex(0));
    assert_eq!(first.parity, BasicParity::Even);
}

#[test]
fn phase_lookup_table_tracks_parity() {
    let moves = vec![slot_swap(2, 5)];
    let table = build_phase_lookup_table::<Phase1Checker>(&pattern(solved()), &moves, &shape_mask());
    assert_eq!(table.index_to_lookup_pattern.len(), 2);
    assert_eq!(table.index_to_lookup_pattern.at(PhasePatternIndex(0)).parity, BasicParity::Even);
    assert_eq!(table.index_to_lookup_pattern.at(PhasePatternIndex(1)).parity, BasicParity::Odd);
    let next = |i: usize| *table.move_application_table.at(PhasePatternIndex(i)).at(FlatMoveIndex(0));
    assert_eq!(next(0), Some(PhasePatternIndex(1)));
    assert_eq!(next(1), Some(PhasePatternIndex(0)));
}

#[test]
fn phase_lookup_table_of_rejected_start_is_empty() {
    let mut wedges = solved();
    wedges.rotate_left(1);
    let table = build_phase_lookup_table::<Phase1Checker>(&pattern(wedges), &vec![top_turn(3)], &shape_mask());
    assert_eq!(table.index_to_lookup_pattern.len(), 0);
    assert_eq!(table.move_application_table.len(), 0);
}

/// Turns the top layer by one wedge.
fn u_sq() -> Transformation {
    wedge_move((0..24u8).map(|i| if i < 12 { (i + 11) % 12 } else { i }).collect())
}

/// Turns the bottom layer by one wedge.
fn d_sq() -> Transformation {
    wedge_move((0..24u8).map(|i| if i >= 12 { 12 + (i - 12 + 11) % 12 } else { i }).collect())
}

/// Exchanges the right halves of the two layers.
fn slash() -> Transformation {
    wedge_move(
        (0..24u8)
            .map(|i| match i {
                6..=11 => i + 6,
                12..=17 => i - 6,
                _ => i,
            })
            .collect(),
    )
}

#[test]
fn phase_lookup_table_test() {
    let moves = vec![u_sq(), d_sq(), slash()];
    let phase_lookup_table = build_phase1_lookup_table(&pattern(solved()), &moves, &shape_mask());
    let cube_pattern_index = PhaseCoordinatesIndex(0);
    #[allow(non_snake_case)]
    let U_SQ_move_index = FlatMoveIndex(0);
    #[allow(non_snake_case)]
    let U_SQ_pattern_index = phase_lookup_table.apply_move(cube_pattern_index, U_SQ_move_index).unwrap();
    let lookup_pattern = phase_lookup_table.data.index_to_coordinates.at(U_SQ_pattern_index);
    let (index, _) = phase_lookup_table
        .data
        .index_to_coordinates
        .iter()
        .into_iter()
        .find(|(_, c)| c.parity == lookup_pattern.parity && c.masked_pattern.orbits[0].pieces == lookup_pattern.masked_pattern.orbits[0].pieces)
        .unwrap();
    assert_eq!(U_SQ_pattern_index, index);
    let other_pattern = apply_transformation(&pattern(solved()), &u_sq());
    assert_eq!(BasicParity::Odd, wedge_parity(&other_pattern.orbits[0].pieces));
    assert_eq!(
        U_SQ_pattern_index,
        phase_lookup_table.full_pattern_to_coordinates(&other_pattern, &shape_mask())
    );
}

#[test]
fn phase1_lookup_table_depths() {
    let moves = vec![u_sq(), d_sq()];
    let table = build_phase1_lookup_table(&pattern(solved()), &moves, &shape_mask());
    let n = table.data.index_to_coordinates.len();
    assert!(n > 1);
    assert_eq!(table.data.exact_prune_table.len(), n);
    assert_eq!(*table.data.exact_prune_table.at(PhaseCoordinatesIndex(0)), 0);
    let prune_table = Square1Phase1PruneTable { tpuzzle: table };
    assert_eq!(prune_table.lookup(&PhaseCoordinatesIndex(0)), 0);
    let after_u = prune_table.tpuzzle.apply_move(PhaseCoordinatesIndex(0), FlatMoveIndex(0)).unwrap();
    assert_eq!(prune_table.lookup(&after_u), 1);
    for i in 0..n {
        for m in 0..2 {
            if let Some(e) = prune_table.tpuzzle.apply_move(PhaseCoordinatesIndex(i), FlatMoveIndex(m)) {
                assert!(prune_table.lookup(&e) <= prune_table.lookup(&PhaseCoordinatesIndex(i)) + 1);
            }
        }
    }
}

#[test]
fn compound_semantic_coordinate() {
    let c = Square1Phase1CompoundSemanticCoordinate::try_new(&pattern(solved()), &shape_mask()).unwrap();
    assert_eq!(c.parity, BasicParity::Even);
    assert_eq!(c.masked_pattern.orbits[0].pieces[..3].to_vec(), vec![0, 1, 2]);
    let mut wedges = solved();
    wedges.swap(2, 5);
    let c = Square1Phase1CompoundSemanticCoordinate::try_new(&pattern(wedges), &shape_mask()).unwrap();
    assert_eq!(c.parity, BasicParity::Odd);
    let mut wedges = solved();
    wedges.rotate_left(1);
    assert!(Square1Phase1CompoundSemanticCoordinate::try_new(&pattern(wedges), &shape_mask()).is_none());
}

#[test]
fn phase1_solution_trimming() {
    assert_eq!(
        trim_phase1_solution(&[U_SQ_(1), SLASH, D_SQ_(2), U_SQ_(1)]),
        Some(vec![U_SQ_(1), SLASH])
    );
    assert_eq!(trim_phase1_solution(&[U_SQ_(1), SLASH, D_SQ_(3)]), None);
    assert_eq!(trim_phase1_solution(&[U_SQ_(1), SLASH, D_SQ_(-1), SLASH]), Some(vec![U_SQ_(1), SLASH, D_SQ_(-1), SLASH]));
    assert_eq!(trim_phase1_solution(&[U_SQ_(2), D_SQ_(1)]), Some(vec![]));
    assert_eq!(trim_phase1_solution(&[]), Some(vec![]));
}

#[test]
fn phase1_table_applies_moves_into_coordinates() {
    let moves = vec![u_sq(), d_sq()];
    let table = build_phase1_lookup_table(&pattern(solved()), &moves, &shape_mask());
    let start = PhaseCoordinatesIndex(0);
    let after_u = table.pattern_apply_transformation(&start, &FlatMoveIndex(0)).unwrap();
    let mut into = start;
    assert!(table.pattern_apply_transformation_into(&start, &FlatMoveIndex(0), &mut into));
    assert_eq!(into, after_u);
    // Two one-wedge turns of the top put an upper corner half at the slice: no coordinates.
    let mut into2 = after_u;
    assert!(!table.pattern_apply_transformation_into(&after_u, &FlatMoveIndex(0), &mut into2));
    assert_eq!(into2, after_u);
}

#[test]
fn checked_table_builders_refuse_unfit_inputs() {
    let start = pattern(solved());
    // A move with a position out of range does not fit the pattern.
    let wild = || {
        let mut t = top_turn(1);
        t.orbits[0].permutation[0] = 24;
        t
    };
    assert!(!check_table_inputs(&start, &vec![wild()], &shape_mask()));
    assert!(try_build_phase_lookup_table::<Phase1Checker>(&start, &vec![wild()], &shape_mask()).is_none());
    // A move of the wrong length does not fit either.
    let short = wedge_move((0..12).collect());
    assert!(try_build_phase1_lookup_table(&start, &vec![short], &shape_mask()).is_none());
    // Two orientation moduli within an orbit are refused.
    let mut mixed = pattern(solved());
    mixed.orbits[0].orientation_mods[3] = 2;
    assert!(!check_table_inputs(&mixed, &vec![top_turn(3)], &shape_mask()));
    // A mask of another puzzle is refused.
    let mut other_mask = shape_mask();
    other_mask.orbits[0].num_orientations = 2;
    assert!(try_build_phase_lookup_table::<Phase1Checker>(&start, &vec![top_turn(3)], &other_mask).is_none());
}

#[test]
fn checked_table_builders_build_on_fit_inputs() {
    let moves = vec![top_turn(3), top_turn(1)];
    assert!(check_table_inputs(&pattern(solved()), &moves, &shape_mask()));
    let table = try_build_phase_lookup_table::<Phase1Checker>(&pattern(solved()), &moves, &shape_mask()).unwrap();
    assert_eq!(table.index_to_lookup_pattern.len(), 1);
    assert_eq!(*table.move_application_table.at(PhasePatternIndex(0)).at(FlatMoveIndex(1)), None);
    let phase1 = try_build_phase1_lookup_table(&pattern(solved()), &vec![u_sq(), d_sq(), slash()], &shape_mask()).unwrap();
    assert_eq!(*phase1.data.exact_prune_table.at(PhaseCoordinatesIndex(0)), 0);
}

#[test]
fn phase_lookup_table_finds_its_lookup_patterns() {
    let table = build_phase_lookup_table::<Phase1Checker>(&pattern(solved()), &vec![slot_swap(2, 5)], &shape_mask());
    let start = LookupPattern::try_new::<Phase1Checker>(&pattern(solved()), &shape_mask()).unwrap();
    assert_eq!(table.lookup_pattern_to_index(&start), Some(PhasePatternIndex(0)));
    let mut wedges = solved();
    wedges.swap(2, 5);
    let swapped = LookupPattern::try_new::<Phase1Checker>(&pattern(wedges), &shape_mask()).unwrap();
    assert_eq!(table.lookup_pattern_to_index(&swapped), Some(PhasePatternIndex(1)));
    let only_start = build_phase_lookup_table::<Phase1Checker>(&pattern(solved()), &vec![top_turn(3)], &shape_mask());
    let mut wedges = solved();
    wedges.swap(2, 5);
    let odd = LookupPattern::try_new::<Phase1Checker>(&pattern(wedges), &shape_mask()).unwrap();
    assert_eq!(only_start.lookup_pattern_to_index(&odd), None);
}
