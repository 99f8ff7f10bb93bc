use twsearch::alg::{collapse_adjacent_moves, Alg, AlgItem, Move, MovePrefix};

fn from_cubing(text: &str) -> Alg {
    let alg: cubing::alg::Alg = text.parse().unwrap();
    let nodes = alg
        .nodes
        .into_iter()
        .map(|node| match node {
            cubing::alg::AlgNode::MoveNode(m) => AlgItem::Move(Move {
                family: m.quantum.family.clone(),
                prefix: match &m.quantum.prefix {
                    Some(cubing::alg::MovePrefix::Layer(l)) => Some(MovePrefix::Layer(l.layer)),
                    Some(cubing::alg::MovePrefix::Range(r)) => {
                        Some(MovePrefix::Range(r.outer_layer, r.inner_layer))
                    }
                    None => None,
                },
                amount: m.amount,
            }),
            other => AlgItem::Other(other),
        })
        .collect();
    Alg { nodes }
}

fn same_items(a: &Alg, b: &Alg) -> bool {
    a.nodes.len() == b.nodes.len()
        && a.nodes.iter().zip(b.nodes.iter()).all(|(x, y)| match (x, y) {
            (AlgItem::Move(m1), AlgItem::Move(m2)) => {
                m1.family == m2.family && m1.prefix == m2.prefix && m1.amount == m2.amount
            }
            (AlgItem::Other(n1), AlgItem::Other(n2)) => n1 == n2,
            _ => false,
        })
}

fn check(input: &str, mod_n: i32, mod_offset: i32, expected: &str) {
    let out = collapse_adjacent_moves(from_cubing(input), mod_n, mod_offset);
    assert!(same_items(&out, &from_cubing(expected)), "{} collapsed", input);
}

#[test]
fn collapse_test() {
    check(
        "R' U' F R2 D U B D U' L' B2 U' F F2 D' B2 D' L2 D' R2 B2 R2 F2 U' B2 D' R' U' F",
        4,
        -1,
        "R' U' F R2 D U B D U' L' B2 U' F' D' B2 D' L2 D' R2 B2 R2 F2 U' B2 D' R' U' F",
    );
    check("R F F' R", 4, -1, "R2");
    check("R F F2 F R", 4, -1, "R2");
    check("R F F2 . F R", 4, -1, "R F' . F R");
    check("R F F2 R", 5, -2, "R F2' R");
}

#[test]
fn collapse_keeps_distinct_families_and_prefixes() {
    check("R U R' U'", 4, -1, "R U R' U'");
    // Moves of one family with different layer prefixes are different quanta: they stay apart.
    check("R 3R", 4, -1, "R 3R");
    check("3Rw Rw", 4, -1, "3Rw Rw");
    check("2-3Rw 2-3Rw 3Rw", 4, -1, "2-3Rw2 3Rw");
    let out = collapse_adjacent_moves(from_cubing("3R 3R'"), 4, -1);
    assert_eq!(out.nodes.len(), 0);
    match &collapse_adjacent_moves(from_cubing("3R 3R"), 4, -1).nodes[0] {
        AlgItem::Move(m) => {
            assert_eq!(m.family, "R");
            assert_eq!(m.prefix, Some(MovePrefix::Layer(3)));
            assert_eq!(m.amount, 2);
        }
        AlgItem::Other(_) => panic!("expected a move"),
    }
}

#[test]
fn collapse_cancels_completely() {
    let out = collapse_adjacent_moves(from_cubing("R U U' R'"), 4, -1);
    assert_eq!(out.nodes.len(), 0);
    // Two half turns make a full turn, which cancels whatever the window.
    let out = collapse_adjacent_moves(from_cubing("R U2 U2 R'"), 4, 1);
    assert_eq!(out.nodes.len(), 0);
    check("R . R'", 4, -1, "R . R'");
}

#[test]
fn collapse_with_window_from_one() {
    // With the window 1..=4 a half turn made of two quarter turns stays a half turn.
    check("R R", 4, 1, "R2");
    check("R R R", 4, 1, "R3");
    check("R F2 F2 R", 4, 1, "R2");
    check("R' R", 4, 1, "");
    let out = collapse_adjacent_moves(from_cubing("R2 R2"), 4, 1);
    assert_eq!(out.nodes.len(), 0);
    let out = collapse_adjacent_moves(from_cubing("U2' U2'"), 4, -1);
    assert_eq!(out.nodes.len(), 0);
}

#[test]
fn collapse_is_idempotent_on_examples() {
    for (text, n, off) in [
        ("R F F2 . F R", 4, -1),
        ("R F F' R U U U", 4, -1),
        ("R R R R R", 5, -2),
        ("L . L L' . R R2", 4, -1),
    ] {
        let once = collapse_adjacent_moves(from_cubing(text), n, off);
        let once_again = collapse_adjacent_moves(from_cubing(text), n, off);
        let twice = collapse_adjacent_moves(once_again, n, off);
        assert!(same_items(&once, &twice), "{}", text);
        for pair in once.nodes.windows(2) {
            if let (AlgItem::Move(a), AlgItem::Move(b)) = (&pair[0], &pair[1]) {
                assert!(a.family != b.family || a.prefix != b.prefix);
            }
        }
        let others_in = from_cubing(text)
            .nodes
            .iter()
            .filter(|x| matches!(x, AlgItem::Other(_)))
            .count();
        let others_out = once
            .nodes
            .iter()
            .filter(|x| matches!(x, AlgItem::Other(_)))
            .count();
        assert_eq!(others_in, others_out);
    }
}
