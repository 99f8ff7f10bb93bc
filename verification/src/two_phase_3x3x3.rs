use vstd::prelude::*;
use vstd::string::StringExecFns;

use crate::alg::{Alg, AlgItem, Move, MovePrefix};
use crate::alg_inversion::{
    inverted_view, invertible, invertible_view, items_view, lemma_invert_twice,
};
use crate::big_cubes::move_value;
use crate::strings::str_equals;

verus! {

/// The rotation family that stands for a wide move family of a BLD orientation alg: `Rw` is
/// `x`, `Uw` is `y` and `Fw` is `z`.
pub open spec fn bld_rotation_family(family: Seq<char>) -> Option<Seq<char>> {
    if family == "Rw"@ {
        Some("x"@)
    } else if family == "Uw"@ {
        Some("y"@)
    } else if family == "Fw"@ {
        Some("z"@)
    } else {
        None
    }
}

/// Every node of the alg is an `Rw`, `Uw` or `Fw` move.
pub open spec fn bld_orientation_alg_ok(nodes: Seq<AlgItem>) -> bool {
    forall|i: int|
        0 <= i < nodes.len() ==> match #[trigger] nodes[i] {
            AlgItem::Move(m) => bld_rotation_family(m.family@) is Some,
            AlgItem::Other(_) => false,
        }
}

/// The rotation that stands for a move of a BLD orientation alg: the same prefix and amount,
/// with the rotation family.
pub open spec fn bld_rotation(item: AlgItem) -> (Seq<char>, Option<MovePrefix>, i32) {
    match item {
        AlgItem::Move(m) => (bld_rotation_family(m.family@).unwrap(), m.prefix, m.amount),
        AlgItem::Other(_) => ("x"@, None, 0),
    }
}

/// The rotations that the filter of a BLD scramble applies to the scrambled pattern before its
/// depth check: one for each move of the orientation alg, last move first.
pub fn bld_orientation_rotations(alg: &Alg) -> (r: Vec<Move>)
    requires
        bld_orientation_alg_ok(alg.nodes@),
    ensures
        r@.len() == alg.nodes@.len(),
        forall|i: int|
            0 <= i < r@.len() ==> move_value(#[trigger] r@[i]) == bld_rotation(
                alg.nodes@[alg.nodes@.len() - 1 - i],
            ),
{
    let n = alg.nodes.len();
    let mut rotations: Vec<Move> = Vec::new();
    let mut k: usize = 0;
    while k < n
        invariant
            0 <= k <= n,
            n == alg.nodes@.len(),
            bld_orientation_alg_ok(alg.nodes@),
            rotations@.len() == k,
            forall|i: int|
                0 <= i < k ==> move_value(#[trigger] rotations@[i]) == bld_rotation(
                    alg.nodes@[n - 1 - i],
                ),
        decreases n - k,
    {
        let node = &alg.nodes[n - 1 - k];
        assert(bld_orientation_alg_ok(alg.nodes@) ==> match alg.nodes@[n - 1 - k] {
            AlgItem::Move(m) => bld_rotation_family(m.family@) is Some,
            AlgItem::Other(_) => false,
        });
        match node {
            AlgItem::Move(m) => {
                let family = if str_equals(m.family.as_str(), "Rw") {
                    String::from_str("x")
                } else if str_equals(m.family.as_str(), "Uw") {
                    String::from_str("y")
                } else {
                    assert(m.family@ == "Fw"@);
                    String::from_str("z")
                };
                let ghost prev = rotations@;
                rotations.push(Move { family, prefix: m.prefix, amount: m.amount });
                proof {
                    assert forall|i: int| 0 <= i < k + 1 implies move_value(#[trigger] rotations@[i])
                        == bld_rotation(alg.nodes@[n - 1 - i]) by {
                        if i < k {
                            assert(rotations@[i] == prev[i]);
                        }
                    }
                }
            },
            AlgItem::Other(_) => {
                assert(false);
            },
        }
        k += 1;
    }
    rotations
}

/// What a 3x3x3 scramble comes with around its random pattern: nothing, the FMC affix
/// `R' U' F` before and after it, or a BLD orientation alg after it.
pub enum TwoPhase3x3x3ScrambleAssociatedAffixes {
    NoAffixes,
    ForFMC,
    ForBLD(Alg),
}

/// The view of a move without a prefix.
pub open spec fn plain_move_view(family: Seq<char>, amount: i32) -> Option<(Seq<char>, Option<MovePrefix>, i32)> {
    Some((family, None, amount))
}

/// The FMC affix `R' U' F`.
pub open spec fn fmc_affix_view() -> Seq<Option<(Seq<char>, Option<MovePrefix>, i32)>> {
    seq![plain_move_view("R"@, -1i32), plain_move_view("U"@, -1i32), plain_move_view("F"@, 1i32)]
}

/// The FMC affix alg `R' U' F`.
pub fn fmc_affix_alg() -> (r: Alg)
    ensures
        items_view(r.nodes@) == fmc_affix_view(),
{
    let nodes = vec![
        AlgItem::Move(Move { family: String::from_str("R"), prefix: None, amount: -1 }),
        AlgItem::Move(Move { family: String::from_str("U"), prefix: None, amount: -1 }),
        AlgItem::Move(Move { family: String::from_str("F"), prefix: None, amount: 1 }),
    ];
    proof {
        reveal_strlit("R");
        reveal_strlit("U");
        reveal_strlit("F");
    }
    let r = Alg { nodes };
    assert(items_view(r.nodes@) =~= fmc_affix_view());
    r
}

/// The algs that stand before and after the two phases of a solve: none without affixes, the
/// FMC affix on both sides for FMC, and the inverse of the orientation alg before for BLD.
pub open spec fn affix_views(affixes: TwoPhase3x3x3ScrambleAssociatedAffixes) -> (
    Seq<Option<(Seq<char>, Option<MovePrefix>, i32)>>,
    Seq<Option<(Seq<char>, Option<MovePrefix>, i32)>>,
) {
    match affixes {
        TwoPhase3x3x3ScrambleAssociatedAffixes::NoAffixes => (seq![], seq![]),
        TwoPhase3x3x3ScrambleAssociatedAffixes::ForFMC => (fmc_affix_view(), fmc_affix_view()),
        TwoPhase3x3x3ScrambleAssociatedAffixes::ForBLD(alg) => (inverted_view(items_view(alg.nodes@)), seq![]),
    }
}

/// The affixes can be inverted: a BLD orientation alg is made of moves (the scramble filter
/// refuses any other), none of them by `i32::MIN`.
pub open spec fn affixes_invertible(affixes: TwoPhase3x3x3ScrambleAssociatedAffixes) -> bool {
    affixes matches TwoPhase3x3x3ScrambleAssociatedAffixes::ForBLD(alg) ==> invertible(alg.nodes@)
}

/// The solution of a two-phase solve: the inverse of the alg before the phases, the phase 1
/// and phase 2 solutions, and the inverse of the alg after the phases. For BLD this starts
/// with the orientation alg itself.
pub fn assemble_two_phase_solution(
    affixes: &TwoPhase3x3x3ScrambleAssociatedAffixes,
    phase1: Alg,
    phase2: Alg,
) -> (r: Alg)
    requires
        affixes_invertible(*affixes),
    ensures
        items_view(r.nodes@) == inverted_view(affix_views(*affixes).0) + items_view(phase1.nodes@)
            + items_view(phase2.nodes@) + inverted_view(affix_views(*affixes).1),
        affixes matches TwoPhase3x3x3ScrambleAssociatedAffixes::ForBLD(alg) ==> items_view(r.nodes@)
            == items_view(alg.nodes@) + items_view(phase1.nodes@) + items_view(phase2.nodes@),
{
    let (pre_alg, post_alg) = match affixes {
        TwoPhase3x3x3ScrambleAssociatedAffixes::NoAffixes => (Alg { nodes: Vec::new() }, Alg { nodes: Vec::new() }),
        TwoPhase3x3x3ScrambleAssociatedAffixes::ForFMC => (fmc_affix_alg(), fmc_affix_alg()),
        TwoPhase3x3x3ScrambleAssociatedAffixes::ForBLD(alg) => {
            proof {
                lemma_invert_twice(items_view(alg.nodes@));
            }
            (alg.invert(), Alg { nodes: Vec::new() })
        },
    };
    proof {
        assert(items_view(pre_alg.nodes@) == affix_views(*affixes).0);
        assert(items_view(post_alg.nodes@) == affix_views(*affixes).1);
        lemma_fmc_affix_invertible();
        assert(items_view(Seq::<AlgItem>::empty()) =~= Seq::empty());
        assert(invertible_view(Seq::<Option<(Seq<char>, Option<MovePrefix>, i32)>>::empty()));
    }
    let mut nodes = pre_alg.invert().nodes;
    let mut phase1_nodes = phase1.nodes;
    let mut phase2_nodes = phase2.nodes;
    let mut post_nodes = post_alg.invert().nodes;
    let ghost v0 = items_view(nodes@);
    let ghost v1 = items_view(phase1_nodes@);
    let ghost v2 = items_view(phase2_nodes@);
    let ghost v3 = items_view(post_nodes@);
    nodes.append(&mut phase1_nodes);
    nodes.append(&mut phase2_nodes);
    nodes.append(&mut post_nodes);
    let r = Alg { nodes };
    proof {
        assert(items_view(r.nodes@) =~= v0 + v1 + v2 + v3);
        if let TwoPhase3x3x3ScrambleAssociatedAffixes::ForBLD(alg) = affixes {
            lemma_invert_twice(items_view(alg.nodes@));
            assert(v3 =~= Seq::empty());
            assert(v0 + v1 + v2 + v3 =~= items_view(alg.nodes@) + v1 + v2);
        }
    }
    r
}

/// The moves that the canonical move sequences of a two-phase search are told stand before and
/// after its solution, for each phase (`None` where nothing is known).
pub struct TwoPhaseCanonicalFsmMoves {
    pub pre_moves_phase1: Option<Vec<Move>>,
    pub post_moves_phase1: Option<Vec<Move>>,
    pub pre_moves_phase2: Option<Vec<Move>>,
    pub post_moves_phase2: Option<Vec<Move>>,
}

/// The moves of an optional list, each as its family, prefix and amount.
pub open spec fn moves_view(moves: Option<Vec<Move>>) -> Option<Seq<(Seq<char>, Option<MovePrefix>, i32)>> {
    match moves {
        Some(v) => Some(v@.map_values(|m: Move| (m.family@, m.prefix, m.amount))),
        None => None,
    }
}

/// A single prefix-free move as a list.
pub open spec fn single_move(family: Seq<char>, amount: i32) -> Option<Seq<(Seq<char>, Option<MovePrefix>, i32)>> {
    Some(seq![(family, None, amount)])
}

fn single_move_list(family: &str, amount: i32) -> (r: Option<Vec<Move>>)
    ensures
        moves_view(r) == single_move(family@, amount),
{
    let v = vec![Move { family: String::from_str(family), prefix: None, amount }];
    assert(v@.map_values(|m: Move| (m.family@, m.prefix, m.amount)) =~= seq![(family@, None, amount)]);
    Some(v)
}

/// The canonical moves around each phase's solution: for FMC, the search knows that `F`
/// stands before and `R'` after the phase 1 solution (the last and the first move of the FMC
/// affix, the only ones that matter), and `F2'` and `R2'` (the same faces) around phase 2;
/// otherwise nothing.
pub fn canonical_fsm_moves(affixes: &TwoPhase3x3x3ScrambleAssociatedAffixes) -> (r: TwoPhaseCanonicalFsmMoves)
    ensures
        affixes is ForFMC ==> {
            &&& moves_view(r.pre_moves_phase1) == single_move("F"@, 1i32)
            &&& moves_view(r.post_moves_phase1) == single_move("R"@, -1i32)
            &&& moves_view(r.pre_moves_phase2) == single_move("F"@, -2i32)
            &&& moves_view(r.post_moves_phase2) == single_move("R"@, -2i32)
        },
        affixes is ForFMC ==> {
            &&& moves_view(r.pre_moves_phase1) == Some(seq![fmc_affix_view().last().unwrap()])
            &&& moves_view(r.post_moves_phase1) == Some(seq![fmc_affix_view()[0].unwrap()])
            &&& moves_view(r.pre_moves_phase2)->0[0].0 == fmc_affix_view().last().unwrap().0
            &&& moves_view(r.post_moves_phase2)->0[0].0 == fmc_affix_view()[0].unwrap().0
        },
        !(affixes is ForFMC) ==> {
            &&& r.pre_moves_phase1 is None
            &&& r.post_moves_phase1 is None
            &&& r.pre_moves_phase2 is None
            &&& r.post_moves_phase2 is None
        },
{
    match affixes {
        TwoPhase3x3x3ScrambleAssociatedAffixes::ForFMC => TwoPhaseCanonicalFsmMoves {
            pre_moves_phase1: single_move_list("F", 1),
            post_moves_phase1: single_move_list("R", -1),
            pre_moves_phase2: single_move_list("F", -2),
            post_moves_phase2: single_move_list("R", -2),
        },
        _ => TwoPhaseCanonicalFsmMoves {
            pre_moves_phase1: None,
            post_moves_phase1: None,
            pre_moves_phase2: None,
            post_moves_phase2: None,
        },
    }
}

/// The FMC affix has no move by `i32::MIN`.
proof fn lemma_fmc_affix_invertible()
    ensures
        invertible_view(fmc_affix_view()),
{
    let s = fmc_affix_view();
    assert(s[0] == plain_move_view("R"@, -1i32));
    assert(s[1] == plain_move_view("U"@, -1i32));
    assert(s[2] == plain_move_view("F"@, 1i32));
}

} // verus!
