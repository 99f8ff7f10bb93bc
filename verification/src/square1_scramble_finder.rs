use vstd::prelude::*;

use crate::alg::fits_i32;
use crate::square1_phase2::Square1Phase2Move;

verus! {

/// A node of a Square-1 alg written in tuple notation: `(u, d)` or a slice `/`.
#[derive(Debug, Clone, Copy, PartialEq, Eq, Structural)]
pub enum Square1AlgNode {
    Tuple(i32, i32),
    Slash,
}

/// The remainder of a division that rounds towards zero (the sign follows the dividend).
pub open spec fn truncated_rem(a: int, m: int) -> int {
    if a >= 0 {
        a % m
    } else {
        -((-a) % m)
    }
}

/// Two turns of the same side combined into one, brought to the range that the notation uses.
pub open spec fn combine_tuple_amounts(current: int, amount: int) -> int {
    truncated_rem(current + amount + 5, 12) - 5
}

/// The pending tuple written out (a missing side counts as a zero turn), if there is one.
pub open spec fn flushed(
    u: Option<i32>,
    d: Option<i32>,
    out: Seq<Square1AlgNode>,
) -> Seq<Square1AlgNode> {
    if u is Some || d is Some {
        out.push(
            Square1AlgNode::Tuple(
                match u {
                    Some(a) => a,
                    None => 0,
                },
                match d {
                    Some(a) => a,
                    None => 0,
                },
            ),
        )
    } else {
        out
    }
}

/// The pending side turn after one more turn of that side.
pub open spec fn accumulated(current: Option<i32>, amount: i32) -> Option<i32> {
    match current {
        Some(c) => Some(combine_tuple_amounts(c as int, amount as int) as i32),
        None => Some(amount),
    }
}

/// The state of the grouping after the first `n` moves: the pending U turn, the pending D turn,
/// and the nodes written so far.
pub open spec fn group_state(moves: Seq<Square1Phase2Move>, n: int) -> (
    Option<i32>,
    Option<i32>,
    Seq<Square1AlgNode>,
)
    decreases n,
{
    if n <= 0 {
        (None, None, Seq::empty())
    } else {
        let (u, d, out) = group_state(moves, n - 1);
        match moves[n - 1] {
            Square1Phase2Move::SLASH => (None, None, flushed(u, d, out).push(Square1AlgNode::Slash)),
            Square1Phase2Move::U_SQ_(a) => (accumulated(u, a), d, out),
            Square1Phase2Move::D_SQ_(a) => (u, accumulated(d, a), out),
        }
    }
}

/// A Square-1 alg in tuple notation: consecutive turns of each side between slices are combined
/// into one tuple, and each slice stays as it is.
pub open spec fn grouped_square1_tuples(moves: Seq<Square1Phase2Move>) -> Seq<Square1AlgNode> {
    let (u, d, out) = group_state(moves, moves.len() as int);
    flushed(u, d, out)
}

/// Writes out the pending tuple, if any, and clears it.
pub fn flush_tuple(
    #[allow(non_snake_case)]
    current_tuple_U: &mut Option<i32>,
    #[allow(non_snake_case)]
    current_tuple_D: &mut Option<i32>,
    alg_builder: &mut Vec<Square1AlgNode>,
)
    ensures
        final(alg_builder)@ == flushed(*old(current_tuple_U), *old(current_tuple_D), old(alg_builder)@),
        *final(current_tuple_U) is None,
        *final(current_tuple_D) is None,
{
    if current_tuple_U.is_some() || current_tuple_D.is_some() {
        let u = match current_tuple_U {
            Some(a) => *a,
            None => 0,
        };
        let d = match current_tuple_D {
            Some(a) => *a,
            None => 0,
        };
        alg_builder.push(Square1AlgNode::Tuple(u, d));
    }
    *current_tuple_U = None;
    *current_tuple_D = None;
}

/// Whether adding a turn of `amount` to the pending turn `current` stays within `i32`.
pub open spec fn step_fits(current: Option<i32>, amount: i32) -> bool {
    match current {
        Some(c) => fits_i32(c + amount) && fits_i32(c + amount + 5),
        None => true,
    }
}

/// Whether reading move `n` of `moves` keeps the arithmetic within `i32`.
pub open spec fn move_fits(moves: Seq<Square1Phase2Move>, n: int) -> bool {
    let state = group_state(moves, n);
    match moves[n] {
        Square1Phase2Move::U_SQ_(a) => step_fits(state.0, a),
        Square1Phase2Move::D_SQ_(a) => step_fits(state.1, a),
        Square1Phase2Move::SLASH => true,
    }
}

/// Whether grouping `moves` keeps the arithmetic within `i32` throughout.
pub open spec fn grouping_fits(moves: Seq<Square1Phase2Move>) -> bool {
    forall|n: int| 0 <= n < moves.len() ==> #[trigger] move_fits(moves, n)
}

fn combine_amounts(current: i32, amount: i32) -> (r: i32)
    requires
        step_fits(Some(current), amount),
    ensures
        r == combine_tuple_amounts(current as int, amount as int),
{
    (current + amount + 5) % 12 - 5
}

/// Groups the turns of a Square-1 alg (made of `U_SQ_`, `D_SQ_` and slices) into tuples.
pub fn group_square_1_tuples(alg: &[Square1Phase2Move]) -> (r: Vec<Square1AlgNode>)
    requires
        grouping_fits(alg@),
    ensures
        r@ == grouped_square1_tuples(alg@),
{
    #[allow(non_snake_case)]
    let mut current_tuple_U: Option<i32> = None;
    #[allow(non_snake_case)]
    let mut current_tuple_D: Option<i32> = None;
    let mut alg_builder: Vec<Square1AlgNode> = Vec::new();
    let mut i: usize = 0;
    while i < alg.len()
        invariant
            0 <= i <= alg@.len(),
            grouping_fits(alg@),
            (current_tuple_U, current_tuple_D, alg_builder@) == group_state(alg@, i as int),
        decreases alg@.len() - i,
    {
        let m = alg[i];
        assert(move_fits(alg@, i as int));
        match m {
            Square1Phase2Move::SLASH => {
                flush_tuple(&mut current_tuple_U, &mut current_tuple_D, &mut alg_builder);
                alg_builder.push(Square1AlgNode::Slash);
            },
            Square1Phase2Move::U_SQ_(amount) => {
                current_tuple_U = match current_tuple_U {
                    Some(current) => Some(combine_amounts(current, amount)),
                    None => Some(amount),
                };
            },
            Square1Phase2Move::D_SQ_(amount) => {
                current_tuple_D = match current_tuple_D {
                    Some(current) => Some(combine_amounts(current, amount)),
                    None => Some(amount),
                };
            },
        }
        i += 1;
    }
    flush_tuple(&mut current_tuple_U, &mut current_tuple_D, &mut alg_builder);
    alg_builder
}

} // verus!
