use vstd::prelude::*;
use vstd::string::StrSliceExecFns;

use crate::alg::{Move, MovePrefix};
use crate::big_cubes::move_value;

verus! {

/// The move that `cubing` reads from a move text, as its family, prefix and amount, or `None`
/// where the text is not a move.
pub uninterp spec fn parsed_move(text: Seq<char>) -> Option<(Seq<char>, Option<MovePrefix>, i32)>;

/// `str::parse::<cubing::alg::Move>` (the `FromStr` of `cubing`'s moves): the result is the
/// move that the text reads as, a function of the text alone, or `None` where `cubing`
/// refuses the text.
#[verifier::external_body]
fn parse_move(text: &str) -> (r: Option<Move>)
    ensures
        match r {
            Some(m) => parsed_move(text@) == Some(move_value(m)),
            None => parsed_move(text@) is None,
        },
{
    match text.parse::<cubing::alg::Move>() {
        Ok(m) => Some(Move {
            family: m.quantum.family.clone(),
            prefix: match &m.quantum.prefix {
                Some(cubing::alg::MovePrefix::Layer(l)) => Some(MovePrefix::Layer(l.layer)),
                Some(cubing::alg::MovePrefix::Range(r)) => Some(MovePrefix::Range(r.outer_layer, r.inner_layer)),
                None => None,
            },
            amount: m.amount,
        }),
        Err(_) => None,
    }
}

/// Every text of the list reads as a move.
pub open spec fn all_parse(move_strings: Seq<&str>) -> bool {
    forall|i: int| 0 <= i < move_strings.len() ==> (#[trigger] parsed_move(move_strings[i]@)) is Some
}

/// Every non-empty text of the list reads as a move.
pub open spec fn all_nonempty_parse(move_strings: Seq<&str>) -> bool {
    forall|i: int|
        0 <= i < move_strings.len() && move_strings[i]@.len() > 0 ==> (#[trigger] parsed_move(
            move_strings[i]@,
        )) is Some
}

/// The moves that the texts read as, in order.
pub fn static_move_list(move_strings: &[&str]) -> (r: Vec<Move>)
    requires
        all_parse(move_strings@),
    ensures
        r@.len() == move_strings@.len(),
        forall|i: int|
            0 <= i < r@.len() ==> parsed_move(move_strings@[i]@) == Some(move_value(#[trigger] r@[i])),
{
    let mut moves: Vec<Move> = Vec::new();
    let mut i: usize = 0;
    while i < move_strings.len()
        invariant
            0 <= i <= move_strings@.len(),
            all_parse(move_strings@),
            moves@.len() == i,
            forall|j: int|
                0 <= j < i ==> parsed_move(move_strings@[j]@) == Some(move_value(#[trigger] moves@[j])),
        decreases move_strings@.len() - i,
    {
        assert(parsed_move(move_strings@[i as int]@) is Some);
        match parse_move(move_strings[i]) {
            Some(m) => moves.push(m),
            None => {
                assert(false);
            },
        }
        i += 1;
    }
    moves
}

/// The moves that the texts read as, or `None` when one of them is not a move.
pub fn try_static_move_list(move_strings: &[&str]) -> (r: Option<Vec<Move>>)
    ensures
        r is Some <==> all_parse(move_strings@),
        r matches Some(moves) ==> moves@.len() == move_strings@.len() && forall|i: int|
            0 <= i < moves@.len() ==> parsed_move(move_strings@[i]@) == Some(
                move_value(#[trigger] moves@[i]),
            ),
{
    let mut i: usize = 0;
    while i < move_strings.len()
        invariant
            0 <= i <= move_strings@.len(),
            forall|j: int| 0 <= j < i ==> (#[trigger] parsed_move(move_strings@[j]@)) is Some,
        decreases move_strings@.len() - i,
    {
        if parse_move(move_strings[i]).is_none() {
            return None;
        }
        i += 1;
    }
    Some(static_move_list(move_strings))
}

/// The moves that the texts read as, with `None` for an empty text.
pub fn static_move_opt_list(move_strings: &[&str]) -> (r: Vec<Option<Move>>)
    requires
        all_nonempty_parse(move_strings@),
    ensures
        r@.len() == move_strings@.len(),
        forall|i: int|
            0 <= i < r@.len() ==> match #[trigger] r@[i] {
                Some(m) => move_strings@[i]@.len() > 0 && parsed_move(move_strings@[i]@) == Some(
                    move_value(m),
                ),
                None => move_strings@[i]@.len() == 0,
            },
{
    let mut moves: Vec<Option<Move>> = Vec::new();
    let mut i: usize = 0;
    while i < move_strings.len()
        invariant
            0 <= i <= move_strings@.len(),
            all_nonempty_parse(move_strings@),
            moves@.len() == i,
            forall|j: int|
                0 <= j < i ==> match #[trigger] moves@[j] {
                    Some(m) => move_strings@[j]@.len() > 0 && parsed_move(move_strings@[j]@)
                        == Some(move_value(m)),
                    None => move_strings@[j]@.len() == 0,
                },
        decreases move_strings@.len() - i,
    {
        let s = move_strings[i];
        if s.unicode_len() == 0 {
            moves.push(None);
        } else {
            assert(parsed_move(move_strings@[i as int]@) is Some);
            match parse_move(s) {
                Some(m) => moves.push(Some(m)),
                None => {
                    assert(false);
                },
            }
        }
        i += 1;
    }
    moves
}

/// The moves that the texts read as, with `None` for an empty text, or `None` as a whole
/// when a non-empty text is not a move.
pub fn try_static_move_opt_list(move_strings: &[&str]) -> (r: Option<Vec<Option<Move>>>)
    ensures
        r is Some <==> all_nonempty_parse(move_strings@),
        r matches Some(moves) ==> moves@.len() == move_strings@.len() && forall|i: int|
            0 <= i < moves@.len() ==> match #[trigger] moves@[i] {
                Some(m) => move_strings@[i]@.len() > 0 && parsed_move(move_strings@[i]@) == Some(
                    move_value(m),
                ),
                None => move_strings@[i]@.len() == 0,
            },
{
    let mut i: usize = 0;
    while i < move_strings.len()
        invariant
            0 <= i <= move_strings@.len(),
            forall|j: int|
                0 <= j < i && move_strings@[j]@.len() > 0 ==> (#[trigger] parsed_move(
                    move_strings@[j]@,
                )) is Some,
        decreases move_strings@.len() - i,
    {
        let s = move_strings[i];
        if s.unicode_len() > 0 && parse_move(s).is_none() {
            return None;
        }
        i += 1;
    }
    Some(static_move_opt_list(move_strings))
}

} // verus!
