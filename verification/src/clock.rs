use vstd::prelude::*;
use vstd::string::StringExecFns;

use crate::alg::{is_move_item, Alg, AlgItem, Move};
use crate::random::random_range;

verus! {

/// The pin-up moves turned on both sides of the clock, in scramble order.
pub open spec fn clock_back_families() -> Seq<Seq<char>> {
    seq!["U_PLUS_"@, "R_PLUS_"@, "D_PLUS_"@, "L_PLUS_"@, "ALL_PLUS_"@]
}

/// The moves turned on the front of the clock, in scramble order.
pub open spec fn clock_front_families() -> Seq<Seq<char>> {
    clock_back_families() + seq!["UR_PLUS_"@, "DR_PLUS_"@, "DL_PLUS_"@, "UL_PLUS_"@]
}

/// The amounts that a clock scramble turns a move by.
pub open spec fn clock_amount_ok(a: i32) -> bool {
    -5 <= a < 7
}

/// The clock scramble with the given amounts: the front moves, `y2`, then the back moves.
pub open spec fn is_clock_scramble_with(nodes: Seq<AlgItem>, front: Seq<i32>, back: Seq<i32>) -> bool {
    &&& nodes.len() == 15
    &&& forall|i: int| 0 <= i < 9 ==> is_move_item(#[trigger] nodes[i], clock_front_families()[i], front[i])
    &&& is_move_item(nodes[9], "y"@, 2)
    &&& forall|j: int| 0 <= j < 5 ==> is_move_item(#[trigger] nodes[10 + j], clock_back_families()[j], back[j])
}

/// A clock scramble: the front moves, `y2`, then the back moves, each by an amount from -5
/// to 6.
pub open spec fn is_clock_scramble(nodes: Seq<AlgItem>) -> bool {
    exists|front: Seq<i32>, back: Seq<i32>|
        front.len() == 9 && back.len() == 5 && (forall|i: int| 0 <= i < 9 ==> clock_amount_ok(#[trigger] front[i]))
            && (forall|j: int| 0 <= j < 5 ==> clock_amount_ok(#[trigger] back[j]))
            && is_clock_scramble_with(nodes, front, back)
}

fn clock_move(family: &str, amount: i32) -> (r: AlgItem)
    ensures
        is_move_item(r, family@, amount),
{
    AlgItem::Move(Move { family: String::from_str(family), prefix: None, amount })
}

/// The clock scramble with the given amounts (nine for the front, five for the back).
pub fn clock_scramble_from_amounts(front: &[i32], back: &[i32]) -> (r: Alg)
    requires
        front@.len() == 9,
        back@.len() == 5,
    ensures
        is_clock_scramble_with(r.nodes@, front@, back@),
{
    let front_families: [&str; 9] = [
        "U_PLUS_",
        "R_PLUS_",
        "D_PLUS_",
        "L_PLUS_",
        "ALL_PLUS_",
        "UR_PLUS_",
        "DR_PLUS_",
        "DL_PLUS_",
        "UL_PLUS_",
    ];
    assert(front_families@.map_values(|s: &str| s@) =~= clock_front_families());
    let mut nodes: Vec<AlgItem> = Vec::new();
    let mut i: usize = 0;
    while i < 9
        invariant
            0 <= i <= 9,
            front@.len() == 9,
            front_families@.map_values(|s: &str| s@) == clock_front_families(),
            nodes@.len() == i,
            forall|k: int| 0 <= k < i ==> is_move_item(#[trigger] nodes@[k], clock_front_families()[k], front@[k]),
        decreases 9 - i,
    {
        let ghost before = nodes@;
        nodes.push(clock_move(front_families[i], front[i]));
        proof {
            assert(front_families@.map_values(|s: &str| s@)[i as int] == front_families@[i as int]@);
            assert forall|k: int| 0 <= k < i + 1 implies is_move_item(#[trigger] nodes@[k], clock_front_families()[k], front@[k]) by {
                if k < i {
                    assert(nodes@[k] == before[k]);
                }
            }
        }
        i += 1;
    }
    nodes.push(clock_move("y", 2));
    let mut j: usize = 0;
    while j < 5
        invariant
            0 <= j <= 5,
            back@.len() == 5,
            front@.len() == 9,
            front_families@.map_values(|s: &str| s@) == clock_front_families(),
            nodes@.len() == 10 + j,
            forall|k: int| 0 <= k < 9 ==> is_move_item(#[trigger] nodes@[k], clock_front_families()[k], front@[k]),
            is_move_item(nodes@[9], "y"@, 2),
            forall|k: int| 0 <= k < j ==> is_move_item(#[trigger] nodes@[10 + k], clock_back_families()[k], back@[k]),
        decreases 5 - j,
    {
        let ghost before = nodes@;
        proof {
            assert(clock_front_families()[j as int] == clock_back_families()[j as int]);
            assert(front_families@.map_values(|s: &str| s@)[j as int] == front_families@[j as int]@);
        }
        nodes.push(clock_move(front_families[j], back[j]));
        proof {
            assert forall|k: int| 0 <= k < 9 implies is_move_item(#[trigger] nodes@[k], clock_front_families()[k], front@[k]) by {
                assert(nodes@[k] == before[k]);
            }
            assert(nodes@[9] == before[9]);
            assert forall|k: int| 0 <= k < j + 1 implies is_move_item(#[trigger] nodes@[10 + k], clock_back_families()[k], back@[k]) by {
                if k < j {
                    assert(nodes@[10 + k] == before[10 + k]);
                }
            }
        }
        j += 1;
    }
    Alg { nodes }
}

/// A random clock scramble: each move of the front, then (after `y2`) of the back, by a
/// random amount from -5 to 6.
pub fn scramble_clock() -> (r: Alg)
    ensures
        is_clock_scramble(r.nodes@),
{
    let mut front: Vec<i32> = Vec::new();
    while front.len() < 9
        invariant
            front@.len() <= 9,
            forall|i: int| 0 <= i < front@.len() ==> clock_amount_ok(#[trigger] front@[i]),
        decreases 9 - front@.len(),
    {
        front.push(random_range(-5, 7) as i32);
    }
    let mut back: Vec<i32> = Vec::new();
    while back.len() < 5
        invariant
            back@.len() <= 5,
            forall|i: int| 0 <= i < back@.len() ==> clock_amount_ok(#[trigger] back@[i]),
        decreases 5 - back@.len(),
    {
        back.push(random_range(-5, 7) as i32);
    }
    let r = clock_scramble_from_amounts(front.as_slice(), back.as_slice());
    assert(is_clock_scramble_with(r.nodes@, front@, back@));
    r
}

} // verus!
