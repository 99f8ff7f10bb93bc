use vstd::prelude::*;

use crate::alg::{Alg, AlgItem, Move, MovePrefix};
use crate::strings::str_equals;

verus! {

/// What a node is to the move logic: the family, prefix and amount of a move, or `None` for
/// any other node.
pub open spec fn item_view(item: AlgItem) -> Option<(Seq<char>, Option<MovePrefix>, i32)> {
    match item {
        AlgItem::Move(m) => Some((m.family@, m.prefix, m.amount)),
        AlgItem::Other(_) => None,
    }
}

/// The nodes as the move logic sees them, one by one.
pub open spec fn items_view(items: Seq<AlgItem>) -> Seq<Option<(Seq<char>, Option<MovePrefix>, i32)>> {
    items.map_values(|item: AlgItem| item_view(item))
}

/// The inverse of a move: the same move turned the other way, except the Square-1 slash
/// (`_SLASH_` without a prefix), which is its own inverse.
pub open spec fn inverted_move_view(v: (Seq<char>, Option<MovePrefix>, i32)) -> (
    Seq<char>,
    Option<MovePrefix>,
    i32,
) {
    if v.0 == "_SLASH_"@ && v.1 is None {
        v
    } else {
        (v.0, v.1, (-v.2) as i32)
    }
}

/// The inverse of an alg as the move logic sees it: the nodes in reverse order, each move
/// inverted.
pub open spec fn inverted_view(s: Seq<Option<(Seq<char>, Option<MovePrefix>, i32)>>) -> Seq<
    Option<(Seq<char>, Option<MovePrefix>, i32)>,
> {
    Seq::new(
        s.len(),
        |i: int|
            match s[s.len() - 1 - i] {
                Some(v) => Some(inverted_move_view(v)),
                None => None,
            },
    )
}

/// Every node of the view is a move, and none turns by `i32::MIN`, whose opposite does not fit
/// in `i32`.
pub open spec fn invertible_view(s: Seq<Option<(Seq<char>, Option<MovePrefix>, i32)>>) -> bool {
    forall|i: int| 0 <= i < s.len() ==> (#[trigger] s[i] matches Some(v) && v.2 != i32::MIN)
}

/// The alg is made of moves only, none of them by `i32::MIN`. These are the algs that are
/// inverted here: the FMC affix and the BLD orientation algs.
pub open spec fn invertible(items: Seq<AlgItem>) -> bool {
    invertible_view(items_view(items))
}

/// The inverse of a move, as `cubing` inverts one.
fn invert_move(m: &Move) -> (r: Move)
    requires
        m.amount != i32::MIN,
    ensures
        (r.family@, r.prefix, r.amount) == inverted_move_view((m.family@, m.prefix, m.amount)),
{
    if str_equals(m.family.as_str(), "_SLASH_") && m.prefix.is_none() {
        Move { family: m.family.clone(), prefix: m.prefix, amount: m.amount }
    } else {
        Move { family: m.family.clone(), prefix: m.prefix, amount: -m.amount }
    }
}

impl Alg {
    /// The inverse of an alg of moves: its moves in reverse order, each inverted.
    pub fn invert(&self) -> (r: Alg)
        requires
            invertible(self.nodes@),
        ensures
            items_view(r.nodes@) == inverted_view(items_view(self.nodes@)),
            invertible(r.nodes@),
            r.nodes@.len() == self.nodes@.len(),
            forall|i: int|
                0 <= i < r.nodes@.len() ==> moves_undo(
                    #[trigger] item_view(r.nodes@[i]),
                    item_view(self.nodes@[self.nodes@.len() - 1 - i]),
                ),
    {
        let n = self.nodes.len();
        let mut nodes: Vec<AlgItem> = Vec::new();
        let ghost view = items_view(self.nodes@);
        let mut k: usize = 0;
        while k < n
            invariant
                0 <= k <= n,
                n == self.nodes@.len(),
                view == items_view(self.nodes@),
                invertible(self.nodes@),
                nodes@.len() == k,
                forall|i: int| 0 <= i < k ==> #[trigger] item_view(nodes@[i]) == inverted_view(view)[i],
            decreases n - k,
        {
            let node = &self.nodes[n - 1 - k];
            proof {
                assert(view[n - 1 - k as int] == item_view(self.nodes@[n - 1 - k as int]));
            }
            assert(view[n - 1 - k as int] is Some);
            if let AlgItem::Move(m) = node {
                nodes.push(AlgItem::Move(invert_move(m)));
            }
            k += 1;
        }
        let r = Alg { nodes };
        assert(items_view(r.nodes@) =~= inverted_view(items_view(self.nodes@)));
        proof {
            lemma_invert_twice(view);
            lemma_inverse_undoes_each_move(view);
            assert forall|i: int| 0 <= i < r.nodes@.len() implies moves_undo(
                #[trigger] item_view(r.nodes@[i]),
                item_view(self.nodes@[self.nodes@.len() - 1 - i]),
            ) by {
                assert(items_view(r.nodes@)[i] == item_view(r.nodes@[i]));
                assert(view[view.len() - 1 - i] == item_view(self.nodes@[self.nodes@.len() - 1 - i]));
            }
        }
        r
    }
}

/// The node `w` undoes the move `v`: both are moves of the same family and layer prefix, and
/// their amounts add up to zero, except for the unprefixed Square-1 slash, which undoes itself
/// with the same amount.
pub open spec fn moves_undo(
    w: Option<(Seq<char>, Option<MovePrefix>, i32)>,
    v: Option<(Seq<char>, Option<MovePrefix>, i32)>,
) -> bool {
    match (w, v) {
        (Some(a), Some(b)) => {
            &&& a.0 == b.0
            &&& a.1 == b.1
            &&& if b.0 == "_SLASH_"@ && b.1 is None {
                a.2 == b.2
            } else {
                a.2 + b.2 == 0
            }
        },
        _ => false,
    }
}

/// The inverse of an alg of moves undoes it move by move: its `i`-th move undoes the `i`-th
/// move from the end of the alg (same family and prefix, opposite amount; the slash is its own
/// inverse).
pub proof fn lemma_inverse_undoes_each_move(s: Seq<Option<(Seq<char>, Option<MovePrefix>, i32)>>)
    requires
        invertible_view(s),
    ensures
        inverted_view(s).len() == s.len(),
        forall|i: int| 0 <= i < s.len() ==> moves_undo(#[trigger] inverted_view(s)[i], s[s.len() - 1 - i]),
{
    assert forall|i: int| 0 <= i < s.len() implies moves_undo(#[trigger] inverted_view(s)[i], s[s.len() - 1 - i]) by {
        assert(s[s.len() - 1 - i] matches Some(v) && v.2 != i32::MIN);
    }
}

/// Inverting an alg twice gives it back, as the move logic sees it; and the inverse of an
/// invertible alg is invertible again.
pub proof fn lemma_invert_twice(s: Seq<Option<(Seq<char>, Option<MovePrefix>, i32)>>)
    requires
        invertible_view(s),
    ensures
        invertible_view(inverted_view(s)),
        inverted_view(inverted_view(s)) == s,
{
    let t = inverted_view(s);
    assert forall|i: int| 0 <= i < t.len() implies (#[trigger] t[i] matches Some(v) && v.2
        != i32::MIN) by {
        assert(s[s.len() - 1 - i] matches Some(v) && v.2 != i32::MIN);
    }
    assert forall|i: int| 0 <= i < s.len() implies #[trigger] inverted_view(t)[i] == s[i] by {
        assert(t[t.len() - 1 - i] == match s[i] {
            Some(v) => Some(inverted_move_view(v)),
            None => None,
        });
    }
    assert(inverted_view(t) =~= s);
}

} // verus!
