use vstd::prelude::*;

use crate::square1_scramble_finder::truncated_rem;

verus! {

/// An alg node as the `cubing` crate holds it; the move logic here only carries such nodes
/// along, without reading them.
#[verifier::external_type_specification]
#[verifier::external_body]
pub struct ExCubingAlgNode(cubing::alg::AlgNode);

/// The layer prefix of a move: one layer (`3Rw`) or a range of layers (`2-3Rw`).
#[derive(Debug, Clone, Copy, PartialEq, Eq, Structural)]
pub enum MovePrefix {
    Layer(u32),
    Range(u32, u32),
}

/// A move: its family (`R`, `Rw`, `U_SQ_`, ...), its optional layer prefix, and its amount.
#[derive(Debug)]
pub struct Move {
    pub family: String,
    pub prefix: Option<MovePrefix>,
    pub amount: i32,
}

/// A node of a flat alg: a move, or any other node (a pause, a comment, ...), carried as is.
pub enum AlgItem {
    Move(Move),
    Other(cubing::alg::AlgNode),
}

/// A flat alg: a sequence of nodes.
pub struct Alg {
    pub nodes: Vec<AlgItem>,
}

/// The node is the move of family `family` by `amount`, without a prefix.
pub open spec fn is_move_item(item: AlgItem, family: Seq<char>, amount: i32) -> bool {
    match item {
        AlgItem::Move(m) => m.family@ == family && m.prefix is None && m.amount == amount,
        AlgItem::Other(_) => false,
    }
}

/// Whether an integer fits in `i32`.
pub open spec fn fits_i32(x: int) -> bool {
    i32::MIN <= x <= i32::MAX
}

/// Whether two moves turn the same quantum: the same family with the same layer prefix. Only
/// such moves combine into one.
pub open spec fn same_quantum(a: Move, b: Move) -> bool {
    a.family@ == b.family@ && a.prefix == b.prefix
}

/// Whether a combined amount is a whole number of full turns (a multiple of `mod_n`), so that
/// the two moves cancel.
pub open spec fn cancels(amount: int, mod_n: int) -> bool {
    truncated_rem(amount, mod_n) == 0
}

/// The amount of two adjacent moves of one quantum combined into one: the sum, brought into
/// the window that starts at `mod_offset` by a remainder modulo `mod_n` (rounding to zero).
pub open spec fn combined_amount(first: int, second: int, mod_n: int, mod_offset: int) -> int {
    truncated_rem(second + first - mod_offset, mod_n) + mod_offset
}

/// Whether combining the amounts `first` and `second` stays within `i32` at every step.
pub open spec fn combination_fits(first: int, second: int, mod_n: int, mod_offset: int) -> bool {
    &&& fits_i32(second + first)
    &&& fits_i32(second + first - mod_offset)
    &&& !(second + first - mod_offset == i32::MIN && mod_n == -1)
    &&& fits_i32(combined_amount(first, second, mod_n, mod_offset))
}

/// The pending move written out as nodes (none or one).
pub open spec fn pending_items(pending: Option<Move>) -> Seq<AlgItem> {
    match pending {
        Some(m) => seq![AlgItem::Move(m)],
        None => seq![],
    }
}

/// Takes the final node back off the written nodes when it is a move.
pub open spec fn popped_final_move(nodes: Seq<AlgItem>) -> (Seq<AlgItem>, Option<Move>) {
    if nodes.len() > 0 {
        match nodes.last() {
            AlgItem::Move(m) => (nodes.drop_last(), Some(m)),
            AlgItem::Other(_) => (nodes, None),
        }
    } else {
        (nodes, None)
    }
}

/// One step of the collapse: the written nodes, the pending move and whether every amount so
/// far fitted, after reading `item`.
pub open spec fn collapse_step(
    state: (Seq<AlgItem>, Option<Move>, bool),
    item: AlgItem,
    mod_n: int,
    mod_offset: int,
) -> (Seq<AlgItem>, Option<Move>, bool) {
    let nodes = state.0;
    let pending = state.1;
    let fits = state.2;
    match item {
        AlgItem::Move(m) => match pending {
            None => (nodes, Some(m), fits),
            Some(p) => if !same_quantum(p, m) {
                (nodes.push(AlgItem::Move(p)), Some(m), fits)
            } else {
                let amount = combined_amount(p.amount as int, m.amount as int, mod_n, mod_offset);
                let fits2 = fits && combination_fits(
                    p.amount as int,
                    m.amount as int,
                    mod_n,
                    mod_offset,
                );
                if cancels(amount, mod_n) {
                    let popped = popped_final_move(nodes);
                    (popped.0, popped.1, fits2)
                } else {
                    (nodes, Some(Move { family: m.family, prefix: m.prefix, amount: amount as i32 }), fits2)
                }
            },
        },
        AlgItem::Other(o) => (nodes + pending_items(pending) + seq![AlgItem::Other(o)], None, fits),
    }
}

/// The state of the collapse after reading all of `items`.
pub open spec fn collapse_fold(items: Seq<AlgItem>, mod_n: int, mod_offset: int) -> (
    Seq<AlgItem>,
    Option<Move>,
    bool,
)
    decreases items.len(),
{
    if items.len() == 0 {
        (seq![], None, true)
    } else {
        collapse_step(collapse_fold(items.drop_last(), mod_n, mod_offset), items.last(), mod_n, mod_offset)
    }
}

/// Whether collapsing `items` keeps every amount within `i32`.
pub open spec fn collapse_fits(items: Seq<AlgItem>, mod_n: int, mod_offset: int) -> bool {
    collapse_fold(items, mod_n, mod_offset).2
}

/// The nodes of `items` with adjacent moves of one quantum collapsed.
pub open spec fn collapsed(items: Seq<AlgItem>, mod_n: int, mod_offset: int) -> Seq<AlgItem> {
    let state = collapse_fold(items, mod_n, mod_offset);
    state.0 + pending_items(state.1)
}

/// Whether the nodes at `i` and `i + 1` are both moves of one quantum.
pub open spec fn same_quantum_at(items: Seq<AlgItem>, i: int) -> bool {
    match (items[i], items[i + 1]) {
        (AlgItem::Move(a), AlgItem::Move(b)) => same_quantum(a, b),
        _ => false,
    }
}

/// Whether no two adjacent nodes are moves of one quantum.
pub open spec fn no_adjacent_same_quantum(items: Seq<AlgItem>) -> bool {
    forall|i: int| 0 <= i < items.len() - 1 ==> !#[trigger] same_quantum_at(items, i)
}

/// The nodes that are not moves, in order.
pub open spec fn other_items(items: Seq<AlgItem>) -> Seq<AlgItem>
    decreases items.len(),
{
    if items.len() == 0 {
        seq![]
    } else {
        let rest = other_items(items.drop_last());
        match items.last() {
            AlgItem::Move(_) => rest,
            AlgItem::Other(_) => rest.push(items.last()),
        }
    }
}

enum CombinedMoves {
    Cancelled,
    Collapsed(Move),
    Separate(Move, Move),
}

fn combine_adjacent_moves(move1: Move, move2: Move, mod_n: i32, mod_offset: i32) -> (r:
    CombinedMoves)
    requires
        mod_n != 0,
        same_quantum(move1, move2) ==> combination_fits(
            move1.amount as int,
            move2.amount as int,
            mod_n as int,
            mod_offset as int,
        ),
    ensures
        !same_quantum(move1, move2) ==> r == CombinedMoves::Separate(move1, move2),
        same_quantum(move1, move2) ==> {
            let amount = combined_amount(
                move1.amount as int,
                move2.amount as int,
                mod_n as int,
                mod_offset as int,
            );
            if cancels(amount, mod_n as int) {
                r is Cancelled
            } else {
                r == CombinedMoves::Collapsed(
                    Move { family: move2.family, prefix: move2.prefix, amount: amount as i32 },
                )
            }
        },
{
    if move2.family != move1.family || move2.prefix != move1.prefix {
        return CombinedMoves::Separate(move1, move2);
    }
    let sum: i32 = move2.amount + move1.amount - mod_offset;
    let new_amount: i32 = sum % mod_n + mod_offset;
    if mod_n == 1 || mod_n == -1 || new_amount % mod_n == 0 {
        return CombinedMoves::Cancelled;
    }
    let mut move2 = move2;
    move2.amount = new_amount;
    CombinedMoves::Collapsed(move2)
}

fn pop_final_move(nodes: &mut Vec<AlgItem>) -> (r: Option<Move>)
    ensures
        (final(nodes)@, r) == popped_final_move(old(nodes)@),
{
    match nodes.pop() {
        Some(popped_node) => match popped_node {
            AlgItem::Move(popped_move) => Some(popped_move),
            AlgItem::Other(node) => {
                nodes.push(AlgItem::Other(node));
                None
            },
        },
        None => None,
    }
}

/// Combines two adjacent moves as `combine_adjacent_moves` does, or gives `None` where an
/// amount would leave `i32`.
fn combine_adjacent_moves_checked(move1: Move, move2: Move, mod_n: i32, mod_offset: i32) -> (r:
    Option<CombinedMoves>)
    requires
        mod_n != 0,
    ensures
        r is None <==> (same_quantum(move1, move2) && !combination_fits(
            move1.amount as int,
            move2.amount as int,
            mod_n as int,
            mod_offset as int,
        )),
        r matches Some(c) ==> {
            &&& !same_quantum(move1, move2) ==> c == CombinedMoves::Separate(move1, move2)
            &&& same_quantum(move1, move2) ==> {
                let amount = combined_amount(
                    move1.amount as int,
                    move2.amount as int,
                    mod_n as int,
                    mod_offset as int,
                );
                if cancels(amount, mod_n as int) {
                    c is Cancelled
                } else {
                    c == CombinedMoves::Collapsed(
                        Move { family: move2.family, prefix: move2.prefix, amount: amount as i32 },
                    )
                }
            }
        },
{
    if move2.family != move1.family || move2.prefix != move1.prefix {
        return Some(CombinedMoves::Separate(move1, move2));
    }
    let sum: i64 = move2.amount as i64 + move1.amount as i64;
    if sum < i32::MIN as i64 || sum > i32::MAX as i64 {
        return None;
    }
    let shifted: i64 = sum - mod_offset as i64;
    if shifted < i32::MIN as i64 || shifted > i32::MAX as i64 {
        return None;
    }
    if shifted == i32::MIN as i64 && mod_n == -1 {
        return None;
    }
    let rem: i32 = (shifted as i32) % mod_n;
    let new_amount: i64 = rem as i64 + mod_offset as i64;
    if new_amount < i32::MIN as i64 || new_amount > i32::MAX as i64 {
        return None;
    }
    Some(combine_adjacent_moves(move1, move2, mod_n, mod_offset))
}

proof fn lemma_fits_prefix(items: Seq<AlgItem>, k: int, mod_n: int, mod_offset: int)
    requires
        0 <= k <= items.len(),
        collapse_fits(items, mod_n, mod_offset),
    ensures
        collapse_fits(items.take(k), mod_n, mod_offset),
    decreases items.len() - k,
{
    if k < items.len() {
        lemma_fits_prefix(items, k + 1, mod_n, mod_offset);
        assert(items.take(k + 1).drop_last() =~= items.take(k));
    } else {
        assert(items.take(k) =~= items);
    }
}

/// Collapses adjacent moves of the same quantum (family and layer prefix), as a minimal form of
/// alg simplification between search phases. For face turns of a cube pass `mod_n` 4 and
/// `mod_offset` 1: amounts are then brought into a window of four values starting at
/// `mod_offset`, and two moves whose combined amount is a whole number of turns (a multiple of
/// `mod_n`) cancel, which may let the moves around them collapse in turn.
pub fn collapse_adjacent_moves(alg: Alg, mod_n: i32, mod_offset: i32) -> (r: Alg)
    requires
        mod_n != 0,
        collapse_fits(alg.nodes@, mod_n as int, mod_offset as int),
    ensures
        r.nodes@ == collapsed(alg.nodes@, mod_n as int, mod_offset as int),
{
    let ghost items = alg.nodes@;
    let ghost n = mod_n as int;
    let ghost off = mod_offset as int;
    let mut nodes: Vec<AlgItem> = Vec::new();
    let mut maybe_pending_move: Option<Move> = None;
    let mut source = alg.nodes;
    let mut rest: Vec<AlgItem> = Vec::new();
    // Reverse the nodes, so that popping gives them in their order.
    while source.len() > 0
        invariant
            source@ + rest@.reverse() == items,
        decreases source.len(),
    {
        let ghost before = source@;
        let ghost old_rest = rest@;
        let item = source.pop().unwrap();
        rest.push(item);
        proof {
            assert(before == source@.push(item));
            assert(rest@.reverse() =~= seq![item] + old_rest.reverse());
            assert(source@ + rest@.reverse() =~= before + old_rest.reverse());
        }
    }
    assert(rest@.reverse() =~= items);
    let ghost total = items.len();
    while rest.len() > 0
        invariant
            rest@.reverse() == items.skip(total - rest.len()),
            total == items.len(),
            rest.len() <= total,
            mod_n == n,
            n != 0,
            mod_offset == off,
            collapse_fits(items, n, off),
            (nodes@, maybe_pending_move, true) == collapse_fold(
                items.take(total - rest.len()),
                n,
                off,
            ),
        decreases rest.len(),
    {
        let ghost k = total - rest.len();
        let ghost before = rest@;
        let new_node = rest.pop().unwrap();
        proof {
            assert(before == rest@.push(new_node));
            assert(items[k] == new_node) by {
                assert(before.reverse()[0] == new_node);
            }
            assert(rest@.reverse() =~= items.skip(k + 1)) by {
                assert forall|j: int| 0 <= j < rest@.len() implies rest@.reverse()[j]
                    == items.skip(k + 1)[j] by {
                    assert(before.reverse()[j + 1] == items.skip(k)[j + 1]);
                }
            }
            assert(items.take(k + 1).drop_last() =~= items.take(k));
            lemma_fits_prefix(items, k + 1, n, off);
        }
        maybe_pending_move = match new_node {
            AlgItem::Move(new_move) => match maybe_pending_move {
                Some(pending_move) => match combine_adjacent_moves(
                    pending_move,
                    new_move,
                    mod_n,
                    mod_offset,
                ) {
                    CombinedMoves::Cancelled => pop_final_move(&mut nodes),
                    CombinedMoves::Collapsed(m) => Some(m),
                    CombinedMoves::Separate(move1, move2) => {
                        nodes.push(AlgItem::Move(move1));
                        Some(move2)
                    },
                },
                None => Some(new_move),
            },
            AlgItem::Other(node) => {
                match maybe_pending_move {
                    Some(pending_move) => nodes.push(AlgItem::Move(pending_move)),
                    None => {},
                }
                nodes.push(AlgItem::Other(node));
                None
            },
        };
        proof {
            assert(nodes@ =~= collapse_fold(items.take(k + 1), n, off).0);
        }
    }
    assert(items.take(total as int) =~= items);
    match maybe_pending_move {
        Some(pending_move) => nodes.push(AlgItem::Move(pending_move)),
        None => {},
    }
    proof {
        assert(nodes@ =~= collapsed(items, n, off));
    }
    Alg { nodes }
}

/// Collapses adjacent moves as `collapse_adjacent_moves` does, or gives `None` where `mod_n`
/// is 0 or an amount would leave `i32` on the way.
pub fn collapse_adjacent_moves_checked(alg: Alg, mod_n: i32, mod_offset: i32) -> (r: Option<Alg>)
    ensures
        r is Some <==> (mod_n != 0 && collapse_fits(alg.nodes@, mod_n as int, mod_offset as int)),
        r matches Some(a) ==> a.nodes@ == collapsed(alg.nodes@, mod_n as int, mod_offset as int),
{
    if mod_n == 0 {
        return None;
    }
    let ghost items = alg.nodes@;
    let ghost n = mod_n as int;
    let ghost off = mod_offset as int;
    let mut nodes: Vec<AlgItem> = Vec::new();
    let mut maybe_pending_move: Option<Move> = None;
    let mut source = alg.nodes;
    let mut rest: Vec<AlgItem> = Vec::new();
    while source.len() > 0
        invariant
            source@ + rest@.reverse() == items,
        decreases source.len(),
    {
        let ghost before = source@;
        let ghost old_rest = rest@;
        let item = source.pop().unwrap();
        rest.push(item);
        proof {
            assert(before == source@.push(item));
            assert(rest@.reverse() =~= seq![item] + old_rest.reverse());
            assert(source@ + rest@.reverse() =~= before + old_rest.reverse());
        }
    }
    assert(rest@.reverse() =~= items);
    let ghost total = items.len();
    while rest.len() > 0
        invariant
            items == alg.nodes@,
            rest@.reverse() == items.skip(total - rest.len()),
            total == items.len(),
            rest.len() <= total,
            mod_n == n,
            n != 0,
            mod_offset == off,
            (nodes@, maybe_pending_move, true) == collapse_fold(
                items.take(total - rest.len()),
                n,
                off,
            ),
        decreases rest.len(),
    {
        let ghost k = total - rest.len();
        let ghost before = rest@;
        let new_node = rest.pop().unwrap();
        proof {
            assert(before == rest@.push(new_node));
            assert(items[k] == new_node) by {
                assert(before.reverse()[0] == new_node);
            }
            assert(rest@.reverse() =~= items.skip(k + 1)) by {
                assert forall|j: int| 0 <= j < rest@.len() implies rest@.reverse()[j]
                    == items.skip(k + 1)[j] by {
                    assert(before.reverse()[j + 1] == items.skip(k)[j + 1]);
                }
            }
            assert(items.take(k + 1).drop_last() =~= items.take(k));
        }
        maybe_pending_move = match new_node {
            AlgItem::Move(new_move) => match maybe_pending_move {
                Some(pending_move) => match combine_adjacent_moves_checked(
                    pending_move,
                    new_move,
                    mod_n,
                    mod_offset,
                ) {
                    None => {
                        proof {
                            assert(items.take(k + 1).last() == items[k]);
                            assert(collapse_fold(items.take(k + 1), n, off) == collapse_step(
                                collapse_fold(items.take(k), n, off),
                                items[k],
                                n,
                                off,
                            ));
                            assert(!collapse_fits(items.take(k + 1), n, off));
                            if collapse_fits(items, n, off) {
                                lemma_fits_prefix(items, k + 1, n, off);
                            }
                        }
                        return None;
                    },
                    Some(CombinedMoves::Cancelled) => pop_final_move(&mut nodes),
                    Some(CombinedMoves::Collapsed(m)) => Some(m),
                    Some(CombinedMoves::Separate(move1, move2)) => {
                        nodes.push(AlgItem::Move(move1));
                        Some(move2)
                    },
                },
                None => Some(new_move),
            },
            AlgItem::Other(node) => {
                match maybe_pending_move {
                    Some(pending_move) => nodes.push(AlgItem::Move(pending_move)),
                    None => {},
                }
                nodes.push(AlgItem::Other(node));
                None
            },
        };
        proof {
            assert(nodes@ =~= collapse_fold(items.take(k + 1), n, off).0);
        }
    }
    assert(items.take(total as int) =~= items);
    match maybe_pending_move {
        Some(pending_move) => nodes.push(AlgItem::Move(pending_move)),
        None => {},
    }
    proof {
        assert(nodes@ =~= collapsed(items, n, off));
    }
    Some(Alg { nodes })
}

/// What the collapse keeps between steps: no two written nodes side by side are moves of one
/// quantum, and the pending move differs in quantum from a move written just before it.
spec fn collapse_state_ok(state: (Seq<AlgItem>, Option<Move>, bool)) -> bool {
    &&& no_adjacent_same_quantum(state.0)
    &&& match state.1 {
        Some(p) => state.0.len() > 0 ==> match state.0.last() {
            AlgItem::Move(m) => !same_quantum(m, p),
            AlgItem::Other(_) => true,
        },
        None => true,
    }
}

proof fn lemma_collapse_state_ok(items: Seq<AlgItem>, mod_n: int, mod_offset: int)
    ensures
        collapse_state_ok(collapse_fold(items, mod_n, mod_offset)),
    decreases items.len(),
{
    if items.len() > 0 {
        let prev = collapse_fold(items.drop_last(), mod_n, mod_offset);
        lemma_collapse_state_ok(items.drop_last(), mod_n, mod_offset);
        let next = collapse_fold(items, mod_n, mod_offset);
        let nodes = prev.0;
        match items.last() {
            AlgItem::Move(m) => match prev.1 {
                None => {},
                Some(p) => {
                    if !same_quantum(p, m) {
                        let pushed = nodes.push(AlgItem::Move(p));
                        assert forall|i: int| 0 <= i < pushed.len() - 1 implies !#[trigger] same_quantum_at(pushed, i) by {
                            if i < nodes.len() - 1 {
                                assert(same_quantum_at(pushed, i) == same_quantum_at(nodes, i));
                            }
                        }
                    } else {
                        if nodes.len() > 0 {
                            let rest = nodes.drop_last();
                            assert forall|i: int| 0 <= i < rest.len() - 1 implies !#[trigger] same_quantum_at(rest, i) by {
                                assert(same_quantum_at(rest, i) == same_quantum_at(nodes, i));
                            }
                            if rest.len() > 0 {
                                assert(!same_quantum_at(nodes, rest.len() - 1));
                            }
                        }
                    }
                },
            },
            AlgItem::Other(o) => {
                let mid = nodes + pending_items(prev.1);
                let out = mid + seq![AlgItem::Other(o)];
                assert forall|i: int| 0 <= i < mid.len() - 1 implies !#[trigger] same_quantum_at(mid, i) by {
                    if i < nodes.len() - 1 {
                        assert(same_quantum_at(mid, i) == same_quantum_at(nodes, i));
                    }
                }
                assert forall|i: int| 0 <= i < out.len() - 1 implies !#[trigger] same_quantum_at(out, i) by {
                    if i < mid.len() - 1 {
                        assert(same_quantum_at(out, i) == same_quantum_at(mid, i));
                    }
                }
            },
        }
    }
}

/// No two adjacent nodes of a collapsed alg are moves of one quantum.
pub proof fn lemma_collapsed_has_no_adjacent_same_quantum(
    items: Seq<AlgItem>,
    mod_n: int,
    mod_offset: int,
)
    ensures
        no_adjacent_same_quantum(collapsed(items, mod_n, mod_offset)),
{
    lemma_collapse_state_ok(items, mod_n, mod_offset);
    let state = collapse_fold(items, mod_n, mod_offset);
    let out = collapsed(items, mod_n, mod_offset);
    assert forall|i: int| 0 <= i < out.len() - 1 implies !#[trigger] same_quantum_at(out, i) by {
        if i < state.0.len() - 1 {
            assert(same_quantum_at(out, i) == same_quantum_at(state.0, i));
        }
    }
}

proof fn lemma_collapse_fold_of_collapsed(items: Seq<AlgItem>, mod_n: int, mod_offset: int)
    requires
        no_adjacent_same_quantum(items),
    ensures
        collapse_fold(items, mod_n, mod_offset) == (if items.len() > 0 && items.last() is Move {
            (items.drop_last(), Some(items.last()->Move_0), true)
        } else {
            (items, None, true)
        }),
    decreases items.len(),
{
    if items.len() > 0 {
        let prefix = items.drop_last();
        assert forall|i: int| 0 <= i < prefix.len() - 1 implies !#[trigger] same_quantum_at(prefix, i) by {
            assert(same_quantum_at(prefix, i) == same_quantum_at(items, i));
        }
        lemma_collapse_fold_of_collapsed(prefix, mod_n, mod_offset);
        if prefix.len() > 0 {
            assert(!same_quantum_at(items, prefix.len() - 1));
        }
        if prefix.len() > 0 {
            assert(prefix.drop_last().push(prefix.last()) =~= prefix);
        }
        assert(prefix.push(items.last()) =~= items);
        assert(prefix + seq![items.last()] =~= items);
        if prefix.len() > 0 && prefix.last() is Move {
            assert(prefix.drop_last() + pending_items(Some(prefix.last()->Move_0)) =~= prefix);
        } else {
            assert(prefix + pending_items(None) =~= prefix);
        }
    }
}

/// An alg with no two adjacent moves of one quantum is left as it is by the collapse.
pub proof fn lemma_collapse_leaves_collapsed_alg(items: Seq<AlgItem>, mod_n: int, mod_offset: int)
    requires
        no_adjacent_same_quantum(items),
    ensures
        collapse_fits(items, mod_n, mod_offset),
        collapsed(items, mod_n, mod_offset) == items,
{
    lemma_collapse_fold_of_collapsed(items, mod_n, mod_offset);
    if items.len() > 0 && items.last() is Move {
        assert(items.drop_last().push(items.last()) =~= items);
        assert(items.drop_last() + pending_items(Some(items.last()->Move_0)) =~= items);
    } else {
        assert(items + pending_items(None) =~= items);
    }
}

/// Collapsing twice gives what collapsing once gave.
pub proof fn lemma_collapse_idempotent(items: Seq<AlgItem>, mod_n: int, mod_offset: int)
    ensures
        collapse_fits(collapsed(items, mod_n, mod_offset), mod_n, mod_offset),
        collapsed(collapsed(items, mod_n, mod_offset), mod_n, mod_offset) == collapsed(
            items,
            mod_n,
            mod_offset,
        ),
{
    lemma_collapsed_has_no_adjacent_same_quantum(items, mod_n, mod_offset);
    lemma_collapse_leaves_collapsed_alg(collapsed(items, mod_n, mod_offset), mod_n, mod_offset);
}

proof fn lemma_other_items_append(a: Seq<AlgItem>, b: Seq<AlgItem>)
    ensures
        other_items(a + b) == other_items(a) + other_items(b),
    decreases b.len(),
{
    if b.len() == 0 {
        assert(a + b =~= a);
        assert(other_items(a) + other_items(b) =~= other_items(a));
    } else {
        lemma_other_items_append(a, b.drop_last());
        assert((a + b).drop_last() =~= a + b.drop_last());
        assert((a + b).last() == b.last());
        match b.last() {
            AlgItem::Move(_) => {},
            AlgItem::Other(_) => {
                assert(other_items(a) + other_items(b.drop_last()).push(b.last()) =~= (
                other_items(a) + other_items(b.drop_last())).push(b.last()));
            },
        }
    }
}

proof fn lemma_collapse_fold_other_items(items: Seq<AlgItem>, mod_n: int, mod_offset: int)
    ensures
        ({
            let state = collapse_fold(items, mod_n, mod_offset);
            other_items(state.0 + pending_items(state.1)) == other_items(items)
        }),
    decreases items.len(),
{
    if items.len() > 0 {
        let prev = collapse_fold(items.drop_last(), mod_n, mod_offset);
        lemma_collapse_fold_other_items(items.drop_last(), mod_n, mod_offset);
        let nodes = prev.0;
        lemma_other_items_append(nodes, pending_items(prev.1));
        let state = collapse_fold(items, mod_n, mod_offset);
        lemma_other_items_append(state.0, pending_items(state.1));
        assert(other_items(pending_items(prev.1)) =~= seq![]) by {
            reveal_with_fuel(other_items, 2);
            if prev.1 is Some {
                assert(pending_items(prev.1).drop_last() =~= seq![]);
            }
        }
        assert(other_items(pending_items(state.1)) =~= seq![]) by {
            reveal_with_fuel(other_items, 2);
            if state.1 is Some {
                assert(pending_items(state.1).drop_last() =~= seq![]);
            }
        }
        match items.last() {
            AlgItem::Move(m) => match prev.1 {
                None => {},
                Some(p) => {
                    if !same_quantum(p, m) {
                        lemma_other_items_append(nodes, seq![AlgItem::Move(p)]);
                        assert(nodes + seq![AlgItem::Move(p)] =~= nodes.push(AlgItem::Move(p)));
                        assert(seq![AlgItem::Move(p)].drop_last() =~= seq![]);
                    } else {
                        if nodes.len() > 0 && nodes.last() is Move {
                            assert(nodes.drop_last().push(nodes.last()) =~= nodes);
                        }
                    }
                },
            },
            AlgItem::Other(o) => {
                let mid = nodes + pending_items(prev.1);
                lemma_other_items_append(mid, seq![AlgItem::Other(o)]);
                assert(seq![AlgItem::Other(o)].drop_last() =~= seq![]);
                assert(state.0 + pending_items(state.1) =~= mid + seq![AlgItem::Other(o)]);
            },
        }
    }
}

/// The collapse keeps every node that is not a move, in order.
pub proof fn lemma_collapse_keeps_other_nodes(items: Seq<AlgItem>, mod_n: int, mod_offset: int)
    ensures
        other_items(collapsed(items, mod_n, mod_offset)) == other_items(items),
{
    lemma_collapse_fold_other_items(items, mod_n, mod_offset);
}

} // verus!
