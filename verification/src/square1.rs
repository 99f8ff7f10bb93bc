use vstd::prelude::*;

use crate::pattern::{same_pattern_values, Pattern};
use crate::parity::{basic_parity, permutation_parity, BasicParity};

verus! {

/// Whether a search or filter keeps a candidate.
#[derive(Debug, Clone, Copy, PartialEq, Eq, Structural)]
pub enum FilteringDecision {
    Accept,
    Reject,
}

/// The kind of a Square-1 wedge: one half of a corner, or an edge.
#[derive(Debug, Clone, Copy, PartialEq, Eq, Structural)]
pub enum WedgeType {
    CornerLower,
    CornerUpper,
    Edge,
}

/// The number of wedges (and wedge slots) of a Square-1.
pub const NUM_WEDGES: u8 = 24;

/// The kind of each of the 24 wedges of a Square-1, by wedge number.
pub open spec fn wedge_types() -> Seq<WedgeType> {
    seq![
        WedgeType::CornerLower, WedgeType::CornerUpper, WedgeType::Edge,
        WedgeType::CornerLower, WedgeType::CornerUpper, WedgeType::Edge,
        WedgeType::CornerLower, WedgeType::CornerUpper, WedgeType::Edge,
        WedgeType::CornerLower, WedgeType::CornerUpper, WedgeType::Edge,
        WedgeType::Edge, WedgeType::CornerLower, WedgeType::CornerUpper,
        WedgeType::Edge, WedgeType::CornerLower, WedgeType::CornerUpper,
        WedgeType::Edge, WedgeType::CornerLower, WedgeType::CornerUpper,
        WedgeType::Edge, WedgeType::CornerLower, WedgeType::CornerUpper,
    ]
}

/// The kind of wedge `w`.
pub open spec fn wedge_type(w: u8) -> WedgeType {
    wedge_types()[w as int]
}

/// Whether every entry of a slot sequence is a wedge number.
pub open spec fn valid_wedges(wedges: Seq<u8>) -> bool {
    &&& wedges.len() == NUM_WEDGES
    &&& forall|i: int| 0 <= i < wedges.len() ==> #[trigger] wedges[i] < NUM_WEDGES
}

/// The kind of wedge `value`.
pub fn wedge_type_lookup(value: u8) -> (r: WedgeType)
    requires
        value < NUM_WEDGES,
    ensures
        r == wedge_type(value),
{
    let table = [
        WedgeType::CornerLower, WedgeType::CornerUpper, WedgeType::Edge,
        WedgeType::CornerLower, WedgeType::CornerUpper, WedgeType::Edge,
        WedgeType::CornerLower, WedgeType::CornerUpper, WedgeType::Edge,
        WedgeType::CornerLower, WedgeType::CornerUpper, WedgeType::Edge,
        WedgeType::Edge, WedgeType::CornerLower, WedgeType::CornerUpper,
        WedgeType::Edge, WedgeType::CornerLower, WedgeType::CornerUpper,
        WedgeType::Edge, WedgeType::CornerLower, WedgeType::CornerUpper,
        WedgeType::Edge, WedgeType::CornerLower, WedgeType::CornerUpper,
    ];
    assert(table@ =~= wedge_types());
    table[value as usize]
}

/// The slots that follow a slice: a slice is impossible when one of them holds the upper half of
/// a corner.
pub open spec fn slots_after_slices() -> Seq<int> {
    seq![0, 6, 12, 18]
}

/// Whether the pattern can be sliced: no slot right after a slice holds an upper corner half.
pub open spec fn shape_allows_slice(wedges: Seq<u8>) -> bool {
    forall|k: int| 0 <= k < 4 ==> wedge_type(#[trigger] wedges[slots_after_slices()[k]])
        != WedgeType::CornerUpper
}

/// Rejects a pattern (given by the wedge in each slot) that cannot be sliced.
pub fn shape_traversal_filter_pattern(wedges: &[u8]) -> (r: FilteringDecision)
    requires
        valid_wedges(wedges@),
    ensures
        r == (if shape_allows_slice(wedges@) {
            FilteringDecision::Accept
        } else {
            FilteringDecision::Reject
        }),
{
    let slots: [usize; 4] = [0, 6, 12, 18];
    assert(slots@ =~= seq![0usize, 6, 12, 18]);
    let mut k: usize = 0;
    while k < 4
        invariant
            0 <= k <= 4,
            valid_wedges(wedges@),
            slots@ == seq![0usize, 6, 12, 18],
            forall|j: int| 0 <= j < k ==> wedge_type(#[trigger] wedges@[slots_after_slices()[j]])
                != WedgeType::CornerUpper,
        decreases 4 - k,
    {
        let value = wedges[slots[k]];
        if wedge_type_lookup(value) == WedgeType::CornerUpper {
            return FilteringDecision::Reject;
        }
        k += 1;
    }
    FilteringDecision::Accept
}

/// A Square-1 pattern: its first orbit is `WEDGES`, a wedge number in each of the 24 slots.
pub open spec fn square1_pattern(pattern: Pattern) -> bool {
    &&& pattern.orbits@.len() >= 1
    &&& pattern.orbits@[0].name@ == "WEDGES"@
    &&& valid_wedges(pattern.orbits@[0].pieces@)
}

/// A check of whether a Square-1 pattern suits a search phase.
pub trait PatternValidityChecker {
    /// Whether the pattern suits the phase.
    spec fn valid_pattern(pattern: Pattern) -> bool;

    /// Whether the pattern suits the phase.
    fn is_valid(pattern: &Pattern) -> (r: bool)
        requires
            square1_pattern(*pattern),
        ensures
            r == Self::valid_pattern(*pattern),
    ;

    /// The check reads only the values that a pattern holds.
    proof fn lemma_valid_pattern_by_values(a: Pattern, b: Pattern)
        requires
            same_pattern_values(a, b),
        ensures
            Self::valid_pattern(a) == Self::valid_pattern(b),
    ;
}

/// The phase 1 validity check: the pattern can be sliced.
pub struct Phase1Checker;

impl PatternValidityChecker for Phase1Checker {
    open spec fn valid_pattern(pattern: Pattern) -> bool {
        shape_allows_slice(pattern.orbits@[0].pieces@)
    }

    fn is_valid(pattern: &Pattern) -> (r: bool) {
        let wedges = pattern.orbits[0].pieces.as_slice();
        shape_traversal_filter_pattern(wedges) == FilteringDecision::Accept
    }

    proof fn lemma_valid_pattern_by_values(a: Pattern, b: Pattern) {
        if a.orbits@.len() == 0 {
            assert(a.orbits@ =~= b.orbits@);
        }
    }
}

/// The slots that phase 2 checks on each side.
pub open spec fn phase2_slots() -> Seq<int> {
    seq![0, 1, 2, 12, 13, 14]
}

/// Whether the shape is a square on each side in the orientation that phase 2 expects: the slots
/// `0`/`12` do not hold an upper corner half, and each checked slot holds the same kind of wedge
/// as the slots 3, 6 and 9 further on.
pub open spec fn phase2_shape_ok(wedges: Seq<u8>) -> bool {
    forall|k: int| #![trigger phase2_slots()[k]] 0 <= k < 6 ==> {
        let slot = phase2_slots()[k];
        &&& !(wedge_type(wedges[slot]) == WedgeType::CornerUpper && (slot == 0 || slot == 12))
        &&& wedge_type(wedges[slot + 3]) == wedge_type(wedges[slot])
        &&& wedge_type(wedges[slot + 6]) == wedge_type(wedges[slot])
        &&& wedge_type(wedges[slot + 9]) == wedge_type(wedges[slot])
    }
}

/// Rejects a pattern (given by the wedge in each slot) whose shape phase 2 cannot handle.
pub fn phase2_filter_derived_pattern(wedges: &[u8]) -> (r: FilteringDecision)
    requires
        valid_wedges(wedges@),
    ensures
        r == (if phase2_shape_ok(wedges@) {
            FilteringDecision::Accept
        } else {
            FilteringDecision::Reject
        }),
{
    let slots: [usize; 6] = [0, 1, 2, 12, 13, 14];
    assert(slots@ =~= seq![0usize, 1, 2, 12, 13, 14]);
    let mut k: usize = 0;
    while k < 6
        invariant
            0 <= k <= 6,
            valid_wedges(wedges@),
            slots@ == seq![0usize, 1, 2, 12, 13, 14],
            forall|j: int| #![trigger phase2_slots()[j]] 0 <= j < k ==> {
                let slot = phase2_slots()[j];
                &&& !(wedge_type(wedges@[slot]) == WedgeType::CornerUpper && (slot == 0 || slot
                    == 12))
                &&& wedge_type(wedges@[slot + 3]) == wedge_type(wedges@[slot])
                &&& wedge_type(wedges@[slot + 6]) == wedge_type(wedges@[slot])
                &&& wedge_type(wedges@[slot + 9]) == wedge_type(wedges@[slot])
            },
        decreases 6 - k,
    {
        let slot = slots[k];
        assert(slot as int == phase2_slots()[k as int]);
        let wedge_type = wedge_type_lookup(wedges[slot]);
        if wedge_type == WedgeType::CornerUpper && (slot == 0 || slot == 12) {
            // We can't slice.
            proof {
                let kk = k as int;
                assert(!phase2_shape_ok(wedges@)) by {
                    assert(phase2_slots()[kk] == slot);
                }
            }
            return FilteringDecision::Reject;
        }
        let offsets: [usize; 3] = [3, 6, 9];
        let mut o: usize = 0;
        while o < 3
            invariant
                0 <= o <= 3,
                0 <= k < 6,
                slot as int == phase2_slots()[k as int],
                slot <= 14,
                valid_wedges(wedges@),
                offsets@ == seq![3usize, 6, 9],
                wedge_type == crate::square1::wedge_type(wedges@[slot as int]),
                forall|p: int| 0 <= p < o ==> crate::square1::wedge_type(
                    #[trigger] wedges@[slot + offsets@[p]],
                ) == wedge_type,
            decreases 3 - o,
        {
            let offset_wedge_type = wedge_type_lookup(wedges[slot + offsets[o]]);
            if wedge_type != offset_wedge_type {
                proof {
                    let kk = k as int;
                    assert(phase2_slots()[kk] == slot);
                    assert(offsets@[o as int] == 3 || offsets@[o as int] == 6 || offsets@[o as int] == 9);
                    assert(!phase2_shape_ok(wedges@));
                }
                return FilteringDecision::Reject;
            }
            o += 1;
        }
        assert(wedges@[slot + offsets@[0]] == wedges@[slot + 3]);
        assert(wedges@[slot + offsets@[1]] == wedges@[slot + 6]);
        assert(wedges@[slot + offsets@[2]] == wedges@[slot + 9]);
        k += 1;
    }
    FilteringDecision::Accept
}

/// The slice cuts each layer into halves, right before slots 0 and 6 of U (0 to 11) and 12 and
/// 18 of D: a slot after a slice is every sixth slot. Phase 2 checks the first three slots of
/// each layer.
pub proof fn lemma_slice_and_phase2_slots()
    ensures
        forall|k: int| 0 <= k < 4 ==> #[trigger] slots_after_slices()[k] == 6 * k,
        forall|k: int| 0 <= k < 6 ==> #[trigger] phase2_slots()[k] == if k < 3 { k } else { k + 9 },
{
    assert forall|k: int| 0 <= k < 4 implies #[trigger] slots_after_slices()[k] == 6 * k by {
        if k == 0 {} else if k == 1 {} else if k == 2 {} else {}
    }
    assert forall|k: int| 0 <= k < 6 implies #[trigger] phase2_slots()[k] == if k < 3 { k } else { k + 9 } by {
        if k == 0 {} else if k == 1 {} else if k == 2 {} else if k == 3 {} else if k == 4 {} else {}
    }
}

/// A solved Square-1 (wedge `i` in slot `i`) can be sliced, and its shape is the square that
/// phase 2 expects.
pub proof fn lemma_solved_shape_passes_filters(wedges: Seq<u8>)
    requires
        wedges.len() == 24,
        forall|i: int| 0 <= i < 24 ==> #[trigger] wedges[i] == i,
    ensures
        shape_allows_slice(wedges),
        phase2_shape_ok(wedges),
{
    assert forall|k: int| 0 <= k < 4 implies wedge_type(#[trigger] wedges[slots_after_slices()[k]])
        != WedgeType::CornerUpper by {
        if k == 0 {
            assert(wedges[0] == 0);
        } else if k == 1 {
            assert(wedges[6] == 6);
        } else if k == 2 {
            assert(wedges[12] == 12);
        } else {
            assert(wedges[18] == 18);
        }
    }
    assert forall|k: int| #![trigger phase2_slots()[k]] 0 <= k < 6 implies {
        let slot = phase2_slots()[k];
        &&& !(wedge_type(wedges[slot]) == WedgeType::CornerUpper && (slot == 0 || slot == 12))
        &&& wedge_type(wedges[slot + 3]) == wedge_type(wedges[slot])
        &&& wedge_type(wedges[slot + 6]) == wedge_type(wedges[slot])
        &&& wedge_type(wedges[slot + 9]) == wedge_type(wedges[slot])
    } by {
        let slot = phase2_slots()[k];
        if k == 0 {} else if k == 1 {} else if k == 2 {} else if k == 3 {} else if k == 4 {} else {}
        assert(wedges[slot] == slot && wedges[slot + 3] == slot + 3 && wedges[slot + 6] == slot + 6
            && wedges[slot + 9] == slot + 9);
    }
}

/// The phase 2 validity check: phase 2 can handle the pattern's shape.
pub struct Phase2Checker;

impl PatternValidityChecker for Phase2Checker {
    open spec fn valid_pattern(pattern: Pattern) -> bool {
        phase2_shape_ok(pattern.orbits@[0].pieces@)
    }

    fn is_valid(pattern: &Pattern) -> (r: bool) {
        let wedges = pattern.orbits[0].pieces.as_slice();
        phase2_filter_derived_pattern(wedges) == FilteringDecision::Accept
    }

    proof fn lemma_valid_pattern_by_values(a: Pattern, b: Pattern) {
        if a.orbits@.len() == 0 {
            assert(a.orbits@ =~= b.orbits@);
        }
    }
}

/// Keeps the wedges that are not upper corner halves.
pub open spec fn keep_bandaged(v: u8) -> Option<u8> {
    if wedge_type(v) != WedgeType::CornerUpper {
        Some(v)
    } else {
        None
    }
}

/// The wedges in slot order, leaving out upper corner halves (each corner counted once).
pub open spec fn bandaged_wedges(wedges: Seq<u8>) -> Seq<u8> {
    wedges.filter_map(|v: u8| keep_bandaged(v))
}

/// The permutation parity of the wedges in slot order, counting each corner once (by its lower
/// half).
pub fn bandaged_wedge_parity(wedges: &[u8]) -> (r: BasicParity)
    requires
        valid_wedges(wedges@),
    ensures
        r == permutation_parity(bandaged_wedges(wedges@)),
{
    let mut kept: Vec<u8> = Vec::new();
    let mut slot: usize = 0;
    while slot < 24
        invariant
            0 <= slot <= 24,
            valid_wedges(wedges@),
            kept@ == wedges@.take(slot as int).filter_map(|v: u8| keep_bandaged(v)),
        decreases 24 - slot,
    {
        proof {
            wedges@.lemma_filter_map_take_succ(|v: u8| keep_bandaged(v), slot as int);
        }
        let value = wedges[slot];
        if wedge_type_lookup(value) != WedgeType::CornerUpper {
            kept.push(value);
        }
        slot += 1;
    }
    assert(wedges@.take(24) =~= wedges@);
    basic_parity(kept.as_slice())
}

/// The same parity as [bandaged_wedge_parity], under the name that phase 1 uses.
pub fn wedge_parity(wedges: &[u8]) -> (r: BasicParity)
    requires
        valid_wedges(wedges@),
    ensures
        r == permutation_parity(bandaged_wedges(wedges@)),
{
    bandaged_wedge_parity(wedges)
}

} // verus!
