use vstd::prelude::*;

use crate::pattern::{
    mask, mask_passes, orbit_wf, pattern_wf, pieces_in_range, same_shape, Pattern,
};
use crate::square1::{square1_pattern, valid_wedges, PatternValidityChecker};
use crate::square1_lookup::{
    build_phase1_lookup_table, build_phase_lookup_table, lemma_uniform_mods_keep_masks_passing,
    lookup_table_inputs, maskable, phase1_lookup_table_built, phase_lookup_table_built,
    reached_by_moves, search_pattern_ok, uniform_mods, PhaseLookupTable, Square1Phase1LookupTable,
};
use crate::strings::str_equals;
use crate::transformation::{transformation_fits, Transformation};

verus! {

/// Whether every orbit of the pattern is well formed.
fn check_pattern_wf(p: &Pattern) -> (r: bool)
    ensures
        r == pattern_wf(*p),
{
    let mut k: usize = 0;
    while k < p.orbits.len()
        invariant
            0 <= k <= p.orbits@.len(),
            forall|kk: int| 0 <= kk < k ==> orbit_wf(#[trigger] p.orbits@[kk]),
        decreases p.orbits@.len() - k,
    {
        let o = &p.orbits[k];
        if o.orientations.len() != o.pieces.len() || o.orientation_mods.len() != o.pieces.len()
            || o.num_orientations < 1 {
            assert(!orbit_wf(p.orbits@[k as int]));
            return false;
        }
        k += 1;
    }
    true
}

/// Whether two patterns have the same orbits, sizes and orientation counts.
fn check_same_shape(a: &Pattern, b: &Pattern) -> (r: bool)
    ensures
        r == same_shape(*a, *b),
{
    if a.orbits.len() != b.orbits.len() {
        return false;
    }
    let mut k: usize = 0;
    while k < a.orbits.len()
        invariant
            0 <= k <= a.orbits@.len(),
            a.orbits@.len() == b.orbits@.len(),
            forall|kk: int|
                0 <= kk < k ==> (#[trigger] a.orbits@[kk]).pieces@.len() == b.orbits@[kk].pieces@.len()
                    && a.orbits@[kk].num_orientations == b.orbits@[kk].num_orientations,
        decreases a.orbits@.len() - k,
    {
        if a.orbits[k].pieces.len() != b.orbits[k].pieces.len() || a.orbits[k].num_orientations
            != b.orbits[k].num_orientations {
            return false;
        }
        k += 1;
    }
    true
}

/// Whether every piece of the pattern names a position of its orbit.
fn check_pieces_in_range(p: &Pattern) -> (r: bool)
    ensures
        r == pieces_in_range(*p),
{
    let mut k: usize = 0;
    while k < p.orbits.len()
        invariant
            0 <= k <= p.orbits@.len(),
            forall|kk: int, i: int|
                0 <= kk < k && 0 <= i < p.orbits@[kk].pieces@.len() ==> (
                #[trigger] p.orbits@[kk].pieces@[i]) < p.orbits@[kk].pieces@.len(),
        decreases p.orbits@.len() - k,
    {
        let pieces = &p.orbits[k].pieces;
        let mut i: usize = 0;
        while i < pieces.len()
            invariant
                0 <= i <= pieces@.len(),
                0 <= k < p.orbits@.len(),
                *pieces == p.orbits@[k as int].pieces,
                forall|kk: int, ii: int|
                    0 <= kk < k && 0 <= ii < p.orbits@[kk].pieces@.len() ==> (
                    #[trigger] p.orbits@[kk].pieces@[ii]) < p.orbits@[kk].pieces@.len(),
                forall|ii: int| 0 <= ii < i ==> #[trigger] pieces@[ii] < pieces@.len(),
            decreases pieces@.len() - i,
        {
            if pieces[i] as usize >= pieces.len() {
                return false;
            }
            i += 1;
        }
        k += 1;
    }
    true
}

/// Whether the pattern is a Square-1 pattern: `WEDGES` first, with 24 wedge numbers below 24.
fn check_square1_pattern(p: &Pattern) -> (r: bool)
    ensures
        r == square1_pattern(*p),
{
    if p.orbits.len() < 1 || !str_equals(p.orbits[0].name.as_str(), "WEDGES") {
        return false;
    }
    let wedges = &p.orbits[0].pieces;
    if wedges.len() != 24 {
        return false;
    }
    let mut i: usize = 0;
    while i < 24
        invariant
            0 <= i <= 24,
            wedges@.len() == 24,
            p.orbits@.len() >= 1,
            *wedges == p.orbits@[0].pieces,
            forall|ii: int| 0 <= ii < i ==> #[trigger] wedges@[ii] < 24,
        decreases 24 - i,
    {
        if wedges[i] >= 24 {
            assert(p.orbits@[0].pieces@[i as int] >= 24);
            assert(!valid_wedges(p.orbits@[0].pieces@));
            return false;
        }
        i += 1;
    }
    true
}

/// Whether each orbit of the pattern has one orientation modulus at all its positions.
fn check_uniform_mods(p: &Pattern) -> (r: bool)
    requires
        pattern_wf(*p),
    ensures
        r == uniform_mods(*p),
{
    let mut k: usize = 0;
    while k < p.orbits.len()
        invariant
            0 <= k <= p.orbits@.len(),
            pattern_wf(*p),
            forall|kk: int, i: int, j: int|
                0 <= kk < k && 0 <= i < p.orbits@[kk].pieces@.len() && 0 <= j
                    < p.orbits@[kk].pieces@.len() ==> #[trigger] p.orbits@[kk].orientation_mods@[i]
                    == #[trigger] p.orbits@[kk].orientation_mods@[j],
        decreases p.orbits@.len() - k,
    {
        let mods = &p.orbits[k].orientation_mods;
        assert(orbit_wf(p.orbits@[k as int]));
        let n = mods.len();
        let mut i: usize = 1;
        while i < n
            invariant
                1 <= i <= n || n == 0,
                n == mods@.len(),
                0 <= k < p.orbits@.len(),
                n == p.orbits@[k as int].pieces@.len(),
                *mods == p.orbits@[k as int].orientation_mods,
                forall|ii: int| 0 <= ii < i && ii < n ==> #[trigger] mods@[ii] == mods@[0],
            decreases n - i,
        {
            if mods[i] != mods[0] {
                assert(p.orbits@[k as int].orientation_mods@[i as int] != p.orbits@[k as int].orientation_mods@[0]);
                return false;
            }
            i += 1;
        }
        proof {
            assert forall|kk: int, ii: int, jj: int|
                0 <= kk < k + 1 && 0 <= ii < p.orbits@[kk].pieces@.len() && 0 <= jj
                    < p.orbits@[kk].pieces@.len() implies #[trigger] p.orbits@[kk].orientation_mods@[ii]
                == #[trigger] p.orbits@[kk].orientation_mods@[jj] by {
                if kk == k {
                    assert(orbit_wf(p.orbits@[kk]));
                    assert(mods@[ii] == mods@[0]);
                    assert(mods@[jj] == mods@[0]);
                }
            }
        }
        k += 1;
    }
    true
}

/// Whether the transformation can act on the pattern.
fn check_transformation_fits(p: &Pattern, t: &Transformation) -> (r: bool)
    ensures
        r == transformation_fits(*p, *t),
{
    if t.orbits.len() != p.orbits.len() {
        return false;
    }
    let mut k: usize = 0;
    while k < p.orbits.len()
        invariant
            0 <= k <= p.orbits@.len(),
            t.orbits@.len() == p.orbits@.len(),
            forall|kk: int|
                0 <= kk < k ==> {
                    let o = #[trigger] p.orbits@[kk];
                    let to = t.orbits@[kk];
                    &&& to.permutation@.len() == o.pieces@.len()
                    &&& to.orientation_delta@.len() == o.pieces@.len()
                    &&& forall|i: int| 0 <= i < o.pieces@.len() ==> #[trigger] to.permutation@[i] < o.pieces@.len()
                },
        decreases p.orbits@.len() - k,
    {
        let n = p.orbits[k].pieces.len();
        let permutation = &t.orbits[k].permutation;
        if permutation.len() != n || t.orbits[k].orientation_delta.len() != n {
            return false;
        }
        let mut i: usize = 0;
        while i < n
            invariant
                0 <= i <= n,
                n == permutation@.len(),
                0 <= k < p.orbits@.len(),
                t.orbits@.len() == p.orbits@.len(),
                n == p.orbits@[k as int].pieces@.len(),
                *permutation == t.orbits@[k as int].permutation,
                forall|ii: int| 0 <= ii < i ==> #[trigger] permutation@[ii] < n,
            decreases n - i,
        {
            if permutation[i] as usize >= n {
                assert(!(t.orbits@[k as int].permutation@[i as int] < p.orbits@[k as int].pieces@.len()));
                return false;
            }
            i += 1;
        }
        k += 1;
    }
    true
}

/// The inputs that the table builders accept when they are tested here: a maskable Square-1
/// start pattern with one orientation modulus per orbit, and moves that act on it.
pub open spec fn checked_table_inputs(start: Pattern, moves: Seq<Transformation>, phase_mask: Pattern) -> bool {
    &&& search_pattern_ok(start, start, phase_mask)
    &&& uniform_mods(start)
    &&& forall|m: int| 0 <= m < moves.len() ==> transformation_fits(start, #[trigger] moves[m])
}

/// Whether the start pattern, moves and mask are checked table inputs; those are inputs that the
/// table builders accept.
pub fn check_table_inputs(start: &Pattern, moves: &Vec<Transformation>, phase_mask: &Pattern) -> (r: bool)
    ensures
        r == checked_table_inputs(*start, moves@, *phase_mask),
        r ==> lookup_table_inputs(*start, moves@, *phase_mask),
{
    if !(check_pattern_wf(start) && check_pattern_wf(phase_mask) && check_same_shape(start, phase_mask)
        && check_pieces_in_range(start) && check_square1_pattern(start) && check_square1_pattern(
        phase_mask,
    )) {
        return false;
    }
    let passes = mask(start, phase_mask).is_ok();
    if !passes || !check_uniform_mods(start) {
        return false;
    }
    let mut m: usize = 0;
    while m < moves.len()
        invariant
            0 <= m <= moves@.len(),
            forall|mm: int| 0 <= mm < m ==> transformation_fits(*start, #[trigger] moves@[mm]),
        decreases moves@.len() - m,
    {
        if !check_transformation_fits(start, &moves[m]) {
            return false;
        }
        m += 1;
    }
    proof {
        assert(maskable(*start, *phase_mask));
        assert forall|p: Pattern, d: nat| #[trigger] reached_by_moves(*start, moves@, p, d) implies mask_passes(
            p,
            *phase_mask,
        ) by {
            lemma_uniform_mods_keep_masks_passing(*start, moves@, *phase_mask, p, d);
        }
    }
    true
}

/// The lookup table of a search phase (see `build_phase_lookup_table`), or `None` when the
/// inputs are not checked table inputs.
pub fn try_build_phase_lookup_table<C: PatternValidityChecker>(
    start_pattern: &Pattern,
    moves: &Vec<Transformation>,
    phase_mask: &Pattern,
) -> (r: Option<PhaseLookupTable>)
    ensures
        r is Some <==> checked_table_inputs(*start_pattern, moves@, *phase_mask),
        r matches Some(t) ==> phase_lookup_table_built::<C>(*start_pattern, moves@, *phase_mask, t),
{
    if check_table_inputs(start_pattern, moves, phase_mask) {
        Some(build_phase_lookup_table::<C>(start_pattern, moves, phase_mask))
    } else {
        None
    }
}

/// The Square-1 phase 1 lookup table (see `build_phase1_lookup_table`), or `None` when the
/// inputs are not checked table inputs.
pub fn try_build_phase1_lookup_table(
    start_pattern: &Pattern,
    moves: &Vec<Transformation>,
    phase_mask: &Pattern,
) -> (r: Option<Square1Phase1LookupTable>)
    ensures
        r is Some <==> checked_table_inputs(*start_pattern, moves@, *phase_mask),
        r matches Some(t) ==> phase1_lookup_table_built(*start_pattern, moves@, *phase_mask, t),
{
    if check_table_inputs(start_pattern, moves, phase_mask) {
        Some(build_phase1_lookup_table(start_pattern, moves, phase_mask))
    } else {
        None
    }
}

} // verus!
