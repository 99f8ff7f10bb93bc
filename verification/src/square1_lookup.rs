use vstd::prelude::*;

use std::sync::Arc;

use crate::indexed_vec::{IndexKey, IndexedVec};
use crate::parity::{permutation_parity, BasicParity};
use crate::pattern::{
    clone_pattern, effective_mod, mask, mask_check, mask_passes, masked_orbit, masked_pattern,
    orbit_wf, pattern_wf, patterns_equal, pieces_in_range, same_orbit_values, same_pattern_values,
    same_shape, Pattern,
};
use crate::transformation::{
    applied_orbit, applied_pattern, apply_transformation, transformation_fits, Transformation,
};
use crate::square1::{
    bandaged_wedge_parity, bandaged_wedges, phase2_filter_derived_pattern, phase2_shape_ok,
    shape_allows_slice, shape_traversal_filter_pattern, square1_pattern, valid_wedges,
    wedge_parity, FilteringDecision, PatternValidityChecker, Phase1Checker,
};
use crate::square1_phase2::FlatMoveIndex;

verus! {

/// A Square-1 pattern and a phase mask that can be applied to it.
pub open spec fn maskable(full_pattern: Pattern, phase_mask: Pattern) -> bool {
    &&& pattern_wf(full_pattern)
    &&& pattern_wf(phase_mask)
    &&& same_shape(full_pattern, phase_mask)
    &&& pieces_in_range(full_pattern)
    &&& mask_passes(full_pattern, phase_mask)
    &&& square1_pattern(full_pattern)
    &&& square1_pattern(phase_mask)
}

/// Masks a Square-1 pattern with a phase mask; the result is a Square-1 pattern again.
fn mask_square1(full_pattern: &Pattern, phase_mask: &Pattern) -> (r: Pattern)
    requires
        maskable(*full_pattern, *phase_mask),
    ensures
        masked_pattern(*full_pattern, *phase_mask, r),
        square1_pattern(r),
{
    match mask(full_pattern, phase_mask) {
        Ok(masked) => {
            proof {
                let s = full_pattern.orbits@[0];
                let m = phase_mask.orbits@[0];
                let o = masked.orbits@[0];
                assert(orbit_wf(s));
                assert forall|i: int| 0 <= i < o.pieces@.len() implies #[trigger] o.pieces@[i] < 24 by {
                    assert(o.pieces@[i] == m.pieces@[s.pieces@[i] as int]);
                    assert(s.pieces@[i] < s.pieces@.len());
                }
            }
            masked
        },
        Err(_) => {
            assert(false);
            Pattern { orbits: Vec::new() }
        },
    }
}

/// A lookup pattern of a phase: the pattern seen through the phase mask, with the parity of
/// the full pattern's wedges.
pub struct LookupPattern {
    pub masked_pattern: Pattern,
    pub parity: BasicParity,
}

impl LookupPattern {
    /// The lookup pattern of a full pattern, or `None` when the masked pattern does not suit
    /// the phase.
    pub fn try_new<C: PatternValidityChecker>(full_pattern: &Pattern, phase_mask: &Pattern) -> (r:
        Option<Self>)
        requires
            maskable(*full_pattern, *phase_mask),
        ensures
            r matches Some(lp) ==> masked_pattern(*full_pattern, *phase_mask, lp.masked_pattern)
                && C::valid_pattern(lp.masked_pattern) && lp.parity == permutation_parity(
                bandaged_wedges(full_pattern.orbits@[0].pieces@),
            ),
            r is None ==> exists|m: Pattern|
                masked_pattern(*full_pattern, *phase_mask, m) && !C::valid_pattern(m),
    {
        let masked = mask_square1(full_pattern, phase_mask);
        if !C::is_valid(&masked) {
            return None;
        }
        let parity = wedge_parity(full_pattern.orbits[0].pieces.as_slice());
        Some(LookupPattern { masked_pattern: masked, parity })
    }
}

/// The phase 1 coordinates of a Square-1 pattern: its shape seen through the phase mask, with
/// the parity of its wedges.
pub struct Square1Phase1Coordinates {
    pub masked_pattern: Pattern,
    pub parity: BasicParity,
}

impl Square1Phase1Coordinates {
    /// The phase 1 coordinates of a full pattern, or `None` when its masked shape cannot be
    /// sliced.
    pub fn try_new(full_pattern: &Pattern, phase_mask: &Pattern) -> (r: Option<Self>)
        requires
            maskable(*full_pattern, *phase_mask),
        ensures
            r matches Some(c) ==> masked_pattern(*full_pattern, *phase_mask, c.masked_pattern)
                && shape_allows_slice(c.masked_pattern.orbits@[0].pieces@) && c.parity
                == permutation_parity(bandaged_wedges(full_pattern.orbits@[0].pieces@)),
            r is None ==> exists|m: Pattern|
                masked_pattern(*full_pattern, *phase_mask, m) && !shape_allows_slice(
                    m.orbits@[0].pieces@,
                ),
    {
        let masked = mask_square1(full_pattern, phase_mask);
        if !Phase1Checker::is_valid(&masked) {
            return None;
        }
        let parity = wedge_parity(full_pattern.orbits[0].pieces.as_slice());
        Some(Square1Phase1Coordinates { masked_pattern: masked, parity })
    }
}

/// The compound coordinate of the Square-1 phase 1 search: the pattern seen through the
/// square-square shape mask, with the parity of its wedges.
pub struct Square1Phase1CompoundSemanticCoordinate {
    pub masked_pattern: Pattern,
    pub parity: BasicParity,
}

impl Square1Phase1CompoundSemanticCoordinate {
    /// The coordinate of a full pattern under the square-square shape mask, or `None` when its
    /// masked shape cannot be sliced.
    pub fn try_new(full_pattern: &Pattern, square_square_shape: &Pattern) -> (r: Option<Self>)
        requires
            maskable(*full_pattern, *square_square_shape),
        ensures
            r matches Some(c) ==> masked_pattern(*full_pattern, *square_square_shape, c.masked_pattern)
                && shape_allows_slice(c.masked_pattern.orbits@[0].pieces@) && c.parity
                == permutation_parity(bandaged_wedges(full_pattern.orbits@[0].pieces@)),
            r is None ==> exists|m: Pattern|
                masked_pattern(*full_pattern, *square_square_shape, m) && !shape_allows_slice(
                    m.orbits@[0].pieces@,
                ),
    {
        let masked = mask_square1(full_pattern, square_square_shape);
        if !Phase1Checker::is_valid(&masked) {
            return None;
        }
        let parity = wedge_parity(full_pattern.orbits[0].pieces.as_slice());
        Some(Square1Phase1CompoundSemanticCoordinate { masked_pattern: masked, parity })
    }
}

/// The pattern of the Square-1 phase 1 search: the masked shape and the wedge parity.
pub struct Square1Phase1Pattern {
    pub masked_shape_pattern: Pattern,
    pub parity: BasicParity,
}

/// Derives phase 1 patterns from full Square-1 patterns.
pub struct Square1Phase1PatternDeriver {}

impl Square1Phase1PatternDeriver {
    /// The phase 1 pattern of a full pattern, or `None` when its masked shape cannot be sliced.
    pub fn derive_pattern(&self, source_puzzle_pattern: &Pattern, phase_mask: &Pattern) -> (r:
        Option<Square1Phase1Pattern>)
        requires
            maskable(*source_puzzle_pattern, *phase_mask),
        ensures
            r matches Some(p) ==> masked_pattern(
                *source_puzzle_pattern,
                *phase_mask,
                p.masked_shape_pattern,
            ) && shape_allows_slice(p.masked_shape_pattern.orbits@[0].pieces@) && p.parity
                == permutation_parity(bandaged_wedges(source_puzzle_pattern.orbits@[0].pieces@)),
            r is None ==> exists|m: Pattern|
                masked_pattern(*source_puzzle_pattern, *phase_mask, m) && !shape_allows_slice(
                    m.orbits@[0].pieces@,
                ),
    {
        let masked_pattern = mask_square1(source_puzzle_pattern, phase_mask);
        if shape_traversal_filter_pattern(masked_pattern.orbits[0].pieces.as_slice())
            == FilteringDecision::Reject {
            return None;
        }
        let parity = bandaged_wedge_parity(source_puzzle_pattern.orbits[0].pieces.as_slice());
        Some(Square1Phase1Pattern { masked_shape_pattern: masked_pattern, parity })
    }
}

/// The shape pattern of the Square-1 phase 2 search.
pub struct Phase2ShapePattern {
    pub shape: Pattern,
}

/// Derives phase 2 shape patterns from full Square-1 patterns.
pub struct Phase2ShapePatternDeriver {}

impl Phase2ShapePatternDeriver {
    /// The phase 2 shape pattern of a full pattern, or `None` when phase 2 cannot handle its
    /// shape.
    pub fn derive_pattern(&self, source_puzzle_pattern: &Pattern, phase_mask: &Pattern) -> (r:
        Option<Phase2ShapePattern>)
        requires
            maskable(*source_puzzle_pattern, *phase_mask),
        ensures
            r is Some <==> phase2_shape_ok(source_puzzle_pattern.orbits@[0].pieces@),
            r matches Some(p) ==> masked_pattern(*source_puzzle_pattern, *phase_mask, p.shape),
    {
        if phase2_filter_derived_pattern(source_puzzle_pattern.orbits[0].pieces.as_slice())
            == FilteringDecision::Reject {
            return None;
        }
        let masked_pattern = mask_square1(source_puzzle_pattern, phase_mask);
        Some(Phase2ShapePattern { shape: masked_pattern })
    }
}

/// The index of a pattern in a phase lookup table.
#[derive(Debug, Clone, Copy, PartialEq, Eq, Structural, Hash, Default)]
pub struct PhasePatternIndex(pub usize);

impl IndexKey for PhasePatternIndex {
    open spec fn key_index(&self) -> int {
        self.0 as int
    }

    fn from_usize(i: usize) -> (r: Self) {
        PhasePatternIndex(i)
    }

    fn to_usize(&self) -> (r: usize) {
        self.0
    }
}

/// The lookup table of a search phase: its lookup patterns and, for each pattern and move,
/// the pattern that the move leads to (`None` where the result does not suit the phase).
pub struct PhaseLookupTable {
    pub index_to_lookup_pattern: IndexedVec<PhasePatternIndex, LookupPattern>,
    pub move_application_table: IndexedVec<
        PhasePatternIndex,
        IndexedVec<FlatMoveIndex, Option<PhasePatternIndex>>,
    >,
}

impl PhaseLookupTable {
    /// The pattern that the move leads to from the given pattern.
    pub fn apply_move(
        &self,
        phase_pattern_index: PhasePatternIndex,
        flat_move_index: FlatMoveIndex,
    ) -> (r: Option<PhasePatternIndex>)
        requires
            phase_pattern_index.0 < self.move_application_table@.len(),
            flat_move_index.0 < self.move_application_table@[phase_pattern_index.0 as int]@.len(),
        ensures
            r == self.move_application_table@[phase_pattern_index.0 as int]@[flat_move_index.0 as int],
    {
        *self.move_application_table.at(phase_pattern_index).at(flat_move_index)
    }

    /// The index of the table's lookup pattern with the same values as `lookup_pattern`, or
    /// `None` when the table holds none.
    pub fn lookup_pattern_to_index(&self, lookup_pattern: &LookupPattern) -> (r: Option<PhasePatternIndex>)
        ensures
            r matches Some(i) ==> i.0 < self.index_to_lookup_pattern@.len() && same_lookup(
                self.index_to_lookup_pattern@[i.0 as int],
                *lookup_pattern,
            ),
            r is None ==> forall|e: int|
                0 <= e < self.index_to_lookup_pattern@.len() ==> !same_lookup(
                    #[trigger] self.index_to_lookup_pattern@[e],
                    *lookup_pattern,
                ),
    {
        match find_lookup(&self.index_to_lookup_pattern, lookup_pattern) {
            Some(e) => Some(PhasePatternIndex(e)),
            None => None,
        }
    }
}

/// Every orbit of the pattern has one orientation modulus at all its positions.
pub open spec fn uniform_mods(p: Pattern) -> bool {
    forall|k: int, i: int, j: int|
        0 <= k < p.orbits@.len() && 0 <= i < p.orbits@[k].pieces@.len() && 0 <= j
            < p.orbits@[k].pieces@.len() ==> #[trigger] p.orbits@[k].orientation_mods@[i]
            == #[trigger] p.orbits@[k].orientation_mods@[j]
}

/// `lp` is the lookup pattern of the full pattern `full` under the phase mask.
pub open spec fn lookup_matches(full: Pattern, phase_mask: Pattern, lp: LookupPattern) -> bool {
    &&& masked_pattern(full, phase_mask, lp.masked_pattern)
    &&& lp.parity == permutation_parity(bandaged_wedges(full.orbits@[0].pieces@))
}

/// The full pattern has no lookup pattern in the phase: its masked pattern does not suit it.
pub open spec fn lookup_rejected<C: PatternValidityChecker>(full: Pattern, phase_mask: Pattern) -> bool {
    exists|m: Pattern| masked_pattern(full, phase_mask, m) && !C::valid_pattern(m)
}

/// Two lookup patterns that hold the same values.
pub open spec fn same_lookup(a: LookupPattern, b: LookupPattern) -> bool {
    &&& same_pattern_values(a.masked_pattern, b.masked_pattern)
    &&& a.parity == b.parity
}

/// What a table cell says of the pattern `r` that a move leads to: `None` when the phase
/// rejects `r`, else the index of the lookup pattern of `r`.
pub open spec fn move_result<C: PatternValidityChecker, K: IndexKey>(
    r: Pattern,
    phase_mask: Pattern,
    entries: Seq<LookupPattern>,
    cell: Option<K>,
) -> bool {
    match cell {
        None => lookup_rejected::<C>(r, phase_mask),
        Some(e) => 0 <= e.key_index() < entries.len() && lookup_matches(
            r,
            phase_mask,
            entries[e.key_index()],
        ),
    }
}

/// The cell is right for every pattern that the transformation makes of `rep`.
pub open spec fn move_cell_ok<C: PatternValidityChecker, K: IndexKey>(
    rep: Pattern,
    t: Transformation,
    phase_mask: Pattern,
    entries: Seq<LookupPattern>,
    cell: Option<K>,
) -> bool {
    forall|r: Pattern|
        #[trigger] applied_pattern(rep, t, r) ==> move_result::<C, K>(r, phase_mask, entries, cell)
}

/// A pattern that the table's search may meet: maskable, and shaped as the start pattern.
pub open spec fn search_pattern_ok(p: Pattern, start: Pattern, phase_mask: Pattern) -> bool {
    &&& maskable(p, phase_mask)
    &&& same_shape(p, start)
}

/// What a phase lookup table is built from: a start pattern that the search can use, moves that
/// act on it, and a mask that every pattern the moves make of it passes.
pub open spec fn lookup_table_inputs(start: Pattern, moves: Seq<Transformation>, phase_mask: Pattern) -> bool {
    &&& search_pattern_ok(start, start, phase_mask)
    &&& forall|m: int| 0 <= m < moves.len() ==> transformation_fits(start, #[trigger] moves[m])
    &&& forall|p: Pattern, d: nat| #[trigger] reached_by_moves(start, moves, p, d) ==> mask_passes(p, phase_mask)
}

/// The table: each entry is the lookup pattern of its representative `reps[j]` (the first one
/// being the start pattern), and each cell says what its move makes of the representative.
pub open spec fn lookup_table_built<C: PatternValidityChecker, K: IndexKey>(
    start: Pattern,
    moves: Seq<Transformation>,
    phase_mask: Pattern,
    entries: Seq<LookupPattern>,
    rows: Seq<IndexedVec<FlatMoveIndex, Option<K>>>,
    reps: Seq<Pattern>,
) -> bool {
    &&& reps.len() == entries.len()
    &&& rows.len() == entries.len()
    &&& entries.len() > 0 ==> same_pattern_values(reps[0], start)
    &&& forall|j: int|
        0 <= j < entries.len() ==> lookup_matches(reps[j], phase_mask, #[trigger] entries[j])
            && C::valid_pattern(entries[j].masked_pattern)
    &&& forall|j: int| 0 <= j < rows.len() ==> (#[trigger] rows[j])@.len() == moves.len()
    &&& forall|j: int, m: int|
        0 <= j < rows.len() && 0 <= m < moves.len() ==> move_cell_ok::<C, K>(
            reps[j],
            moves[m],
            phase_mask,
            entries,
            #[trigger] rows[j]@[m],
        )
}

/// A pattern with the same values as a maskable one is maskable.
proof fn lemma_search_pattern_ok_by_values(p: Pattern, q: Pattern, start: Pattern, phase_mask: Pattern)
    requires
        search_pattern_ok(p, start, phase_mask),
        same_pattern_values(p, q),
    ensures
        search_pattern_ok(q, start, phase_mask),
{
    assert forall|k: int| 0 <= k < q.orbits@.len() implies orbit_wf(#[trigger] q.orbits@[k]) by {
        assert(orbit_wf(p.orbits@[k]));
        assert(same_orbit_values(p.orbits@[k], q.orbits@[k]));
    }
    assert forall|k: int, i: int|
        0 <= k < q.orbits@.len() && 0 <= i < q.orbits@[k].pieces@.len() implies (
        #[trigger] q.orbits@[k].pieces@[i]) < q.orbits@[k].pieces@.len() by {
        assert(same_orbit_values(p.orbits@[k], q.orbits@[k]));
        assert(p.orbits@[k].pieces@[i] < p.orbits@[k].pieces@.len());
    }
    assert forall|kk: int, ii: int|
        0 <= kk < q.orbits@.len() && 0 <= ii < q.orbits@[kk].pieces@.len() implies #[trigger] mask_check(
            q.orbits@[kk],
            phase_mask.orbits@[kk],
            ii,
        ) == 0 by {
        assert(same_orbit_values(p.orbits@[kk], q.orbits@[kk]));
        assert(mask_check(p.orbits@[kk], phase_mask.orbits@[kk], ii) == 0);
    }
    assert(same_orbit_values(p.orbits@[0], q.orbits@[0]));
    assert forall|k: int| 0 <= k < q.orbits@.len() implies {
        &&& (#[trigger] q.orbits@[k]).pieces@.len() == phase_mask.orbits@[k].pieces@.len()
        &&& q.orbits@[k].num_orientations == phase_mask.orbits@[k].num_orientations
        &&& q.orbits@[k].pieces@.len() == start.orbits@[k].pieces@.len()
        &&& q.orbits@[k].num_orientations == start.orbits@[k].num_orientations
    } by {
        assert(same_orbit_values(p.orbits@[k], q.orbits@[k]));
    }
}

/// A move keeps a pattern usable by the search: it permutes pieces and moduli within orbits.
proof fn lemma_move_keeps_search_pattern_ok(
    p: Pattern,
    t: Transformation,
    r: Pattern,
    start: Pattern,
    phase_mask: Pattern,
)
    requires
        search_pattern_ok(p, start, phase_mask),
        transformation_fits(start, t),
        applied_pattern(p, t, r),
        mask_passes(r, phase_mask),
    ensures
        search_pattern_ok(r, start, phase_mask),
{
    assert forall|k: int| 0 <= k < r.orbits@.len() implies orbit_wf(#[trigger] r.orbits@[k]) by {
        assert(orbit_wf(p.orbits@[k]));
        assert(applied_orbit(p.orbits@[k], t.orbits@[k], r.orbits@[k]));
    }
    assert forall|k: int, i: int|
        0 <= k < r.orbits@.len() && 0 <= i < r.orbits@[k].pieces@.len() implies (
        #[trigger] r.orbits@[k].pieces@[i]) < r.orbits@[k].pieces@.len() by {
        assert(applied_orbit(p.orbits@[k], t.orbits@[k], r.orbits@[k]));
        let from = t.orbits@[k].permutation@[i] as int;
        assert(same_shape(p, start));
        assert(from < p.orbits@[k].pieces@.len());
        assert(p.orbits@[k].pieces@[from] < p.orbits@[k].pieces@.len());
    }
    assert(applied_orbit(p.orbits@[0], t.orbits@[0], r.orbits@[0]));
    assert forall|i: int| 0 <= i < r.orbits@[0].pieces@.len() implies #[trigger] r.orbits@[0].pieces@[i] < 24 by {
        let from = t.orbits@[0].permutation@[i] as int;
        assert(same_shape(p, start));
        assert(p.orbits@[0].pieces@[from] < 24);
    }
    assert forall|k: int| 0 <= k < r.orbits@.len() implies {
        &&& (#[trigger] r.orbits@[k]).pieces@.len() == phase_mask.orbits@[k].pieces@.len()
        &&& r.orbits@[k].num_orientations == phase_mask.orbits@[k].num_orientations
    } by {
        assert(applied_orbit(p.orbits@[k], t.orbits@[k], r.orbits@[k]));
    }
    assert forall|k: int| 0 <= k < r.orbits@.len() implies {
        &&& (#[trigger] r.orbits@[k]).pieces@.len() == start.orbits@[k].pieces@.len()
        &&& r.orbits@[k].num_orientations == start.orbits@[k].num_orientations
    } by {
        assert(applied_orbit(p.orbits@[k], t.orbits@[k], r.orbits@[k]));
    }
}

/// A move keeps the orientation moduli of each orbit uniform, and so keeps the mask passing.
proof fn lemma_move_keeps_uniform_mods(
    p: Pattern,
    t: Transformation,
    r: Pattern,
    start: Pattern,
    phase_mask: Pattern,
)
    requires
        search_pattern_ok(p, start, phase_mask),
        uniform_mods(p),
        transformation_fits(start, t),
        applied_pattern(p, t, r),
    ensures
        uniform_mods(r),
        mask_passes(r, phase_mask),
{
    assert forall|k: int, i: int, j: int|
        0 <= k < r.orbits@.len() && 0 <= i < r.orbits@[k].pieces@.len() && 0 <= j
            < r.orbits@[k].pieces@.len() implies #[trigger] r.orbits@[k].orientation_mods@[i]
        == #[trigger] r.orbits@[k].orientation_mods@[j] by {
        assert(applied_orbit(p.orbits@[k], t.orbits@[k], r.orbits@[k]));
        let fi = t.orbits@[k].permutation@[i] as int;
        let fj = t.orbits@[k].permutation@[j] as int;
        assert(same_shape(p, start));
        assert(r.orbits@[k].pieces@[i] == p.orbits@[k].pieces@[fi]);
        assert(r.orbits@[k].pieces@[j] == p.orbits@[k].pieces@[fj]);
        assert(p.orbits@[k].orientation_mods@[fi] == p.orbits@[k].orientation_mods@[fj]);
    }
    assert forall|kk: int, ii: int|
        0 <= kk < r.orbits@.len() && 0 <= ii < r.orbits@[kk].pieces@.len() implies #[trigger] mask_check(
            r.orbits@[kk],
            phase_mask.orbits@[kk],
            ii,
        ) == 0 by {
        assert(applied_orbit(p.orbits@[kk], t.orbits@[kk], r.orbits@[kk]));
        let from = t.orbits@[kk].permutation@[ii] as int;
        assert(same_shape(p, start));
        assert(r.orbits@[kk].pieces@[ii] == p.orbits@[kk].pieces@[from]);
        assert(p.orbits@[kk].orientation_mods@[from] == p.orbits@[kk].orientation_mods@[ii]);
        assert(mask_check(p.orbits@[kk], phase_mask.orbits@[kk], ii) == 0);
    }
}

/// Uniform orientation moduli read only the values of a pattern.
proof fn lemma_uniform_mods_by_values(p: Pattern, q: Pattern)
    requires
        uniform_mods(p),
        same_pattern_values(p, q),
    ensures
        uniform_mods(q),
{
    assert forall|k: int, i: int, j: int|
        0 <= k < q.orbits@.len() && 0 <= i < q.orbits@[k].pieces@.len() && 0 <= j
            < q.orbits@[k].pieces@.len() implies #[trigger] q.orbits@[k].orientation_mods@[i]
        == #[trigger] q.orbits@[k].orientation_mods@[j] by {
        assert(same_orbit_values(p.orbits@[k], q.orbits@[k]));
        assert(p.orbits@[k].orientation_mods@[i] == p.orbits@[k].orientation_mods@[j]);
    }
}

/// From a start pattern with one orientation modulus per orbit, every pattern that moves make
/// of it passes the mask that the start pattern passes: moves only permute pieces, with their
/// moduli, within orbits.
pub proof fn lemma_uniform_mods_keep_masks_passing(
    start: Pattern,
    moves: Seq<Transformation>,
    phase_mask: Pattern,
    p: Pattern,
    d: nat,
)
    requires
        search_pattern_ok(start, start, phase_mask),
        uniform_mods(start),
        forall|m: int| 0 <= m < moves.len() ==> transformation_fits(start, #[trigger] moves[m]),
        reached_by_moves(start, moves, p, d),
    ensures
        mask_passes(p, phase_mask),
        uniform_mods(p),
        search_pattern_ok(p, start, phase_mask),
    decreases d,
{
    if d == 0 {
        lemma_same_values_symmetric(p, start);
        lemma_search_pattern_ok_by_values(start, p, start, phase_mask);
        lemma_uniform_mods_by_values(start, p);
    } else {
        let (q, m) = choose|q: Pattern, m: int|
            #![trigger applied_pattern(q, moves[m], p)]
            0 <= m < moves.len() && reached_by_moves(start, moves, q, (d - 1) as nat) && applied_pattern(
                q,
                moves[m],
                p,
            );
        lemma_uniform_mods_keep_masks_passing(start, moves, phase_mask, q, (d - 1) as nat);
        lemma_move_keeps_uniform_mods(q, moves[m], p, start, phase_mask);
        lemma_move_keeps_search_pattern_ok(q, moves[m], p, start, phase_mask);
    }
}

/// A transformation that acts on the start pattern acts on every pattern shaped like it.
proof fn lemma_fits_same_shape(p: Pattern, start: Pattern, t: Transformation)
    requires
        same_shape(p, start),
        transformation_fits(start, t),
    ensures
        transformation_fits(p, t),
{
    assert forall|k: int| 0 <= k < p.orbits@.len() implies {
        let o = #[trigger] p.orbits@[k];
        let to = t.orbits@[k];
        &&& to.permutation@.len() == o.pieces@.len()
        &&& to.orientation_delta@.len() == o.pieces@.len()
        &&& forall|i: int| 0 <= i < o.pieces@.len() ==> #[trigger] to.permutation@[i] < o.pieces@.len()
    } by {
        assert(start.orbits@[k].pieces@.len() == p.orbits@[k].pieces@.len());
    }
}

/// Applying one transformation to one pattern gives one set of values.
proof fn lemma_applied_unique(p: Pattern, t: Transformation, a: Pattern, b: Pattern)
    requires
        applied_pattern(p, t, a),
        applied_pattern(p, t, b),
    ensures
        same_pattern_values(a, b),
{
    assert forall|k: int| 0 <= k < a.orbits@.len() implies same_orbit_values(#[trigger] a.orbits@[k], b.orbits@[k]) by {
        assert(applied_orbit(p.orbits@[k], t.orbits@[k], a.orbits@[k]));
        assert(applied_orbit(p.orbits@[k], t.orbits@[k], b.orbits@[k]));
        assert forall|i: int| 0 <= i < a.orbits@[k].pieces@.len() implies a.orbits@[k].orientations@[i]
            == b.orbits@[k].orientations@[i] && a.orbits@[k].orientation_mods@[i]
            == b.orbits@[k].orientation_mods@[i] by {
            assert(a.orbits@[k].pieces@[i] == b.orbits@[k].pieces@[i]);
        }
        assert(a.orbits@[k].pieces@ =~= b.orbits@[k].pieces@);
        assert(a.orbits@[k].orientations@ =~= b.orbits@[k].orientations@);
        assert(a.orbits@[k].orientation_mods@ =~= b.orbits@[k].orientation_mods@);
    }
}

/// Masking reads only the values of the full pattern.
proof fn lemma_masked_by_values(s: Pattern, s2: Pattern, phase_mask: Pattern, m: Pattern)
    requires
        same_pattern_values(s, s2),
        masked_pattern(s, phase_mask, m),
    ensures
        masked_pattern(s2, phase_mask, m),
{
    assert forall|k: int| 0 <= k < s2.orbits@.len() implies masked_orbit(
        s2.orbits@[k],
        phase_mask.orbits@[k],
        #[trigger] m.orbits@[k],
    ) by {
        assert(same_orbit_values(s.orbits@[k], s2.orbits@[k]));
        assert(masked_orbit(s.orbits@[k], phase_mask.orbits@[k], m.orbits@[k]));
    }
}

/// Masking patterns with the same values gives patterns with the same values.
proof fn lemma_masked_unique(s: Pattern, s2: Pattern, phase_mask: Pattern, a: Pattern, b: Pattern)
    requires
        same_pattern_values(s, s2),
        masked_pattern(s, phase_mask, a),
        masked_pattern(s2, phase_mask, b),
    ensures
        same_pattern_values(a, b),
{
    lemma_masked_by_values(s2, s, phase_mask, b);
    assert forall|k: int| 0 <= k < a.orbits@.len() implies same_orbit_values(#[trigger] a.orbits@[k], b.orbits@[k]) by {
        assert(masked_orbit(s.orbits@[k], phase_mask.orbits@[k], a.orbits@[k]));
        assert(masked_orbit(s.orbits@[k], phase_mask.orbits@[k], b.orbits@[k]));
        assert forall|i: int| 0 <= i < a.orbits@[k].pieces@.len() implies a.orbits@[k].orientations@[i]
            == b.orbits@[k].orientations@[i] && a.orbits@[k].orientation_mods@[i]
            == b.orbits@[k].orientation_mods@[i] by {
            assert(a.orbits@[k].pieces@[i] == b.orbits@[k].pieces@[i]);
        }
        assert(a.orbits@[k].pieces@ =~= b.orbits@[k].pieces@);
        assert(a.orbits@[k].orientations@ =~= b.orbits@[k].orientations@);
        assert(a.orbits@[k].orientation_mods@ =~= b.orbits@[k].orientation_mods@);
    }
}

/// A pattern with the same values as a masked pattern is that masked pattern too.
proof fn lemma_masked_result_by_values(s: Pattern, phase_mask: Pattern, a: Pattern, b: Pattern)
    requires
        masked_pattern(s, phase_mask, a),
        same_pattern_values(a, b),
    ensures
        masked_pattern(s, phase_mask, b),
{
    assert forall|k: int| 0 <= k < s.orbits@.len() implies masked_orbit(
        s.orbits@[k],
        phase_mask.orbits@[k],
        #[trigger] b.orbits@[k],
    ) by {
        assert(same_orbit_values(a.orbits@[k], b.orbits@[k]));
        assert(masked_orbit(s.orbits@[k], phase_mask.orbits@[k], a.orbits@[k]));
    }
}

/// Patterns with the same values have the same first orbit pieces.
proof fn lemma_wedges_by_values(s: Pattern, s2: Pattern)
    requires
        same_pattern_values(s, s2),
    ensures
        s.orbits@[0].pieces@ == s2.orbits@[0].pieces@,
{
    if s.orbits@.len() == 0 {
        assert(s.orbits@ =~= s2.orbits@);
    } else {
        assert(same_orbit_values(s.orbits@[0], s2.orbits@[0]));
    }
}

/// Lookup patterns of full patterns with the same values hold the same values.
proof fn lemma_lookup_unique(s: Pattern, s2: Pattern, phase_mask: Pattern, a: LookupPattern, b: LookupPattern)
    requires
        same_pattern_values(s, s2),
        lookup_matches(s, phase_mask, a),
        lookup_matches(s2, phase_mask, b),
    ensures
        same_lookup(a, b),
{
    lemma_masked_unique(s, s2, phase_mask, a.masked_pattern, b.masked_pattern);
    lemma_wedges_by_values(s, s2);
}

/// The lookup pattern of a full pattern is that of every full pattern with its values, and so
/// is every lookup pattern with its values.
proof fn lemma_lookup_by_values(s: Pattern, s2: Pattern, phase_mask: Pattern, a: LookupPattern, b: LookupPattern)
    requires
        same_pattern_values(s, s2),
        lookup_matches(s, phase_mask, a),
        same_lookup(a, b),
    ensures
        lookup_matches(s2, phase_mask, b),
{
    lemma_masked_result_by_values(s, phase_mask, a.masked_pattern, b.masked_pattern);
    lemma_masked_by_values(s, s2, phase_mask, b.masked_pattern);
    lemma_wedges_by_values(s, s2);
}

/// Rejection reads only the values of the full pattern.
proof fn lemma_rejected_by_values<C: PatternValidityChecker>(s: Pattern, s2: Pattern, phase_mask: Pattern)
    requires
        same_pattern_values(s, s2),
        lookup_rejected::<C>(s, phase_mask),
    ensures
        lookup_rejected::<C>(s2, phase_mask),
{
    let m = choose|m: Pattern| masked_pattern(s, phase_mask, m) && !C::valid_pattern(m);
    lemma_masked_by_values(s, s2, phase_mask, m);
}

/// A full pattern with a valid lookup pattern is not rejected.
proof fn lemma_not_rejected<C: PatternValidityChecker>(
    s: Pattern,
    s2: Pattern,
    phase_mask: Pattern,
    lp: LookupPattern,
)
    requires
        same_pattern_values(s, s2),
        lookup_matches(s2, phase_mask, lp),
        C::valid_pattern(lp.masked_pattern),
    ensures
        !lookup_rejected::<C>(s, phase_mask),
{
    if lookup_rejected::<C>(s, phase_mask) {
        let m = choose|m: Pattern| masked_pattern(s, phase_mask, m) && !C::valid_pattern(m);
        lemma_masked_unique(s2, s, phase_mask, lp.masked_pattern, m);
        C::lemma_valid_pattern_by_values(lp.masked_pattern, m);
    }
}

/// Holding the same values is symmetric.
proof fn lemma_same_values_symmetric(a: Pattern, b: Pattern)
    requires
        same_pattern_values(a, b),
    ensures
        same_pattern_values(b, a),
{
    assert forall|k: int| 0 <= k < b.orbits@.len() implies same_orbit_values(#[trigger] b.orbits@[k], a.orbits@[k]) by {
        assert(same_orbit_values(a.orbits@[k], b.orbits@[k]));
    }
}

/// Holding the same values is transitive.
proof fn lemma_same_values_transitive(a: Pattern, b: Pattern, c: Pattern)
    requires
        same_pattern_values(a, b),
        same_pattern_values(b, c),
    ensures
        same_pattern_values(a, c),
{
    assert forall|k: int| 0 <= k < a.orbits@.len() implies same_orbit_values(#[trigger] a.orbits@[k], c.orbits@[k]) by {
        assert(same_orbit_values(a.orbits@[k], b.orbits@[k]));
        assert(same_orbit_values(b.orbits@[k], c.orbits@[k]));
    }
}

/// The position of a lookup pattern with the same values as `lp` among `entries`, if any.
fn find_lookup(entries: &IndexedVec<PhasePatternIndex, LookupPattern>, lp: &LookupPattern) -> (r:
    Option<usize>)
    ensures
        r matches Some(e) ==> e < entries@.len() && same_lookup(entries@[e as int], *lp)
            && same_lookup(*lp, entries@[e as int]),
        r is None ==> forall|e: int|
            0 <= e < entries@.len() ==> !same_lookup(#[trigger] entries@[e], *lp) && !same_lookup(
                *lp,
                entries@[e],
            ),
{
    let n = entries.len();
    let mut i: usize = 0;
    while i < n
        invariant
            0 <= i <= n,
            n == entries@.len(),
            forall|e: int|
                0 <= e < i ==> !same_lookup(#[trigger] entries@[e], *lp) && !same_lookup(
                    *lp,
                    entries@[e],
                ),
        decreases n - i,
    {
        let candidate = entries.at(PhasePatternIndex(i));
        if candidate.parity == lp.parity && patterns_equal(&candidate.masked_pattern, &lp.masked_pattern) {
            proof {
                lemma_same_values_symmetric(candidate.masked_pattern, lp.masked_pattern);
            }
            return Some(i);
        }
        proof {
            if same_lookup(*lp, *candidate) {
                lemma_same_values_symmetric(lp.masked_pattern, candidate.masked_pattern);
            }
        }
        i += 1;
    }
    None
}

/// The full pattern is rejected by the phase, or its lookup pattern is one of `entries` with a
/// depth of at most `bound`.
pub open spec fn lookup_accounted_within<C: PatternValidityChecker>(
    full: Pattern,
    phase_mask: Pattern,
    entries: Seq<LookupPattern>,
    depths: Seq<usize>,
    bound: int,
) -> bool {
    ||| lookup_rejected::<C>(full, phase_mask)
    ||| exists|e: int|
        0 <= e < entries.len() && lookup_matches(full, phase_mask, #[trigger] entries[e]) && depths[e]
            <= bound
}

/// `p` is what `d` moves make of the start pattern.
pub open spec fn reached_by_moves(start: Pattern, moves: Seq<Transformation>, p: Pattern, d: nat) -> bool
    decreases d,
{
    if d == 0 {
        same_pattern_values(p, start)
    } else {
        exists|q: Pattern, m: int|
            #![trigger applied_pattern(q, moves[m], p)]
            0 <= m < moves.len() && reached_by_moves(start, moves, q, (d - 1) as nat) && applied_pattern(
                q,
                moves[m],
                p,
            )
    }
}

/// A pattern with the same values as the result of a transformation is that result too.
proof fn lemma_applied_result_by_values(p: Pattern, t: Transformation, a: Pattern, b: Pattern)
    requires
        applied_pattern(p, t, a),
        same_pattern_values(a, b),
    ensures
        applied_pattern(p, t, b),
{
    assert forall|k: int| 0 <= k < p.orbits@.len() implies applied_orbit(
        p.orbits@[k],
        t.orbits@[k],
        #[trigger] b.orbits@[k],
    ) by {
        assert(applied_orbit(p.orbits@[k], t.orbits@[k], a.orbits@[k]));
        assert(same_orbit_values(a.orbits@[k], b.orbits@[k]));
        assert forall|i: int| 0 <= i < p.orbits@[k].pieces@.len() implies {
            let from = t.orbits@[k].permutation@[i] as int;
            &&& #[trigger] b.orbits@[k].pieces@[i] == p.orbits@[k].pieces@[from]
            &&& b.orbits@[k].orientation_mods@[i] == p.orbits@[k].orientation_mods@[from]
            &&& b.orbits@[k].orientations@[i] == (p.orbits@[k].orientations@[from]
                + t.orbits@[k].orientation_delta@[i]) % effective_mod(
                p.orbits@[k].orientation_mods@[from],
                p.orbits@[k].num_orientations,
            )
        } by {
            assert(a.orbits@[k].pieces@[i] == b.orbits@[k].pieces@[i]);
        }
    }
}

/// Being reached reads only the values of a pattern.
proof fn lemma_reached_by_values(start: Pattern, moves: Seq<Transformation>, p: Pattern, p2: Pattern, d: nat)
    requires
        same_pattern_values(p, p2),
        reached_by_moves(start, moves, p, d),
    ensures
        reached_by_moves(start, moves, p2, d),
{
    if d == 0 {
        lemma_same_values_symmetric(p, p2);
        lemma_same_values_transitive(p2, p, start);
    } else {
        let (q, m) = choose|q: Pattern, m: int|
            #![trigger applied_pattern(q, moves[m], p)]
            0 <= m < moves.len() && reached_by_moves(start, moves, q, (d - 1) as nat) && applied_pattern(
                q,
                moves[m],
                p,
            );
        lemma_applied_result_by_values(q, moves[m], p, p2);
    }
}

/// Being accounted for within a depth reads only the values of the full pattern.
proof fn lemma_accounted_within_by_values<C: PatternValidityChecker>(
    s: Pattern,
    s2: Pattern,
    phase_mask: Pattern,
    entries: Seq<LookupPattern>,
    depths: Seq<usize>,
    bound: int,
)
    requires
        same_pattern_values(s, s2),
        lookup_accounted_within::<C>(s, phase_mask, entries, depths, bound),
    ensures
        lookup_accounted_within::<C>(s2, phase_mask, entries, depths, bound),
{
    if lookup_rejected::<C>(s, phase_mask) {
        lemma_rejected_by_values::<C>(s, s2, phase_mask);
    } else {
        let e = choose|e: int|
            0 <= e < entries.len() && lookup_matches(s, phase_mask, #[trigger] entries[e]) && depths[e]
                <= bound;
        assert(same_pattern_values(entries[e].masked_pattern, entries[e].masked_pattern));
        lemma_lookup_by_values(s, s2, phase_mask, entries[e], entries[e]);
    }
}

/// Among lookup patterns that are pairwise distinct, one with the values of a given one is the
/// only one.
proof fn lemma_distinct_index(entries: Seq<LookupPattern>, e: int, e2: int, lp: LookupPattern)
    requires
        forall|i: int, j: int| 0 <= i < j < entries.len() ==> !same_lookup(#[trigger] entries[i], #[trigger] entries[j]),
        0 <= e < entries.len(),
        0 <= e2 < entries.len(),
        same_lookup(entries[e], lp),
        same_lookup(entries[e2], lp),
    ensures
        e == e2,
{
    lemma_same_values_symmetric(entries[e2].masked_pattern, lp.masked_pattern);
    lemma_same_values_symmetric(entries[e].masked_pattern, lp.masked_pattern);
    lemma_same_values_transitive(entries[e].masked_pattern, lp.masked_pattern, entries[e2].masked_pattern);
    lemma_same_values_transitive(entries[e2].masked_pattern, lp.masked_pattern, entries[e].masked_pattern);
    if e < e2 {
        assert(!same_lookup(entries[e], entries[e2]));
    } else if e2 < e {
        assert(!same_lookup(entries[e2], entries[e]));
    }
}

/// The fringe of the breadth-first search of `search_lookup_patterns`: full patterns that the
/// moves make of the start pattern, with their depths, sorted and at most one apart from the
/// head position on.
#[verifier::opaque]
spec fn fringe_ok(
    start: Pattern,
    moves: Seq<Transformation>,
    mask: Pattern,
    fringe: Seq<Pattern>,
    fd: Seq<usize>,
    head: int,
    num_reps: int,
) -> bool {
    &&& 1 <= fringe.len()
    &&& fd.len() == fringe.len()
    &&& 0 <= head <= fringe.len()
    &&& same_pattern_values(fringe[0], start)
    &&& fd[0] == 0
    &&& forall|p: int, q: int| 0 <= p <= q < fd.len() ==> #[trigger] fd[p] <= #[trigger] fd[q]
    &&& forall|q: int| head <= q < fd.len() ==> #[trigger] fd[q] <= fd[head] + 1
    &&& forall|q: int| 0 <= q < fd.len() ==> #[trigger] fd[q] <= num_reps
    &&& forall|q: int|
        0 <= q < fringe.len() ==> search_pattern_ok(#[trigger] fringe[q], start, mask)
            && reached_by_moves(start, moves, fringe[q], fd[q] as nat)
}

/// The lookup patterns found so far, pairwise distinct, with their representatives and depths.
#[verifier::opaque]
spec fn entries_ok<C: PatternValidityChecker>(
    start: Pattern,
    moves: Seq<Transformation>,
    mask: Pattern,
    entries: Seq<LookupPattern>,
    reps: Seq<Pattern>,
    depths: Seq<usize>,
) -> bool {
    &&& entries.len() == reps.len()
    &&& depths.len() == reps.len()
    &&& entries.len() > 0 ==> depths[0] == 0
    &&& forall|j: int|
        #![trigger entries[j]]
        #![trigger reps[j]]
        0 <= j < entries.len() ==> lookup_matches(reps[j], mask, entries[j])
            && C::valid_pattern(entries[j].masked_pattern) && search_pattern_ok(reps[j], start, mask)
            && reached_by_moves(start, moves, reps[j], depths[j] as nat)
    &&& forall|i: int, j: int| 0 <= i < j < entries.len() ==> !same_lookup(#[trigger] entries[i], #[trigger] entries[j])
}

/// No lookup pattern found so far is deeper than a fringe position from the head on.
#[verifier::opaque]
spec fn depths_below(depths: Seq<usize>, fd: Seq<usize>, head: int) -> bool {
    forall|e: int, q: int| 0 <= e < depths.len() && head <= q < fd.len() ==> #[trigger] depths[e] <= #[trigger] fd[q]
}

/// The successors of each representative stand in the fringe from `base[j]` on, one move
/// deeper.
#[verifier::opaque]
spec fn successors_ok(
    moves: Seq<Transformation>,
    fringe: Seq<Pattern>,
    fd: Seq<usize>,
    reps: Seq<Pattern>,
    depths: Seq<usize>,
    base: Seq<int>,
) -> bool {
    &&& base.len() == reps.len()
    &&& forall|j: int| 0 <= j < reps.len() ==> 0 <= #[trigger] base[j] && base[j] + moves.len() <= fringe.len()
    &&& forall|j: int, m: int|
        #![trigger reps[j], moves[m]]
        0 <= j < reps.len() && 0 <= m < moves.len() ==> applied_pattern(reps[j], moves[m], fringe[base[j] + m])
            && fd[base[j] + m] == depths[j] + 1
}

/// Every fringe position before the head is accounted for, within its depth.
#[verifier::opaque]
spec fn processed_ok<C: PatternValidityChecker>(
    mask: Pattern,
    fringe: Seq<Pattern>,
    fd: Seq<usize>,
    head: int,
    entries: Seq<LookupPattern>,
    depths: Seq<usize>,
) -> bool {
    forall|q: int|
        0 <= q < head ==> lookup_accounted_within::<C>(#[trigger] fringe[q], mask, entries, depths, fd[q] as int)
}

/// What the search uses of its state at the head position `pos`.
proof fn lemma_search_state_at<C: PatternValidityChecker>(
    start: Pattern,
    moves: Seq<Transformation>,
    mask: Pattern,
    fringe: Seq<Pattern>,
    fd: Seq<usize>,
    pos: int,
    entries: Seq<LookupPattern>,
    reps: Seq<Pattern>,
    depths: Seq<usize>,
)
    requires
        fringe_ok(start, moves, mask, fringe, fd, pos, reps.len() as int),
        entries_ok::<C>(start, moves, mask, entries, reps, depths),
        depths_below(depths, fd, pos),
        0 <= pos < fringe.len(),
    ensures
        fd.len() == fringe.len(),
        entries.len() == reps.len(),
        depths.len() == reps.len(),
        search_pattern_ok(fringe[pos], start, mask),
        reached_by_moves(start, moves, fringe[pos], fd[pos] as nat),
        fd[pos] <= reps.len(),
        same_pattern_values(fringe[0], start),
        forall|e: int| 0 <= e < depths.len() ==> #[trigger] depths[e] <= fd[pos],
{
    reveal(fringe_ok);
    reveal(entries_ok);
    reveal(depths_below);
    assert forall|e: int| 0 <= e < depths.len() implies #[trigger] depths[e] <= fd[pos] by {
        assert(depths[e] <= fd[pos]);
    }
}

/// Moving the head on by one keeps the fringe invariant and the depth bound.
proof fn lemma_head_moves_on(
    start: Pattern,
    moves: Seq<Transformation>,
    mask: Pattern,
    fringe: Seq<Pattern>,
    fd: Seq<usize>,
    pos: int,
    num_reps: int,
    depths: Seq<usize>,
)
    requires
        fringe_ok(start, moves, mask, fringe, fd, pos, num_reps),
        depths_below(depths, fd, pos),
        0 <= pos < fringe.len(),
    ensures
        fringe_ok(start, moves, mask, fringe, fd, pos + 1, num_reps),
        depths_below(depths, fd, pos + 1),
{
    reveal(fringe_ok);
    reveal(depths_below);
    assert forall|q: int| pos + 1 <= q < fd.len() implies #[trigger] fd[q] <= fd[pos + 1] + 1 by {
        assert(fd[pos] <= fd[pos + 1]);
        assert(fd[q] <= fd[pos] + 1);
    }
}

/// Accounting for the head position extends the processed prefix.
proof fn lemma_processed_extends<C: PatternValidityChecker>(
    mask: Pattern,
    fringe: Seq<Pattern>,
    fd: Seq<usize>,
    pos: int,
    entries: Seq<LookupPattern>,
    depths: Seq<usize>,
)
    requires
        processed_ok::<C>(mask, fringe, fd, pos, entries, depths),
        lookup_accounted_within::<C>(fringe[pos], mask, entries, depths, fd[pos] as int),
    ensures
        processed_ok::<C>(mask, fringe, fd, pos + 1, entries, depths),
{
    reveal(processed_ok);
    assert forall|q: int|
        0 <= q < pos + 1 implies lookup_accounted_within::<C>(#[trigger] fringe[q], mask, entries, depths, fd[q] as int) by {
        if q < pos {
            assert(lookup_accounted_within::<C>(fringe[q], mask, entries, depths, fd[q] as int));
        }
    }
}

/// The fringe invariant after the successors of the head pattern go to its end.
proof fn lemma_fringe_add(
    start: Pattern,
    moves: Seq<Transformation>,
    mask: Pattern,
    fringe: Seq<Pattern>,
    fd: Seq<usize>,
    pos: int,
    num_reps: int,
    fringe2: Seq<Pattern>,
    fd2: Seq<usize>,
)
    requires
        fringe_ok(start, moves, mask, fringe, fd, pos, num_reps),
        0 <= pos < fringe.len(),
        fd[pos] <= num_reps,
        fringe2.len() == fringe.len() + moves.len(),
        fd2.len() == fringe2.len(),
        forall|q: int| 0 <= q < fringe.len() ==> #[trigger] fringe2[q] == fringe[q],
        forall|q: int| 0 <= q < fringe.len() ==> #[trigger] fd2[q] == fd[q],
        forall|q: int| fringe.len() <= q < fringe2.len() ==> #[trigger] fd2[q] == fd[pos] + 1,
        forall|q: int|
            fringe.len() <= q < fringe2.len() ==> search_pattern_ok(#[trigger] fringe2[q], start, mask)
                && reached_by_moves(start, moves, fringe2[q], fd2[q] as nat),
    ensures
        fringe_ok(start, moves, mask, fringe2, fd2, pos + 1, num_reps + 1),
{
    reveal(fringe_ok);
    let b = fringe.len() as int;
    assert(fringe2[0] == fringe[0]);
    assert(fd2[0] == fd[0]);
    assert forall|p: int, q: int| 0 <= p <= q < fd2.len() implies #[trigger] fd2[p] <= #[trigger] fd2[q] by {
        if q >= b {
            if p < b {
                if p < pos {
                    assert(fd[p] <= fd[pos]);
                } else {
                    assert(fd[p] <= fd[pos] + 1);
                }
            }
        } else {
            assert(fd[p] <= fd[q]);
        }
    }
    assert forall|q: int| pos + 1 <= q < fd2.len() implies #[trigger] fd2[q] <= fd2[pos + 1] + 1 by {
        if pos + 1 < b {
            assert(fd[pos] <= fd[pos + 1]);
        }
        if q < b {
            assert(fd[q] <= fd[pos] + 1);
        }
    }
    assert forall|q: int| 0 <= q < fd2.len() implies #[trigger] fd2[q] <= num_reps + 1 by {
        if q < b {
            assert(fd[q] <= num_reps);
        }
    }
    assert forall|q: int| 0 <= q < fringe2.len() implies search_pattern_ok(#[trigger] fringe2[q], start, mask)
        && reached_by_moves(start, moves, fringe2[q], fd2[q] as nat) by {
        if q < b {
            assert(search_pattern_ok(fringe[q], start, mask));
        }
    }
}

/// The lookup patterns after a new one is found.
proof fn lemma_entries_add<C: PatternValidityChecker>(
    start: Pattern,
    moves: Seq<Transformation>,
    mask: Pattern,
    entries: Seq<LookupPattern>,
    reps: Seq<Pattern>,
    depths: Seq<usize>,
    lp: LookupPattern,
    full: Pattern,
    d: usize,
)
    requires
        entries_ok::<C>(start, moves, mask, entries, reps, depths),
        entries.len() == 0 ==> d == 0,
        search_pattern_ok(full, start, mask),
        reached_by_moves(start, moves, full, d as nat),
        lookup_matches(full, mask, lp),
        C::valid_pattern(lp.masked_pattern),
        forall|e: int| 0 <= e < entries.len() ==> !same_lookup(#[trigger] entries[e], lp),
    ensures
        entries_ok::<C>(start, moves, mask, entries.push(lp), reps.push(full), depths.push(d)),
{
    reveal(entries_ok);
    let n = entries.len() as int;
    let entries2 = entries.push(lp);
    let reps2 = reps.push(full);
    let depths2 = depths.push(d);
    assert forall|j: int|
        #![trigger entries2[j]]
        #![trigger reps2[j]]
        0 <= j < entries2.len() implies lookup_matches(reps2[j], mask, entries2[j])
            && C::valid_pattern(entries2[j].masked_pattern) && search_pattern_ok(reps2[j], start, mask)
            && reached_by_moves(start, moves, reps2[j], depths2[j] as nat) by {
        if j < n {
            assert(lookup_matches(reps[j], mask, entries[j]));
        }
    }
    assert forall|i: int, j: int| 0 <= i < j < entries2.len() implies !same_lookup(
        #[trigger] entries2[i],
        #[trigger] entries2[j],
    ) by {
        if j < n {
            assert(!same_lookup(entries[i], entries[j]));
        } else {
            assert(!same_lookup(entries[i], lp));
        }
    }
    if n > 0 {
        assert(depths2[0] == depths[0]);
    }
}

/// The depth bound after a new lookup pattern is found at the head position.
proof fn lemma_depths_add(
    depths: Seq<usize>,
    fd: Seq<usize>,
    pos: int,
    fd2: Seq<usize>,
    b: int,
)
    requires
        depths_below(depths, fd, pos),
        0 <= pos < b,
        fd.len() == b,
        fd2.len() >= b,
        forall|p: int, q: int| 0 <= p <= q < fd.len() ==> #[trigger] fd[p] <= #[trigger] fd[q],
        forall|q: int| 0 <= q < b ==> #[trigger] fd2[q] == fd[q],
        forall|q: int| b <= q < fd2.len() ==> #[trigger] fd2[q] == fd[pos] + 1,
    ensures
        depths_below(depths.push(fd[pos]), fd2, pos + 1),
{
    reveal(depths_below);
    let depths2 = depths.push(fd[pos]);
    assert forall|e: int, q: int|
        0 <= e < depths2.len() && pos + 1 <= q < fd2.len() implies #[trigger] depths2[e] <= #[trigger] fd2[q] by {
        if q < b {
            assert(fd[pos] <= fd[q]);
        }
        if e < depths.len() {
            assert(depths[e] <= fd[pos]);
        }
    }
}

/// The successor positions after the successors of a new representative go to the end of the
/// fringe.
proof fn lemma_successors_add(
    moves: Seq<Transformation>,
    fringe: Seq<Pattern>,
    fd: Seq<usize>,
    reps: Seq<Pattern>,
    depths: Seq<usize>,
    base: Seq<int>,
    full: Pattern,
    d: usize,
    fringe2: Seq<Pattern>,
    fd2: Seq<usize>,
)
    requires
        successors_ok(moves, fringe, fd, reps, depths, base),
        depths.len() == reps.len(),
        fringe2.len() == fringe.len() + moves.len(),
        fd2.len() == fringe2.len(),
        fd.len() == fringe.len(),
        forall|q: int| 0 <= q < fringe.len() ==> #[trigger] fringe2[q] == fringe[q],
        forall|q: int| 0 <= q < fringe.len() ==> #[trigger] fd2[q] == fd[q],
        forall|q: int| fringe.len() <= q < fringe2.len() ==> #[trigger] fd2[q] == d + 1,
        forall|m: int| 0 <= m < moves.len() ==> applied_pattern(full, #[trigger] moves[m], fringe2[fringe.len() + m]),
    ensures
        successors_ok(moves, fringe2, fd2, reps.push(full), depths.push(d), base.push(fringe.len() as int)),
{
    reveal(successors_ok);
    let n = reps.len() as int;
    let b = fringe.len() as int;
    let reps2 = reps.push(full);
    let depths2 = depths.push(d);
    let base2 = base.push(b);
    assert forall|j: int| 0 <= j < reps2.len() implies 0 <= #[trigger] base2[j] && base2[j] + moves.len()
        <= fringe2.len() by {
        if j < n {
            assert(0 <= base[j] && base[j] + moves.len() <= fringe.len());
        }
    }
    assert forall|j: int, m: int|
        #![trigger reps2[j], moves[m]]
        0 <= j < reps2.len() && 0 <= m < moves.len() implies applied_pattern(reps2[j], moves[m], fringe2[base2[j] + m])
            && fd2[base2[j] + m] == depths2[j] + 1 by {
        if j < n {
            assert(reps2[j] == reps[j]);
            assert(base2[j] == base[j]);
            assert(depths2[j] == depths[j]);
            assert(0 <= base[j] && base[j] + moves.len() <= fringe.len());
            assert(applied_pattern(reps[j], moves[m], fringe[base[j] + m]) && fd[base[j] + m] == depths[j] + 1);
            assert(fringe2[base[j] + m] == fringe[base[j] + m]);
            assert(fd2[base[j] + m] == fd[base[j] + m]);
        } else {
            assert(applied_pattern(full, moves[m], fringe2[b + m]));
            assert(fd2[b + m] == d + 1);
        }
    }
}

/// The processed prefix after a new lookup pattern is found at the head position.
proof fn lemma_processed_add<C: PatternValidityChecker>(
    mask: Pattern,
    fringe: Seq<Pattern>,
    fd: Seq<usize>,
    pos: int,
    entries: Seq<LookupPattern>,
    depths: Seq<usize>,
    lp: LookupPattern,
    full: Pattern,
    fringe2: Seq<Pattern>,
    fd2: Seq<usize>,
)
    requires
        processed_ok::<C>(mask, fringe, fd, pos, entries, depths),
        entries.len() == depths.len(),
        0 <= pos < fringe.len(),
        fringe2.len() >= fringe.len(),
        fd2.len() == fringe2.len(),
        fd.len() == fringe.len(),
        forall|q: int| 0 <= q < fringe.len() ==> #[trigger] fringe2[q] == fringe[q],
        forall|q: int| 0 <= q < fringe.len() ==> #[trigger] fd2[q] == fd[q],
        same_pattern_values(full, fringe[pos]),
        lookup_matches(full, mask, lp),
    ensures
        processed_ok::<C>(mask, fringe2, fd2, pos + 1, entries.push(lp), depths.push(fd[pos])),
{
    reveal(processed_ok);
    let n = entries.len() as int;
    let entries2 = entries.push(lp);
    let depths2 = depths.push(fd[pos]);
    assert forall|q: int|
        0 <= q < pos + 1 implies lookup_accounted_within::<C>(#[trigger] fringe2[q], mask, entries2, depths2, fd2[q] as int) by {
        assert(fringe2[q] == fringe[q]);
        assert(fd2[q] == fd[q]);
        if q < pos {
            assert(lookup_accounted_within::<C>(fringe[q], mask, entries, depths, fd[q] as int));
            if !lookup_rejected::<C>(fringe[q], mask) {
                let e = choose|e: int|
                    0 <= e < entries.len() && lookup_matches(fringe[q], mask, #[trigger] entries[e])
                        && depths[e] <= fd[q];
                assert(entries2[e] == entries[e]);
                assert(depths2[e] == depths[e]);
            }
        } else {
            assert(same_pattern_values(lp.masked_pattern, lp.masked_pattern));
            lemma_lookup_by_values(full, fringe[pos], mask, lp, lp);
            assert(entries2[n] == lp);
            assert(depths2[n] == fd[pos]);
        }
    }
}

/// Appends what each move makes of `rep` to the fringe, each at depth `depth`.
fn push_successors(
    fringe: &mut Vec<Pattern>,
    fringe_depths: &mut Vec<usize>,
    rep: &Pattern,
    depth: usize,
    moves: &Vec<Transformation>,
    Ghost(start): Ghost<Pattern>,
    Ghost(mask): Ghost<Pattern>,
)
    requires
        lookup_table_inputs(start, moves@, mask),
        search_pattern_ok(*rep, start, mask),
        depth >= 1,
        reached_by_moves(start, moves@, *rep, (depth - 1) as nat),
        old(fringe)@.len() == old(fringe_depths)@.len(),
    ensures
        final(fringe)@.len() == old(fringe)@.len() + moves@.len(),
        final(fringe_depths)@.len() == final(fringe)@.len(),
        forall|q: int| 0 <= q < old(fringe)@.len() ==> #[trigger] final(fringe)@[q] == old(fringe)@[q],
        forall|q: int| 0 <= q < old(fringe)@.len() ==> #[trigger] final(fringe_depths)@[q] == old(fringe_depths)@[q],
        forall|q: int|
            old(fringe)@.len() <= q < final(fringe)@.len() ==> #[trigger] final(fringe_depths)@[q] == depth,
        forall|q: int|
            old(fringe)@.len() <= q < final(fringe)@.len() ==> search_pattern_ok(#[trigger] final(fringe)@[q], start, mask)
                && reached_by_moves(start, moves@, final(fringe)@[q], depth as nat),
        forall|m: int|
            0 <= m < moves@.len() ==> applied_pattern(*rep, #[trigger] moves@[m], final(fringe)@[old(fringe)@.len() + m]),
{
    let ghost before = fringe@;
    let ghost before_depths = fringe_depths@;
    let ghost b = fringe@.len() as int;
    let num_moves = moves.len();
    let mut m: usize = 0;
    while m < num_moves
        invariant
            num_moves == moves@.len(),
            lookup_table_inputs(start, moves@, mask),
            search_pattern_ok(*rep, start, mask),
            depth >= 1,
            reached_by_moves(start, moves@, *rep, (depth - 1) as nat),
            0 <= m <= num_moves,
            b == before.len(),
            before_depths.len() == b,
            fringe@.len() == b + m,
            fringe_depths@.len() == b + m,
            forall|q: int| 0 <= q < b ==> #[trigger] fringe@[q] == before[q],
            forall|q: int| 0 <= q < b ==> #[trigger] fringe_depths@[q] == before_depths[q],
            forall|q: int| b <= q < b + m ==> #[trigger] fringe_depths@[q] == depth,
            forall|q: int|
                b <= q < b + m ==> search_pattern_ok(#[trigger] fringe@[q], start, mask) && reached_by_moves(
                    start,
                    moves@,
                    fringe@[q],
                    depth as nat,
                ),
            forall|mm: int| 0 <= mm < m ==> applied_pattern(*rep, #[trigger] moves@[mm], fringe@[b + mm]),
        decreases num_moves - m,
    {
        proof {
            lemma_fits_same_shape(*rep, start, moves@[m as int]);
        }
        let next = apply_transformation(rep, &moves[m]);
        proof {
            assert(reached_by_moves(start, moves@, next, depth as nat)) by {
                assert(applied_pattern(*rep, moves@[m as int], next));
            }
            assert(mask_passes(next, mask));
            lemma_move_keeps_search_pattern_ok(*rep, moves@[m as int], next, start, mask);
        }
        let ghost prev = fringe@;
        let ghost prev_depths = fringe_depths@;
        fringe.push(next);
        fringe_depths.push(depth);
        proof {
            assert forall|q: int| 0 <= q < b implies #[trigger] fringe@[q] == before[q] by {
                assert(fringe@[q] == prev[q]);
            }
            assert forall|q: int| 0 <= q < b implies #[trigger] fringe_depths@[q] == before_depths[q] by {
                assert(fringe_depths@[q] == prev_depths[q]);
            }
            assert forall|q: int| b <= q < b + m + 1 implies #[trigger] fringe_depths@[q] == depth by {
                if q < b + m {
                    assert(fringe_depths@[q] == prev_depths[q]);
                }
            }
            assert forall|q: int|
                b <= q < b + m + 1 implies search_pattern_ok(#[trigger] fringe@[q], start, mask) && reached_by_moves(
                start,
                moves@,
                fringe@[q],
                depth as nat,
            ) by {
                if q < b + m {
                    assert(fringe@[q] == prev[q]);
                }
            }
            assert forall|mm: int| 0 <= mm < m + 1 implies applied_pattern(*rep, #[trigger] moves@[mm], fringe@[b + mm]) by {
                if mm < m {
                    assert(fringe@[b + mm] == prev[b + mm]);
                }
            }
        }
        m += 1;
    }
}

/// The lookup patterns that a breadth-first search from the start pattern meets, in the order
/// met, each with the first full pattern met that has it and the number of moves that made
/// that pattern; every move from one of these full patterns leads to a rejected pattern or to
/// one of these lookup patterns, met at most one move deeper.
fn search_lookup_patterns<C: PatternValidityChecker>(
    start_pattern: &Pattern,
    moves: &Vec<Transformation>,
    phase_mask: &Pattern,
) -> (r: (IndexedVec<PhasePatternIndex, LookupPattern>, Vec<Pattern>, Vec<usize>))
    requires
        lookup_table_inputs(*start_pattern, moves@, *phase_mask),
    ensures
        r.0@.len() == r.1@.len(),
        r.2@.len() == r.1@.len(),
        r.0@.len() == 0 <==> lookup_rejected::<C>(*start_pattern, *phase_mask),
        r.0@.len() > 0 ==> same_pattern_values(r.1@[0], *start_pattern) && r.2@[0] == 0,
        forall|j: int|
            #![trigger r.0@[j]]
            #![trigger r.1@[j]]
            0 <= j < r.0@.len() ==> lookup_matches(r.1@[j], *phase_mask, r.0@[j])
                && C::valid_pattern(r.0@[j].masked_pattern) && search_pattern_ok(
                r.1@[j],
                *start_pattern,
                *phase_mask,
            ) && reached_by_moves(*start_pattern, moves@, r.1@[j], r.2@[j] as nat),
        forall|i: int, j: int|
            0 <= i < j < r.0@.len() ==> !same_lookup(#[trigger] r.0@[i], #[trigger] r.0@[j]),
        forall|j: int, m: int, p: Pattern|
            #![trigger applied_pattern(r.1@[j], moves@[m], p)]
            0 <= j < r.1@.len() && 0 <= m < moves@.len() && applied_pattern(r.1@[j], moves@[m], p)
                ==> lookup_accounted_within::<C>(p, *phase_mask, r.0@, r.2@, r.2@[j] + 1),
{
    let ghost start = *start_pattern;
    let ghost mask = *phase_mask;
    let mut fringe: Vec<Pattern> = Vec::new();
    let mut fringe_depths: Vec<usize> = Vec::new();
    let first = clone_pattern(start_pattern);
    fringe.push(first);
    fringe_depths.push(0);
    let mut head: usize = 0;
    let mut entries: IndexedVec<PhasePatternIndex, LookupPattern> = IndexedVec::new();
    let mut reps: Vec<Pattern> = Vec::new();
    let mut depths: Vec<usize> = Vec::new();
    let ghost mut base: Seq<int> = Seq::empty();
    proof {
        lemma_same_values_symmetric(first, start);
        lemma_search_pattern_ok_by_values(start, first, start, mask);
        reveal_with_fuel(reached_by_moves, 1);
        reveal(fringe_ok);
        reveal(entries_ok);
        reveal(depths_below);
        reveal(successors_ok);
        reveal(processed_ok);
        assert(fringe@[0] == first);
    }
    while head < fringe.len()
        invariant
            start == *start_pattern,
            mask == *phase_mask,
            lookup_table_inputs(start, moves@, mask),
            fringe_depths@.len() == fringe@.len(),
            entries@.len() == reps@.len(),
            depths@.len() == reps@.len(),
            fringe_ok(start, moves@, mask, fringe@, fringe_depths@, head as int, reps@.len() as int),
            entries_ok::<C>(start, moves@, mask, entries@, reps@, depths@),
            depths_below(depths@, fringe_depths@, head as int),
            successors_ok(moves@, fringe@, fringe_depths@, reps@, depths@, base),
            processed_ok::<C>(mask, fringe@, fringe_depths@, head as int, entries@, depths@),
            head == 0 ==> entries@.len() == 0,
            lookup_rejected::<C>(start, mask) ==> entries@.len() == 0 && fringe@.len() == 1,
            head > 0 && !lookup_rejected::<C>(start, mask) ==> entries@.len() > 0
                && same_pattern_values(reps@[0], start),
        decreases usize::MAX - reps.len(), fringe@.len() - head,
    {
        let ghost pos = head as int;
        proof {
            lemma_search_state_at::<C>(start, moves@, mask, fringe@, fringe_depths@, pos, entries@, reps@, depths@);
        }
        let d = fringe_depths[head];
        let full = clone_pattern(&fringe[head]);
        proof {
            lemma_search_pattern_ok_by_values(fringe@[pos], full, start, mask);
            lemma_same_values_symmetric(full, fringe@[pos]);
            lemma_reached_by_values(start, moves@, fringe@[pos], full, d as nat);
            if pos == 0 {
                lemma_same_values_transitive(full, fringe@[0], start);
            }
        }
        match LookupPattern::try_new::<C>(&full, phase_mask) {
            None => {
                proof {
                    lemma_rejected_by_values::<C>(full, fringe@[pos], mask);
                    if pos == 0 {
                        lemma_rejected_by_values::<C>(full, start, mask);
                    }
                    lemma_head_moves_on(start, moves@, mask, fringe@, fringe_depths@, pos, reps@.len() as int, depths@);
                    lemma_processed_extends::<C>(mask, fringe@, fringe_depths@, pos, entries@, depths@);
                }
                head += 1;
            },
            Some(lp) => {
                proof {
                    if pos == 0 {
                        lemma_same_values_symmetric(full, start);
                        lemma_not_rejected::<C>(start, full, mask, lp);
                    }
                }
                match find_lookup(&entries, &lp) {
                    Some(e) => {
                        proof {
                            lemma_lookup_by_values(full, fringe@[pos], mask, lp, entries@[e as int]);
                            assert(depths@[e as int] <= fringe_depths@[pos]);
                            lemma_head_moves_on(start, moves@, mask, fringe@, fringe_depths@, pos, reps@.len() as int, depths@);
                            lemma_processed_extends::<C>(mask, fringe@, fringe_depths@, pos, entries@, depths@);
                        }
                        head += 1;
                    },
                    None => {
                        let ghost old_fringe = fringe@;
                        let ghost old_fd = fringe_depths@;
                        let ghost old_entries = entries@;
                        let ghost old_reps = reps@;
                        let ghost old_depths = depths@;
                        let ghost old_base = base;
                        let ghost full_g = full;
                        proof {
                            if old_entries.len() == 0 && pos != 0 {
                                assert(lookup_rejected::<C>(start, mask));
                                assert(false);
                            }
                            reveal(fringe_ok);
                        }
                        entries.push(lp);
                        reps.push(full);
                        depths.push(d);
                        let num_reps = reps.len();
                        assert(d < num_reps);
                        let next_depth = d + 1;
                        let rep = &reps[num_reps - 1];
                        push_successors(&mut fringe, &mut fringe_depths, rep, next_depth, moves, Ghost(start), Ghost(mask));
                        proof {
                            lemma_fringe_add(start, moves@, mask, old_fringe, old_fd, pos, old_reps.len() as int, fringe@, fringe_depths@);
                            lemma_entries_add::<C>(start, moves@, mask, old_entries, old_reps, old_depths, lp, full_g, d);
                            lemma_depths_add(old_depths, old_fd, pos, fringe_depths@, old_fringe.len() as int);
                            lemma_successors_add(moves@, old_fringe, old_fd, old_reps, old_depths, old_base, full_g, d, fringe@, fringe_depths@);
                            lemma_processed_add::<C>(mask, old_fringe, old_fd, pos, old_entries, old_depths, lp, full_g, fringe@, fringe_depths@);
                            base = old_base.push(old_fringe.len() as int);
                            if old_reps.len() > 0 {
                                assert(reps@[0] == old_reps[0]);
                            } else {
                                assert(reps@[0] == full_g);
                            }
                        }
                        head += 1;
                    },
                }
            },
        }
    }
    proof {
        reveal(entries_ok);
        reveal(successors_ok);
        reveal(processed_ok);
        assert forall|j: int, m: int, p: Pattern|
            #![trigger applied_pattern(reps@[j], moves@[m], p)]
            0 <= j < reps@.len() && 0 <= m < moves@.len() && applied_pattern(reps@[j], moves@[m], p)
                implies lookup_accounted_within::<C>(p, mask, entries@, depths@, depths@[j] + 1) by {
            let q = base[j] + m;
            assert(0 <= base[j] && base[j] + moves@.len() <= fringe@.len());
            assert(applied_pattern(reps@[j], moves@[m], fringe@[q]) && fringe_depths@[q] == depths@[j] + 1);
            assert(lookup_accounted_within::<C>(fringe@[q], mask, entries@, depths@, fringe_depths@[q] as int));
            lemma_applied_unique(reps@[j], moves@[m], fringe@[q], p);
            lemma_accounted_within_by_values::<C>(fringe@[q], p, mask, entries@, depths@, depths@[j] + 1);
        }
    }
    (entries, reps, depths)
}

/// The rows of a move application table: for each representative and each move, where the
/// move leads (see `move_cell_ok`), never more than one step deeper than the representative.
fn build_move_table<C: PatternValidityChecker, K: IndexKey>(
    start_pattern: &Pattern,
    moves: &Vec<Transformation>,
    phase_mask: &Pattern,
    entries: &IndexedVec<PhasePatternIndex, LookupPattern>,
    reps: &Vec<Pattern>,
    depths: &Vec<usize>,
) -> (table: IndexedVec<K, IndexedVec<FlatMoveIndex, Option<K>>>)
    requires
        lookup_table_inputs(*start_pattern, moves@, *phase_mask),
        entries@.len() == reps@.len(),
        depths@.len() == reps@.len(),
        forall|j: int|
            #![trigger entries@[j]]
            #![trigger reps@[j]]
            0 <= j < entries@.len() ==> lookup_matches(reps@[j], *phase_mask, entries@[j])
                && search_pattern_ok(reps@[j], *start_pattern, *phase_mask) && reached_by_moves(
                *start_pattern,
                moves@,
                reps@[j],
                depths@[j] as nat,
            ),
        forall|i: int, j: int|
            0 <= i < j < entries@.len() ==> !same_lookup(#[trigger] entries@[i], #[trigger] entries@[j]),
        forall|j: int, m: int, p: Pattern|
            #![trigger applied_pattern(reps@[j], moves@[m], p)]
            0 <= j < reps@.len() && 0 <= m < moves@.len() && applied_pattern(reps@[j], moves@[m], p)
                ==> lookup_accounted_within::<C>(p, *phase_mask, entries@, depths@, depths@[j] + 1),
    ensures
        table@.len() == reps@.len(),
        forall|j: int| 0 <= j < table@.len() ==> (#[trigger] table@[j])@.len() == moves@.len(),
        forall|j: int, m: int|
            0 <= j < table@.len() && 0 <= m < moves@.len() ==> move_cell_ok::<C, K>(
                reps@[j],
                moves@[m],
                *phase_mask,
                entries@,
                #[trigger] table@[j]@[m],
            ),
        forall|j: int, m: int|
            0 <= j < table@.len() && 0 <= m < moves@.len() ==> (#[trigger] table@[j]@[m] matches Some(e)
                ==> 0 <= e.key_index() < depths@.len() && depths@[e.key_index()] <= depths@[j] + 1),
{
    let ghost start = *start_pattern;
    let ghost mask = *phase_mask;
    let num_moves = moves.len();
    let mut table: IndexedVec<K, IndexedVec<FlatMoveIndex, Option<K>>> =
        IndexedVec::new();
    let mut j: usize = 0;
    while j < reps.len()
        invariant
            num_moves == moves@.len(),
            start == *start_pattern,
            mask == *phase_mask,
            lookup_table_inputs(start, moves@, mask),
            entries@.len() == reps@.len(),
            depths@.len() == reps@.len(),
            0 <= j <= reps@.len(),
            forall|jj: int|
                #![trigger entries@[jj]]
                #![trigger reps@[jj]]
                0 <= jj < entries@.len() ==> lookup_matches(reps@[jj], mask, entries@[jj])
                    && search_pattern_ok(reps@[jj], start, mask) && reached_by_moves(
                    start,
                    moves@,
                    reps@[jj],
                    depths@[jj] as nat,
                ),
            forall|a: int, b: int|
                0 <= a < b < entries@.len() ==> !same_lookup(#[trigger] entries@[a], #[trigger] entries@[b]),
            forall|jj: int, m: int, p: Pattern|
                #![trigger applied_pattern(reps@[jj], moves@[m], p)]
                0 <= jj < reps@.len() && 0 <= m < moves@.len() && applied_pattern(reps@[jj], moves@[m], p)
                    ==> lookup_accounted_within::<C>(p, mask, entries@, depths@, depths@[jj] + 1),
            table@.len() == j,
            forall|jj: int| 0 <= jj < j ==> (#[trigger] table@[jj])@.len() == num_moves,
            forall|jj: int, m: int|
                0 <= jj < j && 0 <= m < num_moves ==> move_cell_ok::<C, K>(
                    reps@[jj],
                    moves@[m],
                    mask,
                    entries@,
                    #[trigger] table@[jj]@[m],
                ),
            forall|jj: int, m: int|
                0 <= jj < j && 0 <= m < num_moves ==> (#[trigger] table@[jj]@[m] matches Some(e)
                    ==> 0 <= e.key_index() < depths@.len() && depths@[e.key_index()] <= depths@[jj] + 1),
        decreases reps@.len() - j,
    {
        let rep = &reps[j];
        assert(lookup_matches(reps@[j as int], mask, entries@[j as int]));
        assert(search_pattern_ok(reps@[j as int], start, mask));
        assert(reached_by_moves(start, moves@, reps@[j as int], depths@[j as int] as nat));
        let mut row: IndexedVec<FlatMoveIndex, Option<K>> = IndexedVec::new();
        let mut m: usize = 0;
        while m < num_moves
            invariant
                num_moves == moves@.len(),
                start == *start_pattern,
                mask == *phase_mask,
                lookup_table_inputs(start, moves@, mask),
                *rep == reps@[j as int],
                search_pattern_ok(*rep, start, mask),
                reached_by_moves(start, moves@, *rep, depths@[j as int] as nat),
                0 <= j < reps@.len(),
                entries@.len() == reps@.len(),
                depths@.len() == reps@.len(),
                forall|a: int, b: int|
                    0 <= a < b < entries@.len() ==> !same_lookup(#[trigger] entries@[a], #[trigger] entries@[b]),
                forall|jj: int, mm: int, p: Pattern|
                    #![trigger applied_pattern(reps@[jj], moves@[mm], p)]
                    0 <= jj < reps@.len() && 0 <= mm < moves@.len() && applied_pattern(
                        reps@[jj],
                        moves@[mm],
                        p,
                    ) ==> lookup_accounted_within::<C>(p, mask, entries@, depths@, depths@[jj] + 1),
                0 <= m <= num_moves,
                row@.len() == m,
                forall|mm: int|
                    0 <= mm < m ==> move_cell_ok::<C, K>(*rep, moves@[mm], mask, entries@, #[trigger] row@[mm]),
                forall|mm: int|
                    0 <= mm < m ==> (#[trigger] row@[mm] matches Some(e) ==> 0 <= e.key_index() < depths@.len() && depths@[e.key_index()]
                        <= depths@[j as int] + 1),
            decreases num_moves - m,
        {
            proof {
                lemma_fits_same_shape(*rep, start, moves@[m as int]);
            }
            let next = apply_transformation(rep, &moves[m]);
            proof {
                assert(reached_by_moves(start, moves@, next, (depths@[j as int] + 1) as nat)) by {
                    assert(applied_pattern(*rep, moves@[m as int], next));
                }
                assert(mask_passes(next, mask));
                lemma_move_keeps_search_pattern_ok(*rep, moves@[m as int], next, start, mask);
                assert(lookup_accounted_within::<C>(next, mask, entries@, depths@, depths@[j as int] + 1));
            }
            assert(same_pattern_values(next, next));
            let cell = match LookupPattern::try_new::<C>(&next, phase_mask) {
                None => None,
                Some(lp) => match find_lookup(entries, &lp) {
                    Some(e) => {
                        proof {
                            lemma_lookup_by_values(next, next, mask, lp, entries@[e as int]);
                            lemma_not_rejected::<C>(next, next, mask, lp);
                            let e2 = choose|e2: int|
                                0 <= e2 < entries@.len() && lookup_matches(
                                    next,
                                    mask,
                                    #[trigger] entries@[e2],
                                ) && depths@[e2] <= depths@[j as int] + 1;
                            lemma_lookup_unique(next, next, mask, entries@[e2], lp);
                            lemma_distinct_index(entries@, e as int, e2, lp);
                        }
                        Some(K::from_usize(e))
                    },
                    None => {
                        proof {
                            if lookup_rejected::<C>(next, mask) {
                                lemma_not_rejected::<C>(next, next, mask, lp);
                            } else {
                                let e = choose|e: int|
                                    0 <= e < entries@.len() && lookup_matches(
                                        next,
                                        mask,
                                        #[trigger] entries@[e],
                                    ) && depths@[e] <= depths@[j as int] + 1;
                                lemma_lookup_unique(next, next, mask, lp, entries@[e]);
                            }
                        }
                        None
                    },
                },
            };
            assert(move_result::<C, K>(next, mask, entries@, cell));
            proof {
                assert forall|p: Pattern| #[trigger] applied_pattern(*rep, moves@[m as int], p) implies move_result::<C, K>(
                    p,
                    mask,
                    entries@,
                    cell,
                ) by {
                    lemma_applied_unique(*rep, moves@[m as int], next, p);
                    match cell {
                        None => {
                            lemma_rejected_by_values::<C>(next, p, mask);
                        },
                        Some(e) => {
                            let x = entries@[e.key_index()];
                            assert(same_pattern_values(x.masked_pattern, x.masked_pattern));
                            lemma_lookup_by_values(next, p, mask, x, x);
                        },
                    }
                }
            }
            let ghost prev = row@;
            row.push(cell);
            proof {
                assert forall|mm: int| 0 <= mm < m + 1 implies move_cell_ok::<C, K>(
                    *rep,
                    moves@[mm],
                    mask,
                    entries@,
                    #[trigger] row@[mm],
                ) by {
                    if mm < m {
                        assert(row@[mm] == prev[mm]);
                    }
                }
                assert forall|mm: int| 0 <= mm < m + 1 implies (#[trigger] row@[mm] matches Some(e)
                    ==> 0 <= e.key_index() < depths@.len() && depths@[e.key_index()] <= depths@[j as int] + 1) by {
                    if mm < m {
                        assert(row@[mm] == prev[mm]);
                    }
                }
            }
            m += 1;
        }
        let ghost prev_table = table@;
        table.push(row);
        proof {
            assert forall|jj: int| 0 <= jj < j + 1 implies (#[trigger] table@[jj])@.len() == num_moves by {
                if jj < j {
                    assert(table@[jj] == prev_table[jj]);
                }
            }
            assert forall|jj: int, mm: int|
                0 <= jj < j + 1 && 0 <= mm < num_moves implies move_cell_ok::<C, K>(
                reps@[jj],
                moves@[mm],
                mask,
                entries@,
                #[trigger] table@[jj]@[mm],
            ) by {
                if jj < j {
                    assert(table@[jj] == prev_table[jj]);
                }
            }
            assert forall|jj: int, mm: int|
                0 <= jj < j + 1 && 0 <= mm < num_moves implies (#[trigger] table@[jj]@[mm] matches Some(e)
                ==> 0 <= e.key_index() < depths@.len() && depths@[e.key_index()] <= depths@[jj] + 1) by {
                if jj < j {
                    assert(table@[jj] == prev_table[jj]);
                }
            }
        }
        j += 1;
    }
    table
}

/// What the lookup table of a search phase holds (see `build_phase_lookup_table`).
pub open spec fn phase_lookup_table_built<C: PatternValidityChecker>(
    start_pattern: Pattern,
    moves: Seq<Transformation>,
    phase_mask: Pattern,
    r: PhaseLookupTable,
) -> bool {
    &&& r.index_to_lookup_pattern@.len() == r.move_application_table@.len()
    &&& r.index_to_lookup_pattern@.len() == 0 <==> lookup_rejected::<C>(start_pattern, phase_mask)
    &&& forall|i: int, j: int|
        0 <= i < j < r.index_to_lookup_pattern@.len() ==> !same_lookup(
            #[trigger] r.index_to_lookup_pattern@[i],
            #[trigger] r.index_to_lookup_pattern@[j],
        )
    &&& exists|reps: Seq<Pattern>, depths: Seq<usize>|
        lookup_table_built::<C, PhasePatternIndex>(
            start_pattern,
            moves,
            phase_mask,
            r.index_to_lookup_pattern@,
            r.move_application_table@,
            reps,
        ) && depths.len() == reps.len() && forall|j: int|
            0 <= j < reps.len() ==> reached_by_moves(
                start_pattern,
                moves,
                #[trigger] reps[j],
                depths[j] as nat,
            )
}

/// Builds the lookup table of a search phase by a breadth-first search from the start pattern
/// with the given moves: the lookup patterns met (the first one being that of the start
/// pattern), each once, and for each of them and each move, the lookup pattern that the move
/// leads to from the first full pattern met with it (`None` where the phase rejects the result).
pub fn build_phase_lookup_table<C: PatternValidityChecker>(
    start_pattern: &Pattern,
    moves: &Vec<Transformation>,
    phase_mask: &Pattern,
) -> (r: PhaseLookupTable)
    requires
        lookup_table_inputs(*start_pattern, moves@, *phase_mask),
    ensures
        phase_lookup_table_built::<C>(*start_pattern, moves@, *phase_mask, r),

{
    let (entries, reps, depths) = search_lookup_patterns::<C>(start_pattern, moves, phase_mask);
    let table = build_move_table::<C, PhasePatternIndex>(start_pattern, moves, phase_mask, &entries, &reps, &depths);
    let r = PhaseLookupTable { index_to_lookup_pattern: entries, move_application_table: table };
    proof {
        assert(lookup_table_built::<C, PhasePatternIndex>(
            *start_pattern,
            moves@,
            *phase_mask,
            r.index_to_lookup_pattern@,
            r.move_application_table@,
            reps@,
        ));
        assert forall|j: int| 0 <= j < reps@.len() implies reached_by_moves(
            *start_pattern,
            moves@,
            #[trigger] reps@[j],
            depths@[j] as nat,
        ) by {
            assert(lookup_matches(reps@[j], *phase_mask, entries@[j]));
        }
    }
    r
}

/// Moving a cell's lookup patterns to others with the same values keeps the cell right.
proof fn lemma_move_cell_transfer<C: PatternValidityChecker, K: IndexKey>(
    rep: Pattern,
    t: Transformation,
    phase_mask: Pattern,
    entries: Seq<LookupPattern>,
    entries2: Seq<LookupPattern>,
    cell: Option<K>,
)
    requires
        move_cell_ok::<C, K>(rep, t, phase_mask, entries, cell),
        entries2.len() == entries.len(),
        forall|e: int| 0 <= e < entries.len() ==> same_lookup(#[trigger] entries[e], entries2[e]),
    ensures
        move_cell_ok::<C, K>(rep, t, phase_mask, entries2, cell),
{
    assert forall|r: Pattern| #[trigger] applied_pattern(rep, t, r) implies move_result::<C, K>(
        r,
        phase_mask,
        entries2,
        cell,
    ) by {
        assert(move_result::<C, K>(r, phase_mask, entries, cell));
        if let Some(e) = cell {
            let i = e.key_index();
            assert(same_lookup(entries[i], entries2[i]));
            assert(same_pattern_values(r, r));
            lemma_lookup_by_values(r, r, phase_mask, entries[i], entries2[i]);
        }
    }
}

/// The index of a set of phase 1 coordinates in the phase 1 lookup table.
#[derive(Debug, Clone, Copy, PartialEq, Eq, Structural, Hash, Default)]
pub struct PhaseCoordinatesIndex(pub usize);

impl IndexKey for PhaseCoordinatesIndex {
    open spec fn key_index(&self) -> int {
        self.0 as int
    }

    fn from_usize(i: usize) -> (r: Self) {
        PhaseCoordinatesIndex(i)
    }

    fn to_usize(&self) -> (r: usize) {
        self.0
    }
}

/// The lookup pattern that holds the masked pattern and parity of phase 1 coordinates.
pub open spec fn coordinates_lookup(c: Square1Phase1Coordinates) -> LookupPattern {
    LookupPattern { masked_pattern: c.masked_pattern, parity: c.parity }
}

/// The lookup patterns of a sequence of phase 1 coordinates.
pub open spec fn coordinates_lookups(cs: Seq<Square1Phase1Coordinates>) -> Seq<LookupPattern> {
    Seq::new(cs.len(), |i: int| coordinates_lookup(cs[i]))
}

/// The tables of the Square-1 phase 1 search: the coordinates found, what each move makes of
/// them, and the number of moves that first reached each.
pub struct Square1Phase1LookupTableData {
    pub index_to_coordinates: IndexedVec<PhaseCoordinatesIndex, Square1Phase1Coordinates>,
    pub move_application_table: IndexedVec<
        PhaseCoordinatesIndex,
        IndexedVec<FlatMoveIndex, Option<PhaseCoordinatesIndex>>,
    >,
    pub exact_prune_table: IndexedVec<PhaseCoordinatesIndex, usize>,
}

/// The Square-1 phase 1 lookup table, shared.
pub struct Square1Phase1LookupTable {
    pub data: Arc<Square1Phase1LookupTableData>,
}

impl Square1Phase1LookupTable {
    /// The coordinates that the move leads to from the given coordinates.
    pub fn apply_move(
        &self,
        phase_pattern_index: PhaseCoordinatesIndex,
        flat_move_index: FlatMoveIndex,
    ) -> (r: Option<PhaseCoordinatesIndex>)
        requires
            phase_pattern_index.0 < self.data.move_application_table@.len(),
            flat_move_index.0 < self.data.move_application_table@[phase_pattern_index.0 as int]@.len(),
        ensures
            r == self.data.move_application_table@[phase_pattern_index.0 as int]@[flat_move_index.0 as int],
    {
        *self.data.move_application_table.at(phase_pattern_index).at(flat_move_index)
    }

    /// The coordinates that the move leads to from the given ones (see `apply_move`).
    pub fn pattern_apply_transformation(
        &self,
        pattern: &PhaseCoordinatesIndex,
        transformation_to_apply: &FlatMoveIndex,
    ) -> (r: Option<PhaseCoordinatesIndex>)
        requires
            pattern.0 < self.data.move_application_table@.len(),
            transformation_to_apply.0 < self.data.move_application_table@[pattern.0 as int]@.len(),
        ensures
            r == self.data.move_application_table@[pattern.0 as int]@[transformation_to_apply.0 as int],
    {
        self.apply_move(*pattern, *transformation_to_apply)
    }

    /// Writes the coordinates that the move leads to into `into_pattern`, and says whether
    /// there are any (`into_pattern` is left as it was where there are none).
    pub fn pattern_apply_transformation_into(
        &self,
        pattern: &PhaseCoordinatesIndex,
        transformation_to_apply: &FlatMoveIndex,
        into_pattern: &mut PhaseCoordinatesIndex,
    ) -> (r: bool)
        requires
            pattern.0 < self.data.move_application_table@.len(),
            transformation_to_apply.0 < self.data.move_application_table@[pattern.0 as int]@.len(),
        ensures
            ({
                let cell = self.data.move_application_table@[pattern.0 as int]@[transformation_to_apply.0 as int];
                &&& r == cell is Some
                &&& cell matches Some(e) ==> *final(into_pattern) == e
                &&& cell is None ==> *final(into_pattern) == *old(into_pattern)
            }),
    {
        match self.pattern_apply_transformation(pattern, transformation_to_apply) {
            Some(p) => {
                *into_pattern = p;
                true
            },
            None => false,
        }
    }

    /// The index of the coordinates of a full pattern, which the phase accepts and whose
    /// coordinates the table holds.
    pub fn full_pattern_to_coordinates(&self, kpattern: &Pattern, phase_mask: &Pattern) -> (r:
        PhaseCoordinatesIndex)
        requires
            maskable(*kpattern, *phase_mask),
            !lookup_rejected::<Phase1Checker>(*kpattern, *phase_mask),
            exists|e: int|
                0 <= e < self.data.index_to_coordinates@.len() && lookup_matches(
                    *kpattern,
                    *phase_mask,
                    coordinates_lookup(#[trigger] self.data.index_to_coordinates@[e]),
                ),
        ensures
            r.0 < self.data.index_to_coordinates@.len(),
            lookup_matches(
                *kpattern,
                *phase_mask,
                coordinates_lookup(self.data.index_to_coordinates@[r.0 as int]),
            ),
    {
        let coordinates = &self.data.index_to_coordinates;
        let ghost cs = coordinates@;
        match Square1Phase1Coordinates::try_new(kpattern, phase_mask) {
            None => {
                proof {
                    let m = choose|m: Pattern|
                        masked_pattern(*kpattern, *phase_mask, m) && !shape_allows_slice(m.orbits@[0].pieces@);
                    assert(!Phase1Checker::valid_pattern(m));
                    assert(lookup_rejected::<Phase1Checker>(*kpattern, *phase_mask));
                }
                PhaseCoordinatesIndex(0)
            },
            Some(c) => {
                let ghost target = coordinates_lookup(c);
                assert(lookup_matches(*kpattern, *phase_mask, target));
                let n = coordinates.len();
                let mut i: usize = 0;
                while i < n
                    invariant
                        0 <= i <= n,
                        n == cs.len(),
                        cs == self.data.index_to_coordinates@,
                        *coordinates == self.data.index_to_coordinates,
                        lookup_matches(*kpattern, *phase_mask, target),
                        target == coordinates_lookup(c),
                        forall|e: int| 0 <= e < i ==> !lookup_matches(*kpattern, *phase_mask, coordinates_lookup(#[trigger] cs[e])),
                    decreases n - i,
                {
                    let candidate = coordinates.at(PhaseCoordinatesIndex(i));
                    let same = candidate.parity == c.parity && patterns_equal(&candidate.masked_pattern, &c.masked_pattern);
                    proof {
                        assert(same_pattern_values(*kpattern, *kpattern));
                        if same {
                            lemma_same_values_symmetric(candidate.masked_pattern, c.masked_pattern);
                            lemma_lookup_by_values(*kpattern, *kpattern, *phase_mask, target, coordinates_lookup(*candidate));
                        } else if lookup_matches(*kpattern, *phase_mask, coordinates_lookup(*candidate)) {
                            lemma_lookup_unique(*kpattern, *kpattern, *phase_mask, coordinates_lookup(*candidate), target);
                            assert(false);
                        }
                    }
                    if same {
                        return PhaseCoordinatesIndex(i);
                    }
                    i += 1;
                }
                proof {
                    let e = choose|e: int|
                        0 <= e < cs.len() && lookup_matches(*kpattern, *phase_mask, coordinates_lookup(#[trigger] cs[e]));
                    assert(!lookup_matches(*kpattern, *phase_mask, coordinates_lookup(cs[e])));
                }
                PhaseCoordinatesIndex(0)
            },
        }
    }
}

/// The prune table of the Square-1 phase 1 search: the exact depth of each coordinates.
pub struct Square1Phase1PruneTable {
    pub tpuzzle: Square1Phase1LookupTable,
}

impl Square1Phase1PruneTable {
    /// The depth of the coordinates at the given index.
    pub fn lookup(&self, coordinates: &PhaseCoordinatesIndex) -> (r: usize)
        requires
            coordinates.0 < self.tpuzzle.data.exact_prune_table@.len(),
        ensures
            r == self.tpuzzle.data.exact_prune_table@[coordinates.0 as int],
    {
        *self.tpuzzle.data.exact_prune_table.at(*coordinates)
    }
}

/// What the Square-1 phase 1 lookup table holds (see `build_phase1_lookup_table`).
pub open spec fn phase1_lookup_table_built(
    start_pattern: Pattern,
    moves: Seq<Transformation>,
    phase_mask: Pattern,
    r: Square1Phase1LookupTable,
) -> bool {
    let coordinates = r.data.index_to_coordinates@;
    let rows = r.data.move_application_table@;
    let depths = r.data.exact_prune_table@;
    &&& rows.len() == coordinates.len()
    &&& depths.len() == coordinates.len()
    &&& coordinates.len() == 0 <==> lookup_rejected::<Phase1Checker>(start_pattern, phase_mask)
    &&& coordinates.len() > 0 ==> depths[0] == 0
    &&& forall|i: int, j: int|
        0 <= i < j < coordinates.len() ==> !same_lookup(
            coordinates_lookup(#[trigger] coordinates[i]),
            coordinates_lookup(#[trigger] coordinates[j]),
        )
    &&& forall|j: int, m: int|
        0 <= j < rows.len() && 0 <= m < moves.len() ==> (#[trigger] rows[j]@[m] matches Some(e)
            ==> depths[e.0 as int] <= depths[j] + 1)
    &&& exists|reps: Seq<Pattern>|
        lookup_table_built::<Phase1Checker, PhaseCoordinatesIndex>(
            start_pattern,
            moves,
            phase_mask,
            coordinates_lookups(coordinates),
            rows,
            reps,
        ) && forall|j: int|
            0 <= j < reps.len() ==> reached_by_moves(
                start_pattern,
                moves,
                #[trigger] reps[j],
                depths[j] as nat,
            )
}

/// Builds the Square-1 phase 1 lookup table by a breadth-first search from the start pattern
/// with the given moves: the coordinates met (the first being those of the start pattern),
/// each once, what each move makes of them (see `build_phase_lookup_table`), and for each the
/// number of moves that first reached it, which each move raises by at most one.
pub fn build_phase1_lookup_table(start_pattern: &Pattern, moves: &Vec<Transformation>, phase_mask: &Pattern) -> (r:
    Square1Phase1LookupTable)
    requires
        lookup_table_inputs(*start_pattern, moves@, *phase_mask),
    ensures
        phase1_lookup_table_built(*start_pattern, moves@, *phase_mask, r),

{
    let (entries, reps, depths) = search_lookup_patterns::<Phase1Checker>(start_pattern, moves, phase_mask);
    let move_application_table = build_move_table::<Phase1Checker, PhaseCoordinatesIndex>(
        start_pattern,
        moves,
        phase_mask,
        &entries,
        &reps,
        &depths,
    );
    let mut index_to_coordinates: IndexedVec<PhaseCoordinatesIndex, Square1Phase1Coordinates> =
        IndexedVec::new();
    let mut exact_prune_table: IndexedVec<PhaseCoordinatesIndex, usize> = IndexedVec::new();
    let n = entries.len();
    let mut j: usize = 0;
    while j < n
        invariant
            0 <= j <= n,
            n == entries@.len(),
            depths@.len() == n,
            index_to_coordinates@.len() == j,
            exact_prune_table@.len() == j,
            forall|jj: int|
                0 <= jj < j ==> same_lookup(#[trigger] entries@[jj], coordinates_lookup(index_to_coordinates@[jj])),
            forall|jj: int| 0 <= jj < j ==> #[trigger] exact_prune_table@[jj] == depths@[jj],
        decreases n - j,
    {
        let entry = entries.at(PhasePatternIndex(j));
        let masked_pattern = clone_pattern(&entry.masked_pattern);
        proof {
            lemma_same_values_symmetric(masked_pattern, entry.masked_pattern);
        }
        let ghost prev_coordinates = index_to_coordinates@;
        let ghost prev_prune = exact_prune_table@;
        index_to_coordinates.push(Square1Phase1Coordinates { masked_pattern, parity: entry.parity });
        exact_prune_table.push(depths[j]);
        proof {
            assert forall|jj: int| 0 <= jj < j + 1 implies same_lookup(
                #[trigger] entries@[jj],
                coordinates_lookup(index_to_coordinates@[jj]),
            ) by {
                if jj < j {
                    assert(index_to_coordinates@[jj] == prev_coordinates[jj]);
                }
            }
            assert forall|jj: int| 0 <= jj < j + 1 implies #[trigger] exact_prune_table@[jj] == depths@[jj] by {
                if jj < j {
                    assert(exact_prune_table@[jj] == prev_prune[jj]);
                }
            }
        }
        j += 1;
    }
    let data = Square1Phase1LookupTableData {
        index_to_coordinates,
        move_application_table,
        exact_prune_table,
    };
    proof {
        let coordinates = data.index_to_coordinates@;
        let lookups = coordinates_lookups(coordinates);
        let rows = data.move_application_table@;
        assert forall|e: int| 0 <= e < entries@.len() implies same_lookup(#[trigger] entries@[e], lookups[e]) by {
            assert(same_lookup(entries@[e], coordinates_lookup(coordinates[e])));
        }
        assert forall|i: int, k: int|
            0 <= i < k < coordinates.len() implies !same_lookup(
            coordinates_lookup(#[trigger] coordinates[i]),
            coordinates_lookup(#[trigger] coordinates[k]),
        ) by {
            assert(same_lookup(entries@[i], coordinates_lookup(coordinates[i])));
            assert(same_lookup(entries@[k], coordinates_lookup(coordinates[k])));
            if same_lookup(coordinates_lookup(coordinates[i]), coordinates_lookup(coordinates[k])) {
                lemma_same_values_transitive(
                    entries@[i].masked_pattern,
                    coordinates[i].masked_pattern,
                    coordinates[k].masked_pattern,
                );
                lemma_same_values_symmetric(entries@[k].masked_pattern, coordinates[k].masked_pattern);
                lemma_same_values_transitive(
                    entries@[i].masked_pattern,
                    coordinates[k].masked_pattern,
                    entries@[k].masked_pattern,
                );
                assert(!same_lookup(entries@[i], entries@[k]));
            }
        }
        assert forall|k: int|
            #![trigger lookups[k]]
            #![trigger reps@[k]]
            0 <= k < lookups.len() implies lookup_matches(reps@[k], *phase_mask, lookups[k])
                && Phase1Checker::valid_pattern(lookups[k].masked_pattern) by {
            assert(same_lookup(entries@[k], lookups[k]));
            assert(same_pattern_values(reps@[k], reps@[k]));
            lemma_lookup_by_values(reps@[k], reps@[k], *phase_mask, entries@[k], lookups[k]);
            Phase1Checker::lemma_valid_pattern_by_values(entries@[k].masked_pattern, lookups[k].masked_pattern);
        }
        assert forall|k: int, m: int|
            0 <= k < rows.len() && 0 <= m < moves@.len() implies move_cell_ok::<Phase1Checker, PhaseCoordinatesIndex>(
            reps@[k],
            moves@[m],
            *phase_mask,
            lookups,
            #[trigger] rows[k]@[m],
        ) by {
            lemma_move_cell_transfer::<Phase1Checker, PhaseCoordinatesIndex>(
                reps@[k],
                moves@[m],
                *phase_mask,
                entries@,
                lookups,
                rows[k]@[m],
            );
        }
        assert(lookup_table_built::<Phase1Checker, PhaseCoordinatesIndex>(
            *start_pattern,
            moves@,
            *phase_mask,
            lookups,
            rows,
            reps@,
        ));
        assert forall|k: int| 0 <= k < reps@.len() implies reached_by_moves(
            *start_pattern,
            moves@,
            #[trigger] reps@[k],
            data.exact_prune_table@[k] as nat,
        ) by {
            assert(lookup_matches(reps@[k], *phase_mask, entries@[k]));
            assert(data.exact_prune_table@[k] == depths@[k]);
        }
        assert forall|k: int, m: int|
            0 <= k < rows.len() && 0 <= m < moves@.len() implies (#[trigger] rows[k]@[m] matches Some(e)
            ==> data.exact_prune_table@[e.0 as int] <= data.exact_prune_table@[k] + 1) by {
            if let Some(e) = rows[k]@[m] {
                assert(data.exact_prune_table@[e.0 as int] == depths@[e.0 as int]);
                assert(data.exact_prune_table@[k] == depths@[k]);
            }
        }
        if coordinates.len() > 0 {
            assert(data.exact_prune_table@[0] == depths@[0]);
        }
    }
    Square1Phase1LookupTable { data: Arc::new(data) }
}

} // verus!
