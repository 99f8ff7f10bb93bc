use vstd::prelude::*;

use crate::pattern::{
    clone_pattern, mask, mask_passes, masked_pattern, orbit_wf, pattern_wf, pieces_in_range,
    same_orbit_values,
    transfer_orbit, Pattern, PatternOrbit,
};
use crate::parity::{basic_parity, parity_bit, permutation_parity};
use crate::transformation::{
    applied_orbit, applied_pattern, apply_transformation, transformation_fits, Transformation,
};
use crate::wings::{
    canonicalize_wings, canonicalized_wings, derive_phase4_edges, phase3_pll_parity_orientation,
    phase4_edges, pll_parity_orientation, valid_wings,
};

verus! {

/// A 4x4x4 pattern: `CORNERS`, `WINGS` (24 wings) and `CENTERS` as its first three orbits.
pub open spec fn cube4x4x4_pattern(p: Pattern) -> bool {
    &&& pattern_wf(p)
    &&& p.orbits@.len() >= 3
    &&& valid_wings(p.orbits@[1].pieces@)
}

/// The phase 3 pattern before masking: from the phase 3 default pattern `d`, the source's wings
/// relabelled canonically in orbit 0, the source's centers in orbit 1, and the PLL parity as
/// the orientation of the one piece of orbit 2.
pub open spec fn phase3_unmasked(source: Pattern, d: Pattern, u: Pattern) -> bool {
    let sw = source.orbits@[1];
    let sc = source.orbits@[2];
    &&& u.orbits@.len() == d.orbits@.len()
    &&& u.orbits@[0].name@ == d.orbits@[0].name@
    &&& u.orbits@[0].num_orientations == sw.num_orientations
    &&& u.orbits@[0].pieces@ == canonicalized_wings(sw.pieces@)
    &&& u.orbits@[0].orientations@ == sw.orientations@
    &&& u.orbits@[0].orientation_mods@ == sw.orientation_mods@
    &&& u.orbits@[1].name@ == d.orbits@[1].name@
    &&& u.orbits@[1].num_orientations == sc.num_orientations
    &&& u.orbits@[1].pieces@ == sc.pieces@
    &&& u.orbits@[1].orientations@ == sc.orientations@
    &&& u.orbits@[1].orientation_mods@ == sc.orientation_mods@
    &&& u.orbits@[2].name@ == d.orbits@[2].name@
    &&& u.orbits@[2].num_orientations == d.orbits@[2].num_orientations
    &&& u.orbits@[2].pieces@ == d.orbits@[2].pieces@
    &&& u.orbits@[2].orientations@ == d.orbits@[2].orientations@.update(
        0,
        pll_parity_orientation(source.orbits@[0].pieces@, sw.pieces@),
    )
    &&& u.orbits@[2].orientation_mods@ == d.orbits@[2].orientation_mods@.update(0, 0)
    &&& forall|k: int| 3 <= k < d.orbits@.len() ==> same_orbit_values(#[trigger] u.orbits@[k], d.orbits@[k])
}

/// Derives the phase 3 pattern (wings, centers and PLL parity) of a 4x4x4 pattern.
pub struct Cube4x4x4Phase3PatternDeriver {
    /// The default pattern of the phase 3 puzzle, which is also its mask.
    pub phase3_default_pattern: Pattern,
}

impl Cube4x4x4Phase3PatternDeriver {
    /// The phase 3 pattern of a 4x4x4 pattern: the unmasked pattern (see `phase3_unmasked`)
    /// seen through the phase 3 mask, or `None` where the mask does not apply.
    pub fn derive_pattern(&self, source_puzzle_pattern: &Pattern) -> (r: Option<Pattern>)
        requires
            cube4x4x4_pattern(*source_puzzle_pattern),
            pieces_in_range(*source_puzzle_pattern),
            pattern_wf(self.phase3_default_pattern),
            pieces_in_range(self.phase3_default_pattern),
            self.phase3_default_pattern.orbits@.len() >= 3,
            self.phase3_default_pattern.orbits@[0].pieces@.len() == 24,
            self.phase3_default_pattern.orbits@[0].num_orientations
                == source_puzzle_pattern.orbits@[1].num_orientations,
            self.phase3_default_pattern.orbits@[1].pieces@.len()
                == source_puzzle_pattern.orbits@[2].pieces@.len(),
            self.phase3_default_pattern.orbits@[1].num_orientations
                == source_puzzle_pattern.orbits@[2].num_orientations,
            self.phase3_default_pattern.orbits@[2].pieces@.len() >= 1,
        ensures
            exists|u: Pattern|
                phase3_unmasked(*source_puzzle_pattern, self.phase3_default_pattern, u) && (r is Some
                    <==> mask_passes(u, self.phase3_default_pattern)) && (r matches Some(p)
                    ==> masked_pattern(u, self.phase3_default_pattern, p)),
    {
        let d = &self.phase3_default_pattern;
        let source = source_puzzle_pattern;
        assert(orbit_wf(source.orbits@[1]));
        assert(orbit_wf(source.orbits@[2]));
        assert(orbit_wf(d.orbits@[0]));
        assert(orbit_wf(d.orbits@[1]));
        assert(orbit_wf(d.orbits@[2]));
        let mut unmasked_pattern = clone_pattern(d);
        transfer_orbit(source, 1, &mut unmasked_pattern, 0);
        canonicalize_wings(unmasked_pattern.orbits[0].pieces.as_mut_slice());
        transfer_orbit(source, 2, &mut unmasked_pattern, 1);
        let orientation = phase3_pll_parity_orientation(
            source.orbits[0].pieces.as_slice(),
            source.orbits[1].pieces.as_slice(),
        );
        unmasked_pattern.orbits[2].orientations[0] = orientation;
        unmasked_pattern.orbits[2].orientation_mods[0] = 0;
        proof {
            assert(unmasked_pattern.orbits@[2].orientations@ =~= d.orbits@[2].orientations@.update(
                0,
                pll_parity_orientation(source.orbits@[0].pieces@, source.orbits@[1].pieces@),
            ));
            assert(unmasked_pattern.orbits@[2].orientation_mods@ =~= d.orbits@[2].orientation_mods@.update(0, 0));
            assert forall|k: int| 3 <= k < d.orbits@.len() implies same_orbit_values(
                #[trigger] unmasked_pattern.orbits@[k],
                d.orbits@[k],
            ) by {}
            assert(phase3_unmasked(*source, *d, unmasked_pattern));
            assert forall|k: int| 0 <= k < unmasked_pattern.orbits@.len() implies orbit_wf(
                #[trigger] unmasked_pattern.orbits@[k],
            ) by {
                assert(orbit_wf(d.orbits@[k]));
            }
            assert forall|k: int, i: int|
                0 <= k < unmasked_pattern.orbits@.len() && 0 <= i
                    < unmasked_pattern.orbits@[k].pieces@.len() implies (
            #[trigger] unmasked_pattern.orbits@[k].pieces@[i]) < unmasked_pattern.orbits@[k].pieces@.len() by {
                if k == 0 {
                } else if k == 1 {
                    assert(source.orbits@[2].pieces@[i] < source.orbits@[2].pieces@.len());
                } else {
                    assert(d.orbits@[k].pieces@[i] < d.orbits@[k].pieces@.len());
                }
            }
        }
        let r = match mask(&unmasked_pattern, d) {
            Ok(p) => Some(p),
            Err(_) => None,
        };
        r
    }
}

/// The phase 2 pattern before masking: from the phase 2 default pattern `d`, the source's
/// centers in orbit 0, and the parity of the source's wing permutation as the orientation of
/// the one piece of orbit 1.
pub open spec fn phase2_unmasked(source: Pattern, d: Pattern, u: Pattern) -> bool {
    let sc = source.orbits@[2];
    &&& u.orbits@.len() == d.orbits@.len()
    &&& u.orbits@[0].name@ == d.orbits@[0].name@
    &&& u.orbits@[0].num_orientations == sc.num_orientations
    &&& u.orbits@[0].pieces@ == sc.pieces@
    &&& u.orbits@[0].orientations@ == sc.orientations@
    &&& u.orbits@[0].orientation_mods@ == sc.orientation_mods@
    &&& u.orbits@[1].name@ == d.orbits@[1].name@
    &&& u.orbits@[1].num_orientations == d.orbits@[1].num_orientations
    &&& u.orbits@[1].pieces@ == d.orbits@[1].pieces@
    &&& u.orbits@[1].orientations@ == d.orbits@[1].orientations@.update(
        0,
        parity_bit(permutation_parity(source.orbits@[1].pieces@)),
    )
    &&& u.orbits@[1].orientation_mods@ == d.orbits@[1].orientation_mods@.update(0, 0)
    &&& forall|k: int| 2 <= k < d.orbits@.len() ==> same_orbit_values(#[trigger] u.orbits@[k], d.orbits@[k])
}

/// Derives the phase 2 pattern (centers and wing parity) of a 4x4x4 pattern.
pub struct Cube4x4x4Phase2PatternDeriver {
    /// The default pattern of the phase 2 puzzle, which is also its mask.
    pub phase2_default_pattern: Pattern,
}

impl Cube4x4x4Phase2PatternDeriver {
    /// The phase 2 pattern of a 4x4x4 pattern: the unmasked pattern (see `phase2_unmasked`)
    /// seen through the phase 2 mask.
    pub fn derive_pattern(&self, source_puzzle_pattern: &Pattern) -> (r: Option<Pattern>)
        requires
            cube4x4x4_pattern(*source_puzzle_pattern),
            pieces_in_range(*source_puzzle_pattern),
            pattern_wf(self.phase2_default_pattern),
            pieces_in_range(self.phase2_default_pattern),
            self.phase2_default_pattern.orbits@.len() >= 2,
            self.phase2_default_pattern.orbits@[0].pieces@.len()
                == source_puzzle_pattern.orbits@[2].pieces@.len(),
            self.phase2_default_pattern.orbits@[0].num_orientations
                == source_puzzle_pattern.orbits@[2].num_orientations,
            self.phase2_default_pattern.orbits@[1].pieces@.len() >= 1,
            forall|u: Pattern|
                phase2_unmasked(*source_puzzle_pattern, self.phase2_default_pattern, u)
                    ==> mask_passes(u, self.phase2_default_pattern),
        ensures
            exists|u: Pattern|
                phase2_unmasked(*source_puzzle_pattern, self.phase2_default_pattern, u) && (r matches Some(p)
                    && masked_pattern(u, self.phase2_default_pattern, p)),
    {
        let d = &self.phase2_default_pattern;
        let source = source_puzzle_pattern;
        assert(orbit_wf(source.orbits@[1]));
        assert(orbit_wf(source.orbits@[2]));
        assert(orbit_wf(d.orbits@[0]));
        assert(orbit_wf(d.orbits@[1]));
        let mut unmasked_pattern = clone_pattern(d);
        transfer_orbit(source, 2, &mut unmasked_pattern, 0);
        let parity = basic_parity(source.orbits[1].pieces.as_slice());
        unmasked_pattern.orbits[1].orientations[0] = parity.to_0_or_1();
        unmasked_pattern.orbits[1].orientation_mods[0] = 0;
        proof {
            assert(unmasked_pattern.orbits@[1].orientations@ =~= d.orbits@[1].orientations@.update(
                0,
                parity_bit(permutation_parity(source.orbits@[1].pieces@)),
            ));
            assert(unmasked_pattern.orbits@[1].orientation_mods@ =~= d.orbits@[1].orientation_mods@.update(0, 0));
            assert forall|k: int| 2 <= k < d.orbits@.len() implies same_orbit_values(
                #[trigger] unmasked_pattern.orbits@[k],
                d.orbits@[k],
            ) by {}
            assert(phase2_unmasked(*source, *d, unmasked_pattern));
            assert forall|k: int| 0 <= k < unmasked_pattern.orbits@.len() implies orbit_wf(
                #[trigger] unmasked_pattern.orbits@[k],
            ) by {
                assert(orbit_wf(d.orbits@[k]));
            }
            assert forall|k: int, i: int|
                0 <= k < unmasked_pattern.orbits@.len() && 0 <= i
                    < unmasked_pattern.orbits@[k].pieces@.len() implies (
            #[trigger] unmasked_pattern.orbits@[k].pieces@[i]) < unmasked_pattern.orbits@[k].pieces@.len() by {
                if k == 0 {
                    assert(source.orbits@[2].pieces@[i] < source.orbits@[2].pieces@.len());
                } else {
                    assert(d.orbits@[k].pieces@[i] < d.orbits@[k].pieces@.len());
                }
            }
        }
        match mask(&unmasked_pattern, d) {
            Ok(p) => Some(p),
            Err(_) => None,
        }
    }
}

/// The pattern `p` is `a` with the wings of its first orbit relabelled canonically.
pub open spec fn wings_canonicalized(a: Pattern, p: Pattern) -> bool {
    &&& p.orbits@.len() == a.orbits@.len()
    &&& p.orbits@[0].name@ == a.orbits@[0].name@
    &&& p.orbits@[0].num_orientations == a.orbits@[0].num_orientations
    &&& p.orbits@[0].pieces@ == canonicalized_wings(a.orbits@[0].pieces@)
    &&& p.orbits@[0].orientations@ == a.orbits@[0].orientations@
    &&& p.orbits@[0].orientation_mods@ == a.orbits@[0].orientation_mods@
    &&& forall|k: int| 1 <= k < a.orbits@.len() ==> same_orbit_values(#[trigger] p.orbits@[k], a.orbits@[k])
}

/// The phase 3 puzzle: phase 3 patterns (wings first) whose wings are kept in canonical form.
pub struct Cube4x4x4Phase3Puzzle {}

/// A phase 3 pattern that the transformation can act on.
pub open spec fn phase3_move_inputs(pattern: Pattern, t: Transformation) -> bool {
    &&& pattern_wf(pattern)
    &&& pattern.orbits@.len() >= 1
    &&& valid_wings(pattern.orbits@[0].pieces@)
    &&& transformation_fits(pattern, t)
}

impl Cube4x4x4Phase3Puzzle {
    /// The transformation applied to the pattern, with the wings relabelled canonically.
    fn apply_and_canonicalize(pattern: &Pattern, transformation_to_apply: &Transformation) -> (r: Pattern)
        requires
            phase3_move_inputs(*pattern, *transformation_to_apply),
        ensures
            exists|a: Pattern| applied_pattern(*pattern, *transformation_to_apply, a) && wings_canonicalized(a, r),
    {
        let mut applied = apply_transformation(pattern, transformation_to_apply);
        let ghost a = applied;
        proof {
            assert(applied_orbit(pattern.orbits@[0], transformation_to_apply.orbits@[0], a.orbits@[0]));
            assert forall|i: int| 0 <= i < a.orbits@[0].pieces@.len() implies #[trigger] a.orbits@[0].pieces@[i] < 24 by {
                let from = transformation_to_apply.orbits@[0].permutation@[i] as int;
                assert(pattern.orbits@[0].pieces@[from] < 24);
            }
        }
        canonicalize_wings(applied.orbits[0].pieces.as_mut_slice());
        proof {
            assert forall|k: int| 1 <= k < a.orbits@.len() implies same_orbit_values(
                #[trigger] applied.orbits@[k],
                a.orbits@[k],
            ) by {}
            assert(applied.orbits@[0].orientations@ == a.orbits@[0].orientations@);
            assert(applied.orbits@[0].pieces@ == canonicalized_wings(a.orbits@[0].pieces@));
            assert(wings_canonicalized(a, applied));
            assert(applied_pattern(*pattern, *transformation_to_apply, a));
        }
        applied
    }

    /// What the transformation makes of a phase 3 pattern: its result with the wings
    /// relabelled canonically.
    pub fn pattern_apply_transformation(&self, pattern: &Pattern, transformation_to_apply: &Transformation) -> (r:
        Option<Pattern>)
        requires
            phase3_move_inputs(*pattern, *transformation_to_apply),
        ensures
            r matches Some(p) && exists|a: Pattern|
                applied_pattern(*pattern, *transformation_to_apply, a) && wings_canonicalized(a, p),
    {
        let p = Self::apply_and_canonicalize(pattern, transformation_to_apply);
        let r = Some(p);
        assert(r matches Some(q) && q == p);
        r
    }

    /// Writes what the transformation makes of a phase 3 pattern into `into_pattern` (see
    /// `pattern_apply_transformation`); this always succeeds.
    pub fn pattern_apply_transformation_into(
        &self,
        pattern: &Pattern,
        transformation_to_apply: &Transformation,
        into_pattern: &mut Pattern,
    ) -> (r: bool)
        requires
            phase3_move_inputs(*pattern, *transformation_to_apply),
        ensures
            r,
            exists|a: Pattern|
                applied_pattern(*pattern, *transformation_to_apply, a) && wings_canonicalized(a, *final(into_pattern)),
    {
        *into_pattern = Self::apply_and_canonicalize(pattern, transformation_to_apply);
        true
    }
}

/// The reduced 3x3x3 pattern of phase 4: from the 3x3x3 default pattern `d`, the 4x4x4 corners
/// in orbit 1 and the 3x3x3 edges that the wings make in orbit 0 (orientation modulus 0).
pub open spec fn phase4_pattern(source: Pattern, d: Pattern, p: Pattern) -> bool {
    let sc = source.orbits@[0];
    &&& p.orbits@.len() == d.orbits@.len()
    &&& p.orbits@[0].name@ == d.orbits@[0].name@
    &&& p.orbits@[0].num_orientations == d.orbits@[0].num_orientations
    &&& p.orbits@[0].pieces@ == phase4_edges(source.orbits@[1].pieces@).0
    &&& p.orbits@[0].orientations@ == phase4_edges(source.orbits@[1].pieces@).1
    &&& p.orbits@[0].orientation_mods@ == Seq::new(12, |i: int| 0u8)
    &&& p.orbits@[1].name@ == d.orbits@[1].name@
    &&& p.orbits@[1].num_orientations == sc.num_orientations
    &&& p.orbits@[1].pieces@ == sc.pieces@
    &&& p.orbits@[1].orientations@ == sc.orientations@
    &&& p.orbits@[1].orientation_mods@ == sc.orientation_mods@
    &&& forall|k: int| 2 <= k < d.orbits@.len() ==> same_orbit_values(#[trigger] p.orbits@[k], d.orbits@[k])
}

/// The reduced 3x3x3 of phase 4.
pub struct Cube4x4x4Phase4Puzzle {
    /// The default pattern of the 3x3x3.
    pub cube3x3x3_default_pattern: Pattern,
}

impl Cube4x4x4Phase4Puzzle {
    /// The 3x3x3 pattern of a reduced 4x4x4 pattern: its corners, and the edges that its wings
    /// make.
    pub fn derive_pattern(&self, source_puzzle_pattern: &Pattern) -> (r: Option<Pattern>)
        requires
            cube4x4x4_pattern(*source_puzzle_pattern),
            pattern_wf(self.cube3x3x3_default_pattern),
            self.cube3x3x3_default_pattern.orbits@.len() >= 2,
            self.cube3x3x3_default_pattern.orbits@[0].pieces@.len() == 12,
            self.cube3x3x3_default_pattern.orbits@[1].pieces@.len()
                == source_puzzle_pattern.orbits@[0].pieces@.len(),
            self.cube3x3x3_default_pattern.orbits@[1].num_orientations
                == source_puzzle_pattern.orbits@[0].num_orientations,
        ensures
            r matches Some(p) && phase4_pattern(*source_puzzle_pattern, self.cube3x3x3_default_pattern, p),
    {
        let d = &self.cube3x3x3_default_pattern;
        let source = source_puzzle_pattern;
        assert(orbit_wf(source.orbits@[0]));
        let mut pattern = clone_pattern(d);
        transfer_orbit(source, 0, &mut pattern, 1);
        let (pieces, orientations) = derive_phase4_edges(source.orbits[1].pieces.as_slice());
        let mut orientation_mods: Vec<u8> = Vec::new();
        while orientation_mods.len() < 12
            invariant
                orientation_mods@.len() <= 12,
                forall|i: int| 0 <= i < orientation_mods@.len() ==> #[trigger] orientation_mods@[i] == 0,
            decreases 12 - orientation_mods@.len(),
        {
            orientation_mods.push(0);
        }
        assert(orientation_mods@ =~= Seq::new(12, |i: int| 0u8));
        let edges = PatternOrbit {
            name: pattern.orbits[0].name.clone(),
            num_orientations: pattern.orbits[0].num_orientations,
            pieces,
            orientations,
            orientation_mods,
        };
        let ghost before = pattern.orbits@;
        pattern.orbits.set(0, edges);
        proof {
            assert forall|k: int| 2 <= k < d.orbits@.len() implies same_orbit_values(
                #[trigger] pattern.orbits@[k],
                d.orbits@[k],
            ) by {
                assert(pattern.orbits@[k] == before[k]);
            }
            assert(pattern.orbits@[1] == before[1]);
        }
        Some(pattern)
    }
}

} // verus!
