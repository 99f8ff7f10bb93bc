use vstd::prelude::*;
use vstd::string::StringExecFns;

use crate::puzzle::PuzzleError;

verus! {

/// What a puzzle definition says of one orbit: its name, its number of pieces and its number
/// of orientations.
pub struct OrbitInfo {
    pub name: String,
    pub num_pieces: u8,
    pub num_orientations: u8,
}

/// One orbit of a pattern: for each position, the piece there, its orientation, and its
/// orientation modulus (0 stands for the orbit's full number of orientations).
pub struct PatternOrbit {
    pub name: String,
    pub num_orientations: u8,
    pub pieces: Vec<u8>,
    pub orientations: Vec<u8>,
    pub orientation_mods: Vec<u8>,
}

/// A pattern of a puzzle, orbit by orbit.
pub struct Pattern {
    pub orbits: Vec<PatternOrbit>,
}

/// The three per-position sequences of an orbit have one length.
pub open spec fn orbit_wf(o: PatternOrbit) -> bool {
    &&& o.orientations@.len() == o.pieces@.len()
    &&& o.orientation_mods@.len() == o.pieces@.len()
    &&& o.num_orientations >= 1
}

/// Every orbit of the pattern is well formed.
pub open spec fn pattern_wf(p: Pattern) -> bool {
    forall|k: int| 0 <= k < p.orbits@.len() ==> orbit_wf(#[trigger] p.orbits@[k])
}

/// Every piece of the pattern names a position of its orbit.
pub open spec fn pieces_in_range(p: Pattern) -> bool {
    forall|k: int, i: int|
        0 <= k < p.orbits@.len() && 0 <= i < p.orbits@[k].pieces@.len() ==> (
        #[trigger] p.orbits@[k].pieces@[i]) < p.orbits@[k].pieces@.len()
}

/// Two patterns of one puzzle: the same orbits, with the same sizes and orientation counts.
pub open spec fn same_shape(a: Pattern, b: Pattern) -> bool {
    &&& a.orbits@.len() == b.orbits@.len()
    &&& forall|k: int|
        0 <= k < a.orbits@.len() ==> {
            &&& (#[trigger] a.orbits@[k]).pieces@.len() == b.orbits@[k].pieces@.len()
            &&& a.orbits@[k].num_orientations == b.orbits@[k].num_orientations
        }
}

/// An orientation modulus, with 0 read as the orbit's number of orientations.
pub open spec fn effective_mod(m: u8, num_orientations: u8) -> int {
    if m == 0 {
        num_orientations as int
    } else {
        m as int
    }
}

/// What masking finds at position `i`: 0 when it can go on, 1 when the mask orients the
/// piece there, 2 when the two orientation moduli do not divide one another.
pub open spec fn mask_check(s: PatternOrbit, m: PatternOrbit, i: int) -> int {
    if m.orientations@[i] != 0 {
        1
    } else {
        let sm = effective_mod(s.orientation_mods@[i], s.num_orientations);
        let mm = effective_mod(m.orientation_mods@[i], s.num_orientations);
        if sm % mm != 0 && mm % sm != 0 {
            2
        } else {
            0
        }
    }
}

/// The error text for what `mask_check` found.
pub open spec fn mask_error_text(check: int) -> Seq<char> {
    if check == 1 {
        "Masks cannot currently have piece orientation"@
    } else {
        "Incompatible orientation mod in mask"@
    }
}

/// The modulus kept at position `i`: the smaller of the two.
pub open spec fn masked_mod(s: PatternOrbit, m: PatternOrbit, i: int) -> int {
    let sm = effective_mod(s.orientation_mods@[i], s.num_orientations);
    let mm = effective_mod(m.orientation_mods@[i], s.num_orientations);
    if sm < mm {
        sm
    } else {
        mm
    }
}

/// The orbit `o` is the orbit `s` seen through the mask orbit `m`: each piece is replaced by
/// what the mask has at that piece's position, each orientation is reduced modulo the smaller
/// modulus, and that modulus is kept (as 0 when it is the full number of orientations).
pub open spec fn masked_orbit(s: PatternOrbit, m: PatternOrbit, o: PatternOrbit) -> bool {
    &&& o.name@ == m.name@
    &&& o.num_orientations == m.num_orientations
    &&& o.pieces@.len() == s.pieces@.len()
    &&& o.orientations@.len() == s.pieces@.len()
    &&& o.orientation_mods@.len() == s.pieces@.len()
    &&& forall|i: int|
        0 <= i < s.pieces@.len() ==> {
            &&& #[trigger] o.pieces@[i] == m.pieces@[s.pieces@[i] as int]
            &&& o.orientations@[i] == (s.orientations@[i] as int) % masked_mod(s, m, i)
            &&& o.orientation_mods@[i] == (if masked_mod(s, m, i) == s.num_orientations {
                0
            } else {
                masked_mod(s, m, i)
            })
        }
}

/// The pattern `p` is `source` seen through `mask_pattern`, orbit by orbit.
pub open spec fn masked_pattern(source: Pattern, mask_pattern: Pattern, p: Pattern) -> bool {
    &&& p.orbits@.len() == source.orbits@.len()
    &&& forall|k: int|
        0 <= k < source.orbits@.len() ==> masked_orbit(
            source.orbits@[k],
            mask_pattern.orbits@[k],
            #[trigger] p.orbits@[k],
        )
}

/// Every position before position `i` of orbit `k` (orbit by orbit) passes the mask checks.
pub open spec fn mask_passes_before(source: Pattern, mask_pattern: Pattern, k: int, i: int) -> bool {
    &&& forall|kk: int, ii: int|
        0 <= kk < k && 0 <= ii < source.orbits@[kk].pieces@.len() ==> #[trigger] mask_check(
            source.orbits@[kk],
            mask_pattern.orbits@[kk],
            ii,
        ) == 0
    &&& forall|ii: int|
        0 <= ii < i ==> #[trigger] mask_check(source.orbits@[k], mask_pattern.orbits@[k], ii)
            == 0
}

/// Every position of every orbit passes the mask checks.
pub open spec fn mask_passes(source: Pattern, mask_pattern: Pattern) -> bool {
    forall|kk: int, ii: int|
        0 <= kk < source.orbits@.len() && 0 <= ii < source.orbits@[kk].pieces@.len()
            ==> #[trigger] mask_check(source.orbits@[kk], mask_pattern.orbits@[kk], ii) == 0
}

/// Masks a pattern: what `source` looks like when only what `mask_pattern` distinguishes is
/// kept. Fails at the first position (orbit by orbit) where the mask orients a piece or where
/// the two orientation moduli do not divide one another.
pub fn mask(source: &Pattern, mask_pattern: &Pattern) -> (r: Result<Pattern, PuzzleError>)
    requires
        pattern_wf(*source),
        pattern_wf(*mask_pattern),
        same_shape(*source, *mask_pattern),
        pieces_in_range(*source),
    ensures
        r is Ok <==> mask_passes(*source, *mask_pattern),
        r matches Ok(p) ==> masked_pattern(*source, *mask_pattern, p),
        r matches Err(e) ==> exists|k: int, i: int|
            0 <= k < source.orbits@.len() && 0 <= i < source.orbits@[k].pieces@.len()
                && mask_passes_before(*source, *mask_pattern, k, i) && #[trigger] mask_check(
                source.orbits@[k],
                mask_pattern.orbits@[k],
                i,
            ) != 0 && e.description@ == mask_error_text(
                mask_check(source.orbits@[k], mask_pattern.orbits@[k], i),
            ),
{
    let mut orbits: Vec<PatternOrbit> = Vec::new();
    let num_orbits = source.orbits.len();
    let mut k: usize = 0;
    while k < num_orbits
        invariant
            num_orbits == source.orbits@.len(),
            0 <= k <= num_orbits,
            pattern_wf(*source),
            pattern_wf(*mask_pattern),
            same_shape(*source, *mask_pattern),
            pieces_in_range(*source),
            orbits@.len() == k,
            forall|kk: int|
                0 <= kk < k ==> masked_orbit(
                    source.orbits@[kk],
                    mask_pattern.orbits@[kk],
                    #[trigger] orbits@[kk],
                ),
            mask_passes_before(*source, *mask_pattern, k as int, 0),
        decreases num_orbits - k,
    {
        let s = &source.orbits[k];
        let m = &mask_pattern.orbits[k];
        assert(orbit_wf(*s));
        assert(orbit_wf(*m));
        let n = s.num_orientations;
        let len = s.pieces.len();
        let mut pieces: Vec<u8> = Vec::new();
        let mut orientations: Vec<u8> = Vec::new();
        let mut orientation_mods: Vec<u8> = Vec::new();
        let mut i: usize = 0;
        while i < len
            invariant
                len == s.pieces@.len(),
                0 <= i <= len,
                orbit_wf(*s),
                orbit_wf(*m),
                *s == source.orbits@[k as int],
                *m == mask_pattern.orbits@[k as int],
                0 <= k < num_orbits,
                num_orbits == source.orbits@.len(),
                n == s.num_orientations,
                m.pieces@.len() == len,
                m.num_orientations == n,
                pieces_in_range(*source),
                mask_passes_before(*source, *mask_pattern, k as int, i as int),
                pieces@.len() == i,
                orientations@.len() == i,
                orientation_mods@.len() == i,
                forall|ii: int|
                    0 <= ii < i ==> #[trigger] pieces@[ii] == m.pieces@[s.pieces@[ii] as int],
                forall|ii: int|
                    0 <= ii < i ==> #[trigger] orientations@[ii] == (s.orientations@[ii] as int)
                        % masked_mod(*s, *m, ii),
                forall|ii: int|
                    0 <= ii < i ==> #[trigger] orientation_mods@[ii] == (if masked_mod(*s, *m, ii)
                        == s.num_orientations {
                        0
                    } else {
                        masked_mod(*s, *m, ii)
                    }),
            decreases len - i,
        {
            let old_piece = s.pieces[i];
            assert(source.orbits@[k as int].pieces@[i as int] < source.orbits@[k as int].pieces@.len());
            let old_piece_mapped = m.pieces[old_piece as usize];
            if m.orientations[i] != 0 {
                assert(mask_check(*s, *m, i as int) == 1);
                return Err(
                    PuzzleError {
                        description: String::from_str("Masks cannot currently have piece orientation"),
                    },
                );
            }
            let source_mod = if s.orientation_mods[i] == 0 {
                n
            } else {
                s.orientation_mods[i]
            };
            let mask_mod = if m.orientation_mods[i] == 0 {
                n
            } else {
                m.orientation_mods[i]
            };
            if source_mod % mask_mod != 0 && mask_mod % source_mod != 0 {
                assert(mask_check(*s, *m, i as int) == 2);
                return Err(
                    PuzzleError {
                        description: String::from_str("Incompatible orientation mod in mask"),
                    },
                );
            }
            let masked = if source_mod < mask_mod {
                source_mod
            } else {
                mask_mod
            };
            let ghost old_pieces = pieces@;
            let ghost old_orientations = orientations@;
            let ghost old_mods = orientation_mods@;
            pieces.push(old_piece_mapped);
            orientations.push(s.orientations[i] % masked);
            orientation_mods.push(
                if masked == n {
                    0
                } else {
                    masked
                },
            );
            assert(mask_check(*s, *m, i as int) == 0);
            proof {
                assert forall|ii: int| 0 <= ii < i + 1 implies #[trigger] pieces@[ii]
                    == m.pieces@[s.pieces@[ii] as int] by {
                    if ii < i {
                        assert(pieces@[ii] == old_pieces[ii]);
                    }
                }
                assert forall|ii: int| 0 <= ii < i + 1 implies #[trigger] orientations@[ii]
                    == (s.orientations@[ii] as int) % masked_mod(*s, *m, ii) by {
                    if ii < i {
                        assert(orientations@[ii] == old_orientations[ii]);
                    }
                }
                assert forall|ii: int| 0 <= ii < i + 1 implies #[trigger] orientation_mods@[ii]
                    == (if masked_mod(*s, *m, ii) == s.num_orientations {
                    0
                } else {
                    masked_mod(*s, *m, ii)
                }) by {
                    if ii < i {
                        assert(orientation_mods@[ii] == old_mods[ii]);
                    }
                }
            }
            i += 1;
        }
        proof {
            assert forall|ii: int| 0 <= ii < s.pieces@.len() implies {
                &&& #[trigger] pieces@[ii] == m.pieces@[s.pieces@[ii] as int]
                &&& orientations@[ii] == (s.orientations@[ii] as int) % masked_mod(*s, *m, ii)
                &&& orientation_mods@[ii] == (if masked_mod(*s, *m, ii) == s.num_orientations {
                    0
                } else {
                    masked_mod(*s, *m, ii)
                })
            } by {}
        }
        let name = m.name.clone();
        let ghost prev = orbits@;
        orbits.push(
            PatternOrbit {
                name,
                num_orientations: m.num_orientations,
                pieces,
                orientations,
                orientation_mods,
            },
        );
        proof {
            assert(orbits@ == prev.push(orbits@[k as int]));
            assert(masked_orbit(*s, *m, orbits@[k as int]));
            assert forall|kk: int| 0 <= kk < k + 1 implies masked_orbit(
                source.orbits@[kk],
                mask_pattern.orbits@[kk],
                #[trigger] orbits@[kk],
            ) by {
                if kk < k {
                    assert(orbits@[kk] == prev[kk]);
                }
            }
        }
        k += 1;
    }
    Ok(Pattern { orbits })
}

/// The orbit `o` is the orbit that `info` describes, with distinguishable pieces: the piece
/// at each position is the position's own, with orientation 0 and the full modulus.
pub open spec fn is_super_orbit(info: OrbitInfo, o: PatternOrbit) -> bool {
    &&& o.name@ == info.name@
    &&& o.num_orientations == info.num_orientations
    &&& o.pieces@.len() == info.num_pieces
    &&& o.orientations@.len() == info.num_pieces
    &&& o.orientation_mods@.len() == info.num_pieces
    &&& forall|i: int|
        0 <= i < info.num_pieces ==> {
            &&& #[trigger] o.pieces@[i] == i
            &&& o.orientations@[i] == 0
            &&& o.orientation_mods@[i] == 0
        }
}

/// The orbits of `p` are those that `infos` describe, each with distinguishable pieces.
pub open spec fn is_super_pattern(infos: Seq<OrbitInfo>, p: Pattern) -> bool {
    &&& p.orbits@.len() == infos.len()
    &&& forall|k: int| 0 <= k < infos.len() ==> is_super_orbit(infos[k], #[trigger] p.orbits@[k])
}

/// Constructs a pattern with fully distinguishable pieces.
pub fn super_pattern(orbit_infos: &Vec<OrbitInfo>) -> (r: Pattern)
    ensures
        is_super_pattern(orbit_infos@, r),
{
    let mut orbits: Vec<PatternOrbit> = Vec::new();
    let mut k: usize = 0;
    while k < orbit_infos.len()
        invariant
            0 <= k <= orbit_infos@.len(),
            orbits@.len() == k,
            forall|kk: int| 0 <= kk < k ==> is_super_orbit(orbit_infos@[kk], #[trigger] orbits@[kk]),
        decreases orbit_infos@.len() - k,
    {
        let info = &orbit_infos[k];
        let mut pieces: Vec<u8> = Vec::new();
        let mut orientations: Vec<u8> = Vec::new();
        let mut orientation_mods: Vec<u8> = Vec::new();
        let mut idx: u8 = 0;
        while idx < info.num_pieces
            invariant
                idx <= info.num_pieces,
                pieces@.len() == idx,
                orientations@.len() == idx,
                orientation_mods@.len() == idx,
                forall|i: int|
                    0 <= i < idx ==> {
                        &&& #[trigger] pieces@[i] == i
                        &&& orientations@[i] == 0
                        &&& orientation_mods@[i] == 0
                    },
            decreases info.num_pieces - idx,
        {
            let ghost prev_pieces = pieces@;
            let ghost prev_orientations = orientations@;
            let ghost prev_mods = orientation_mods@;
            pieces.push(idx);
            orientations.push(0);
            orientation_mods.push(0);
            proof {
                assert forall|i: int| 0 <= i < idx + 1 implies {
                    &&& #[trigger] pieces@[i] == i
                    &&& orientations@[i] == 0
                    &&& orientation_mods@[i] == 0
                } by {
                    if i < idx {
                        assert(pieces@[i] == prev_pieces[i]);
                        assert(orientations@[i] == prev_orientations[i]);
                        assert(orientation_mods@[i] == prev_mods[i]);
                    }
                }
            }
            idx += 1;
        }
        let name = info.name.clone();
        let ghost prev = orbits@;
        orbits.push(
            PatternOrbit {
                name,
                num_orientations: info.num_orientations,
                pieces,
                orientations,
                orientation_mods,
            },
        );
        proof {
            assert(orbits@ == prev.push(orbits@[k as int]));
            assert forall|kk: int| 0 <= kk < k + 1 implies is_super_orbit(orbit_infos@[kk], #[trigger] orbits@[kk]) by {
                if kk < k {
                    assert(orbits@[kk] == prev[kk]);
                }
            }
        }
        k += 1;
    }
    Pattern { orbits }
}

/// Each orientation modulus of the pattern is written in its usual form (0, or a proper
/// divisor of the number of orientations) and each orientation is below its modulus.
pub open spec fn orientations_canonical(p: Pattern) -> bool {
    forall|k: int, i: int|
        #![trigger p.orbits@[k].orientation_mods@[i]]
        0 <= k < p.orbits@.len() && 0 <= i < p.orbits@[k].pieces@.len() ==> {
            let o = p.orbits@[k];
            let m = o.orientation_mods@[i];
            &&& (m == 0 || (m < o.num_orientations && o.num_orientations % m == 0))
            &&& o.orientations@[i] < effective_mod(m, o.num_orientations)
        }
}

/// A canonical orientation modulus divides the number of orientations.
pub(crate) proof fn lemma_canonical_mod_divides(p: Pattern, k: int, i: int)
    requires
        pattern_wf(p),
        orientations_canonical(p),
        0 <= k < p.orbits@.len(),
        0 <= i < p.orbits@[k].pieces@.len(),
    ensures
        (p.orbits@[k].num_orientations as int) % effective_mod(
            p.orbits@[k].orientation_mods@[i],
            p.orbits@[k].num_orientations,
        ) == 0,
{
    let o = p.orbits@[k];
    assert(orbit_wf(o));
    let m = p.orbits@[k].orientation_mods@[i];
    let n = o.num_orientations as int;
    if m == 0 {
        assert(n % n == 0) by (nonlinear_arith)
            requires
                n >= 1,
        ;
    }
}

/// Masking a pattern with the super pattern of its own puzzle changes nothing: the super
/// pattern distinguishes every piece and every orientation.
pub proof fn lemma_mask_with_super_pattern_is_identity(
    source: Pattern,
    infos: Seq<OrbitInfo>,
    sp: Pattern,
)
    requires
        pattern_wf(source),
        pieces_in_range(source),
        orientations_canonical(source),
        is_super_pattern(infos, sp),
        infos.len() == source.orbits@.len(),
        forall|k: int|
            0 <= k < infos.len() ==> {
                &&& (#[trigger] infos[k]).name@ == source.orbits@[k].name@
                &&& infos[k].num_pieces == source.orbits@[k].pieces@.len()
                &&& infos[k].num_orientations == source.orbits@[k].num_orientations
            },
    ensures
        pattern_wf(sp),
        same_shape(source, sp),
        mask_passes(source, sp),
        masked_pattern(source, sp, source),
{
    assert forall|k: int| 0 <= k < sp.orbits@.len() implies orbit_wf(#[trigger] sp.orbits@[k]) by {
        assert(orbit_wf(source.orbits@[k]));
    }
    assert forall|kk: int, ii: int|
        0 <= kk < source.orbits@.len() && 0 <= ii < source.orbits@[kk].pieces@.len() implies #[trigger] mask_check(
        source.orbits@[kk],
        sp.orbits@[kk],
        ii,
    ) == 0 by {
        let s = source.orbits@[kk];
        let m = sp.orbits@[kk];
        assert(orbit_wf(s));
        assert(m.pieces@[ii] == ii);
        assert(m.orientation_mods@[ii] == 0);
        assert(m.orientations@[ii] == 0);
        lemma_canonical_mod_divides(source, kk, ii);
    }
    assert forall|k: int| 0 <= k < source.orbits@.len() implies masked_orbit(
        source.orbits@[k],
        sp.orbits@[k],
        #[trigger] source.orbits@[k],
    ) by {
        let s = source.orbits@[k];
        let m = sp.orbits@[k];
        assert(orbit_wf(s));
        assert forall|i: int| 0 <= i < s.pieces@.len() implies {
            &&& #[trigger] s.pieces@[i] == m.pieces@[s.pieces@[i] as int]
            &&& s.orientations@[i] == (s.orientations@[i] as int) % masked_mod(s, m, i)
            &&& s.orientation_mods@[i] == (if masked_mod(s, m, i) == s.num_orientations {
                0
            } else {
                masked_mod(s, m, i)
            })
        } by {
            assert(s.pieces@[i] < s.pieces@.len());
            assert(m.pieces@[s.pieces@[i] as int] == s.pieces@[i]);
            assert(m.pieces@[i] == i);
            assert(m.orientation_mods@[i] == 0);
            let sm = effective_mod(s.orientation_mods@[i], s.num_orientations);
            lemma_canonical_mod_divides(source, k, i);
            assert(sm <= s.num_orientations) by {
                if sm > s.num_orientations {
                    assert((s.num_orientations as int) % sm == s.num_orientations);
                }
            }
            assert(masked_mod(s, m, i) == sm);
            assert(s.orientations@[i] < sm);
            vstd::arithmetic::div_mod::lemma_small_mod(s.orientations@[i] as nat, sm as nat);
        }
    }
}

/// Copies one orbit of `source` onto one orbit of `destination`, piece by piece, with the
/// orientations and their moduli; the two orbits have the same size and orientation count.
pub fn transfer_orbit(
    source: &Pattern,
    source_orbit: usize,
    destination: &mut Pattern,
    destination_orbit: usize,
)
    requires
        source_orbit < source.orbits@.len(),
        destination_orbit < old(destination).orbits@.len(),
        orbit_wf(source.orbits@[source_orbit as int]),
        source.orbits@[source_orbit as int].pieces@.len() == old(destination).orbits@[destination_orbit as int].pieces@.len(),
        source.orbits@[source_orbit as int].num_orientations == old(destination).orbits@[destination_orbit as int].num_orientations,
    ensures
        final(destination).orbits@.len() == old(destination).orbits@.len(),
        forall|k: int|
            0 <= k < old(destination).orbits@.len() && k != destination_orbit ==> #[trigger] final(destination).orbits@[k]
                == old(destination).orbits@[k],
        ({
            let d = final(destination).orbits@[destination_orbit as int];
            let s = source.orbits@[source_orbit as int];
            &&& d.name == old(destination).orbits@[destination_orbit as int].name
            &&& d.num_orientations == s.num_orientations
            &&& d.pieces@ == s.pieces@
            &&& d.orientations@ == s.orientations@
            &&& d.orientation_mods@ == s.orientation_mods@
        }),
{
    let s = &source.orbits[source_orbit];
    let pieces = s.pieces.clone();
    let orientations = s.orientations.clone();
    let orientation_mods = s.orientation_mods.clone();
    assert(pieces@ =~= s.pieces@);
    assert(orientations@ =~= s.orientations@);
    assert(orientation_mods@ =~= s.orientation_mods@);
    let name = destination.orbits[destination_orbit].name.clone();
    let orbit = PatternOrbit {
        name,
        num_orientations: s.num_orientations,
        pieces,
        orientations,
        orientation_mods,
    };
    destination.orbits.set(destination_orbit, orbit);
}

/// Two orbits that hold the same values.
pub open spec fn same_orbit_values(a: PatternOrbit, b: PatternOrbit) -> bool {
    &&& a.name@ == b.name@
    &&& a.num_orientations == b.num_orientations
    &&& a.pieces@ == b.pieces@
    &&& a.orientations@ == b.orientations@
    &&& a.orientation_mods@ == b.orientation_mods@
}

/// Two patterns that hold the same values.
pub open spec fn same_pattern_values(a: Pattern, b: Pattern) -> bool {
    &&& a.orbits@.len() == b.orbits@.len()
    &&& forall|k: int| 0 <= k < a.orbits@.len() ==> same_orbit_values(#[trigger] a.orbits@[k], b.orbits@[k])
}

/// A copy of a pattern.
pub fn clone_pattern(p: &Pattern) -> (r: Pattern)
    ensures
        same_pattern_values(r, *p),
{
    let mut orbits: Vec<PatternOrbit> = Vec::new();
    let mut k: usize = 0;
    while k < p.orbits.len()
        invariant
            0 <= k <= p.orbits@.len(),
            orbits@.len() == k,
            forall|kk: int| 0 <= kk < k ==> same_orbit_values(#[trigger] orbits@[kk], p.orbits@[kk]),
        decreases p.orbits@.len() - k,
    {
        let o = &p.orbits[k];
        let pieces = o.pieces.clone();
        let orientations = o.orientations.clone();
        let orientation_mods = o.orientation_mods.clone();
        assert(pieces@ =~= o.pieces@);
        assert(orientations@ =~= o.orientations@);
        assert(orientation_mods@ =~= o.orientation_mods@);
        let name = o.name.clone();
        let ghost prev = orbits@;
        orbits.push(
            PatternOrbit {
                name,
                num_orientations: o.num_orientations,
                pieces,
                orientations,
                orientation_mods,
            },
        );
        proof {
            assert forall|kk: int| 0 <= kk < k + 1 implies same_orbit_values(
                #[trigger] orbits@[kk],
                p.orbits@[kk],
            ) by {
                if kk < k {
                    assert(orbits@[kk] == prev[kk]);
                }
            }
        }
        k += 1;
    }
    Pattern { orbits }
}

/// Whether two byte sequences are equal.
fn bytes_equal(a: &Vec<u8>, b: &Vec<u8>) -> (r: bool)
    ensures
        r == (a@ == b@),
{
    if a.len() != b.len() {
        return false;
    }
    let mut i: usize = 0;
    while i < a.len()
        invariant
            0 <= i <= a@.len(),
            a@.len() == b@.len(),
            forall|j: int| 0 <= j < i ==> a@[j] == b@[j],
        decreases a@.len() - i,
    {
        if a[i] != b[i] {
            return false;
        }
        i += 1;
    }
    assert(a@ =~= b@);
    true
}

/// Whether two patterns hold the same values.
pub fn patterns_equal(a: &Pattern, b: &Pattern) -> (r: bool)
    ensures
        r == same_pattern_values(*a, *b),
{
    if a.orbits.len() != b.orbits.len() {
        return false;
    }
    let mut k: usize = 0;
    while k < a.orbits.len()
        invariant
            0 <= k <= a.orbits@.len(),
            a.orbits@.len() == b.orbits@.len(),
            forall|kk: int| 0 <= kk < k ==> same_orbit_values(#[trigger] a.orbits@[kk], b.orbits@[kk]),
        decreases a.orbits@.len() - k,
    {
        let x = &a.orbits[k];
        let y = &b.orbits[k];
        let same = x.name == y.name && x.num_orientations == y.num_orientations && bytes_equal(
            &x.pieces,
            &y.pieces,
        ) && bytes_equal(&x.orientations, &y.orientations) && bytes_equal(
            &x.orientation_mods,
            &y.orientation_mods,
        );
        if !same {
            assert(!same_orbit_values(a.orbits@[k as int], b.orbits@[k as int]));
            return false;
        }
        k += 1;
    }
    true
}

} // verus!
