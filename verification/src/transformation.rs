use vstd::prelude::*;

use crate::pattern::{
    effective_mod, lemma_canonical_mod_divides, orbit_wf, orientations_canonical, pattern_wf,
    pieces_in_range, same_orbit_values, same_pattern_values, same_shape, Pattern, PatternOrbit,
};
use vstd::arithmetic::div_mod::{
    lemma_add_mod_noop, lemma_add_mod_noop_right, lemma_fundamental_div_mod, lemma_mod_mod,
    lemma_mod_multiples_vanish, lemma_small_mod,
};

verus! {

/// One orbit of a transformation: for each position, where its piece comes from and by how
/// much its orientation turns.
pub struct TransformationOrbit {
    pub name: String,
    pub num_orientations: u8,
    pub permutation: Vec<u8>,
    pub orientation_delta: Vec<u8>,
}

/// A transformation of a puzzle, orbit by orbit.
pub struct Transformation {
    pub orbits: Vec<TransformationOrbit>,
}

/// Some entry of the sequence is `v`.
pub open spec fn takes_value(s: Seq<u8>, v: int) -> bool {
    exists|i: int| 0 <= i < s.len() && s[i] == v
}

/// The sequence is a permutation of `0..s.len()`.
pub open spec fn is_permutation(s: Seq<u8>) -> bool {
    &&& forall|i: int| 0 <= i < s.len() ==> #[trigger] s[i] < s.len()
    &&& forall|i: int, j: int| 0 <= i < j < s.len() ==> #[trigger] s[i] != #[trigger] s[j]
    &&& forall|v: int| 0 <= v < s.len() ==> #[trigger] takes_value(s, v)
}

proof fn lemma_permutation_len(s: Seq<u8>)
    requires
        is_permutation(s),
    ensures
        s.len() <= 256,
{
    if s.len() > 256 {
        assert(takes_value(s, 256));
        let i = choose|i: int| 0 <= i < s.len() && s[i] == 256;
        assert(s[i] < 256);
    }
}

/// The orbit of a transformation: its two sequences have one length and the orbit has at
/// least one orientation.
pub open spec fn transformation_orbit_wf(o: TransformationOrbit) -> bool {
    &&& o.orientation_delta@.len() == o.permutation@.len()
    &&& o.num_orientations >= 1
}

/// A transformation whose orbits are permutations with orientation turns below the number of
/// orientations.
pub open spec fn transformation_valid(t: Transformation) -> bool {
    forall|k: int|
        0 <= k < t.orbits@.len() ==> {
            let o = #[trigger] t.orbits@[k];
            &&& transformation_orbit_wf(o)
            &&& is_permutation(o.permutation@)
            &&& forall|i: int| 0 <= i < o.permutation@.len() ==> #[trigger] o.orientation_delta@[i] <= o.num_orientations
        }
}

/// Every orientation modulus of the pattern is 0 or 1.
pub open spec fn mods_zero_or_one(p: Pattern) -> bool {
    forall|k: int, i: int|
        0 <= k < p.orbits@.len() && 0 <= i < p.orbits@[k].pieces@.len() ==> {
            let m = #[trigger] p.orbits@[k].orientation_mods@[i];
            m == 0 || m == 1
        }
}

/// The transformation orbit `t` reads the pattern orbit `o` as a transformation.
pub open spec fn orbit_as_transformation(o: PatternOrbit, t: TransformationOrbit) -> bool {
    &&& t.name@ == o.name@
    &&& t.num_orientations == o.num_orientations
    &&& t.permutation@ == o.pieces@
    &&& t.orientation_delta@ == o.orientations@
}

/// Reads a pattern as the transformation that takes the solved pattern to it; `None` when an
/// orientation modulus is other than 0 or 1.
pub fn kpattern_to_transformation(pattern: &Pattern) -> (r: Option<Transformation>)
    requires
        pattern_wf(*pattern),
    ensures
        r is Some <==> mods_zero_or_one(*pattern),
        r matches Some(t) ==> t.orbits@.len() == pattern.orbits@.len() && forall|k: int|
            0 <= k < t.orbits@.len() ==> orbit_as_transformation(
                pattern.orbits@[k],
                #[trigger] t.orbits@[k],
            ),
{
    let mut orbits: Vec<TransformationOrbit> = Vec::new();
    let mut k: usize = 0;
    while k < pattern.orbits.len()
        invariant
            0 <= k <= pattern.orbits@.len(),
            pattern_wf(*pattern),
            orbits@.len() == k,
            forall|kk: int|
                0 <= kk < k ==> orbit_as_transformation(pattern.orbits@[kk], #[trigger] orbits@[kk]),
            forall|kk: int, i: int|
                0 <= kk < k && 0 <= i < pattern.orbits@[kk].pieces@.len() ==> {
                    let m = #[trigger] pattern.orbits@[kk].orientation_mods@[i];
                    m == 0 || m == 1
                },
        decreases pattern.orbits@.len() - k,
    {
        let o = &pattern.orbits[k];
        assert(orbit_wf(*o));
        let mut i: usize = 0;
        while i < o.pieces.len()
            invariant
                0 <= i <= o.pieces@.len(),
                0 <= k < pattern.orbits@.len(),
                *o == pattern.orbits@[k as int],
                orbit_wf(*o),
                forall|ii: int| 0 <= ii < i ==> {
                    let m = #[trigger] o.orientation_mods@[ii];
                    m == 0 || m == 1
                },
            decreases o.pieces@.len() - i,
        {
            let m = o.orientation_mods[i];
            if m != 0 && m != 1 {
                assert(pattern.orbits@[k as int].orientation_mods@[i as int] == m);
                return None;
            }
            i += 1;
        }
        let permutation = o.pieces.clone();
        let orientation_delta = o.orientations.clone();
        assert(permutation@ =~= o.pieces@);
        assert(orientation_delta@ =~= o.orientations@);
        let ghost prev = orbits@;
        orbits.push(
            TransformationOrbit {
                name: o.name.clone(),
                num_orientations: o.num_orientations,
                permutation,
                orientation_delta,
            },
        );
        proof {
            assert forall|kk: int| 0 <= kk < k + 1 implies orbit_as_transformation(
                pattern.orbits@[kk],
                #[trigger] orbits@[kk],
            ) by {
                if kk < k {
                    assert(orbits@[kk] == prev[kk]);
                }
            }
        }
        k += 1;
    }
    Some(Transformation { orbits })
}

/// The pattern orbit `o` is the transformation orbit `t` applied to the solved pattern, with
/// orientation modulus 0 everywhere.
pub open spec fn transformation_as_orbit(t: TransformationOrbit, o: PatternOrbit) -> bool {
    &&& o.name@ == t.name@
    &&& o.num_orientations == t.num_orientations
    &&& o.pieces@ == t.permutation@
    &&& o.orientations@ == t.orientation_delta@
    &&& o.orientation_mods@.len() == t.permutation@.len()
    &&& forall|i: int| 0 <= i < t.permutation@.len() ==> #[trigger] o.orientation_mods@[i] == 0
}

/// The pattern that a transformation makes of the solved pattern (orientation modulus 0 for
/// every piece).
pub fn ktransformation_to_kpattern(transformation: &Transformation) -> (r: Option<Pattern>)
    requires
        forall|k: int|
            0 <= k < transformation.orbits@.len() ==> transformation_orbit_wf(
                #[trigger] transformation.orbits@[k],
            ),
    ensures
        r matches Some(p) && p.orbits@.len() == transformation.orbits@.len() && forall|k: int|
            0 <= k < p.orbits@.len() ==> transformation_as_orbit(
                transformation.orbits@[k],
                #[trigger] p.orbits@[k],
            ),
{
    let mut orbits: Vec<PatternOrbit> = Vec::new();
    let mut k: usize = 0;
    while k < transformation.orbits.len()
        invariant
            0 <= k <= transformation.orbits@.len(),
            orbits@.len() == k,
            forall|kk: int|
                0 <= kk < k ==> transformation_as_orbit(transformation.orbits@[kk], #[trigger] orbits@[kk]),
        decreases transformation.orbits@.len() - k,
    {
        let t = &transformation.orbits[k];
        let mut orientation_mods: Vec<u8> = Vec::new();
        while orientation_mods.len() < t.permutation.len()
            invariant
                orientation_mods@.len() <= t.permutation@.len(),
                forall|i: int| 0 <= i < orientation_mods@.len() ==> #[trigger] orientation_mods@[i] == 0,
            decreases t.permutation@.len() - orientation_mods@.len(),
        {
            orientation_mods.push(0);
        }
        let pieces = t.permutation.clone();
        let orientations = t.orientation_delta.clone();
        assert(pieces@ =~= t.permutation@);
        assert(orientations@ =~= t.orientation_delta@);
        let ghost prev = orbits@;
        orbits.push(
            PatternOrbit {
                name: t.name.clone(),
                num_orientations: t.num_orientations,
                pieces,
                orientations,
                orientation_mods,
            },
        );
        proof {
            assert forall|kk: int| 0 <= kk < k + 1 implies transformation_as_orbit(
                transformation.orbits@[kk],
                #[trigger] orbits@[kk],
            ) by {
                if kk < k {
                    assert(orbits@[kk] == prev[kk]);
                }
            }
        }
        k += 1;
    }
    Some(Pattern { orbits })
}

/// The orbit `inv` undoes the orbit `t`: the piece that `t` brings from `p` to `i` is
/// brought back from `i` to `p`, with the opposite orientation turn.
pub open spec fn inverse_orbit(t: TransformationOrbit, inv: TransformationOrbit) -> bool {
    &&& inv.name@ == t.name@
    &&& inv.num_orientations == t.num_orientations
    &&& inv.permutation@.len() == t.permutation@.len()
    &&& inv.orientation_delta@.len() == t.permutation@.len()
    &&& forall|i: int|
        0 <= i < t.permutation@.len() ==> {
            &&& inv.permutation@[#[trigger] t.permutation@[i] as int] == i
            &&& inv.orientation_delta@[t.permutation@[i] as int] == (t.num_orientations
                - t.orientation_delta@[i]) % (t.num_orientations as int)
        }
}

/// The inverse of one orbit of a valid transformation.
fn invert_orbit(t: &TransformationOrbit) -> (r: TransformationOrbit)
    requires
        transformation_orbit_wf(*t),
        is_permutation(t.permutation@),
        forall|i: int| 0 <= i < t.permutation@.len() ==> #[trigger] t.orientation_delta@[i] <= t.num_orientations,
    ensures
        inverse_orbit(*t, r),
        transformation_orbit_wf(r),
{
    let n = t.permutation.len();
    let num_orientations = t.num_orientations;
    let mut permutation: Vec<u8> = Vec::new();
    let mut orientation_delta: Vec<u8> = Vec::new();
    while permutation.len() < n
        invariant
            permutation@.len() <= n,
            orientation_delta@.len() == permutation@.len(),
            n == t.permutation@.len(),
        decreases n - permutation@.len(),
    {
        permutation.push(0);
        orientation_delta.push(0);
    }
    let mut i: usize = 0;
    while i < n
        invariant
            0 <= i <= n,
            n == t.permutation@.len(),
            n == t.orientation_delta@.len(),
            num_orientations == t.num_orientations,
            num_orientations >= 1,
            is_permutation(t.permutation@),
            forall|ii: int| 0 <= ii < n ==> #[trigger] t.orientation_delta@[ii] <= t.num_orientations,
            permutation@.len() == n,
            orientation_delta@.len() == n,
            forall|ii: int|
                0 <= ii < i ==> {
                    &&& permutation@[#[trigger] t.permutation@[ii] as int] == ii
                    &&& orientation_delta@[t.permutation@[ii] as int] == (t.num_orientations
                        - t.orientation_delta@[ii]) % (t.num_orientations as int)
                },
        decreases n - i,
    {
        let from_idx = t.permutation[i] as usize;
        assert(t.permutation@[i as int] < n);
        let delta = t.orientation_delta[i];
        let ghost before_p = permutation@;
        let ghost before_d = orientation_delta@;
        proof {
            lemma_permutation_len(t.permutation@);
        }
        permutation.set(from_idx, i as u8);
        orientation_delta.set(from_idx, (num_orientations - delta) % num_orientations);
        proof {
            assert forall|ii: int| 0 <= ii < i + 1 implies {
                &&& permutation@[#[trigger] t.permutation@[ii] as int] == ii
                &&& orientation_delta@[t.permutation@[ii] as int] == (t.num_orientations
                    - t.orientation_delta@[ii]) % (t.num_orientations as int)
            } by {
                if ii < i {
                    assert(t.permutation@[ii] != t.permutation@[i as int]);
                    assert(permutation@[t.permutation@[ii] as int] == before_p[t.permutation@[ii] as int]);
                }
            }
        }
        i += 1;
    }
    TransformationOrbit {
        name: t.name.clone(),
        num_orientations,
        permutation,
        orientation_delta,
    }
}

/// The inverse of a valid transformation, orbit by orbit.
pub fn invert_transformation(t: &Transformation) -> (r: Transformation)
    requires
        transformation_valid(*t),
    ensures
        r.orbits@.len() == t.orbits@.len(),
        forall|k: int| 0 <= k < t.orbits@.len() ==> inverse_orbit(t.orbits@[k], #[trigger] r.orbits@[k]),
        forall|k: int| 0 <= k < t.orbits@.len() ==> transformation_orbit_wf(#[trigger] r.orbits@[k]),
{
    let mut orbits: Vec<TransformationOrbit> = Vec::new();
    let mut k: usize = 0;
    while k < t.orbits.len()
        invariant
            0 <= k <= t.orbits@.len(),
            transformation_valid(*t),
            orbits@.len() == k,
            forall|kk: int| 0 <= kk < k ==> inverse_orbit(t.orbits@[kk], #[trigger] orbits@[kk]),
            forall|kk: int| 0 <= kk < k ==> transformation_orbit_wf(#[trigger] orbits@[kk]),
        decreases t.orbits@.len() - k,
    {
        let o = &t.orbits[k];
        let inv = invert_orbit(o);
        let ghost prev = orbits@;
        orbits.push(inv);
        proof {
            assert forall|kk: int| 0 <= kk < k + 1 implies inverse_orbit(t.orbits@[kk], #[trigger] orbits@[kk]) by {
                if kk < k {
                    assert(orbits@[kk] == prev[kk]);
                }
            }
            assert forall|kk: int| 0 <= kk < k + 1 implies transformation_orbit_wf(#[trigger] orbits@[kk]) by {
                if kk < k {
                    assert(orbits@[kk] == prev[kk]);
                }
            }
        }
        k += 1;
    }
    Transformation { orbits }
}

/// The pattern orbit `q` is the inverse of the pattern orbit `p`, read as transformations:
/// the piece at `i` in `p` is at position `i`'s piece in `q` the other way round, with the
/// opposite orientation, and every orientation modulus is 0.
pub open spec fn inverted_orbit(p: PatternOrbit, q: PatternOrbit) -> bool {
    &&& q.name@ == p.name@
    &&& q.num_orientations == p.num_orientations
    &&& q.pieces@.len() == p.pieces@.len()
    &&& q.orientations@.len() == p.pieces@.len()
    &&& q.orientation_mods@.len() == p.pieces@.len()
    &&& forall|i: int|
        0 <= i < p.pieces@.len() ==> {
            &&& q.pieces@[#[trigger] p.pieces@[i] as int] == i
            &&& q.orientations@[p.pieces@[i] as int] == (p.num_orientations - p.orientations@[i]) % (
            p.num_orientations as int)
        }
    &&& forall|i: int| 0 <= i < p.pieces@.len() ==> #[trigger] q.orientation_mods@[i] == 0
}

/// The pattern `q` is the inverse of the pattern `p`, orbit by orbit.
pub open spec fn inverted_pattern(p: Pattern, q: Pattern) -> bool {
    &&& q.orbits@.len() == p.orbits@.len()
    &&& forall|k: int| 0 <= k < p.orbits@.len() ==> inverted_orbit(p.orbits@[k], #[trigger] q.orbits@[k])
}

/// Every orbit of the pattern holds a permutation of its pieces, with orientations no larger
/// than the number of orientations.
pub open spec fn pattern_is_permutation(p: Pattern) -> bool {
    forall|k: int|
        0 <= k < p.orbits@.len() ==> {
            let o = #[trigger] p.orbits@[k];
            &&& is_permutation(o.pieces@)
            &&& forall|i: int| 0 <= i < o.pieces@.len() ==> #[trigger] o.orientations@[i] <= o.num_orientations
        }
}

/// The inverse of a pattern read as a transformation, as a pattern (orientation modulus 0 for
/// every piece); `None` when an orientation modulus is other than 0 or 1.
pub fn invert_kpattern_as_transformation(pattern: &Pattern) -> (r: Option<Pattern>)
    requires
        pattern_wf(*pattern),
        pattern_is_permutation(*pattern),
    ensures
        r is Some <==> mods_zero_or_one(*pattern),
        r matches Some(q) ==> inverted_pattern(*pattern, q),
{
    let transformation = match kpattern_to_transformation(pattern) {
        Some(t) => t,
        None => return None,
    };
    proof {
        assert forall|k: int| 0 <= k < transformation.orbits@.len() implies {
            let o = #[trigger] transformation.orbits@[k];
            &&& transformation_orbit_wf(o)
            &&& is_permutation(o.permutation@)
            &&& forall|i: int| 0 <= i < o.permutation@.len() ==> #[trigger] o.orientation_delta@[i] <= o.num_orientations
        } by {
            assert(orbit_wf(pattern.orbits@[k]));
            assert(orbit_as_transformation(pattern.orbits@[k], transformation.orbits@[k]));
        }
    }
    let inverse = invert_transformation(&transformation);
    let r = ktransformation_to_kpattern(&inverse);
    proof {
        let q = r->Some_0;
        assert forall|k: int| 0 <= k < pattern.orbits@.len() implies inverted_orbit(pattern.orbits@[k], #[trigger] q.orbits@[k]) by {
            assert(orbit_as_transformation(pattern.orbits@[k], transformation.orbits@[k]));
            assert(inverse_orbit(transformation.orbits@[k], inverse.orbits@[k]));
            assert(transformation_as_orbit(inverse.orbits@[k], q.orbits@[k]));
        }
    }
    r
}

proof fn lemma_opposite_twice(n: int, d: int)
    requires
        n >= 1,
        0 <= d < n,
    ensures
        0 <= (n - d) % n < n,
        (n - (n - d) % n) % n == d,
{
    if d == 0 {
        assert(n % n == 0) by (nonlinear_arith)
            requires
                n >= 1,
        ;
        assert((n - 0) % n == 0);
    } else {
        vstd::arithmetic::div_mod::lemma_small_mod((n - d) as nat, n as nat);
        vstd::arithmetic::div_mod::lemma_small_mod(d as nat, n as nat);
    }
}

proof fn lemma_invert_orbit_twice(p: PatternOrbit, q: PatternOrbit, r: PatternOrbit)
    requires
        orbit_wf(p),
        is_permutation(p.pieces@),
        forall|i: int| 0 <= i < p.pieces@.len() ==> #[trigger] p.orientations@[i] < p.num_orientations,
        forall|i: int| 0 <= i < p.pieces@.len() ==> #[trigger] p.orientation_mods@[i] == 0,
        inverted_orbit(p, q),
        inverted_orbit(q, r),
    ensures
        orbit_wf(q),
        is_permutation(q.pieces@),
        forall|i: int| 0 <= i < q.pieces@.len() ==> #[trigger] q.orientations@[i] < q.num_orientations,
        same_orbit_values(r, p),
{
    let n = p.pieces@.len();
    assert forall|j: int| 0 <= j < n implies #[trigger] q.pieces@[j] < n && q.orientations@[j] < q.num_orientations by {
        assert(takes_value(p.pieces@, j));
        let i = choose|i: int| 0 <= i < n && p.pieces@[i] == j;
        assert(q.pieces@[p.pieces@[i] as int] == i);
        lemma_opposite_twice(p.num_orientations as int, p.orientations@[i] as int);
    }
    assert forall|j1: int, j2: int| 0 <= j1 < j2 < n implies #[trigger] q.pieces@[j1] != #[trigger] q.pieces@[j2] by {
        assert(takes_value(p.pieces@, j1));
        assert(takes_value(p.pieces@, j2));
        let i1 = choose|i: int| 0 <= i < n && p.pieces@[i] == j1;
        let i2 = choose|i: int| 0 <= i < n && p.pieces@[i] == j2;
        assert(q.pieces@[p.pieces@[i1] as int] == i1);
        assert(q.pieces@[p.pieces@[i2] as int] == i2);
    }
    assert forall|v: int| 0 <= v < n implies #[trigger] takes_value(q.pieces@, v) by {
        assert(q.pieces@[p.pieces@[v] as int] == v);
        assert(p.pieces@[v] < n);
    }
    assert forall|j: int| 0 <= j < n implies #[trigger] q.orientations@[j] < q.num_orientations by {
        assert(q.pieces@[j] < n);
    }
    assert forall|i: int| 0 <= i < n implies #[trigger] r.pieces@[i] == p.pieces@[i] by {
        let j = p.pieces@[i] as int;
        assert(q.pieces@[p.pieces@[i] as int] == i);
        assert(q.pieces@[j] == i);
        assert(r.pieces@[q.pieces@[j] as int] == j);
    }
    assert forall|i: int| 0 <= i < n implies #[trigger] r.orientations@[i] == p.orientations@[i] by {
        let j = p.pieces@[i] as int;
        assert(q.pieces@[p.pieces@[i] as int] == i);
        assert(q.pieces@[j] == i);
        assert(r.orientations@[q.pieces@[j] as int] == (q.num_orientations - q.orientations@[j]) % (
        q.num_orientations as int));
        lemma_opposite_twice(p.num_orientations as int, p.orientations@[i] as int);
    }
    assert(r.pieces@ =~= p.pieces@);
    assert(r.orientations@ =~= p.orientations@);
    assert forall|i: int| 0 <= i < n implies #[trigger] r.orientation_mods@[i] == p.orientation_mods@[i] by {}
    assert(r.orientation_mods@ =~= p.orientation_mods@);
}

/// Inverting the inverse of a pattern gives the pattern back, for a pattern whose orbits are
/// permutations, whose orientations are below the number of orientations and whose
/// orientation moduli are all 0 (the form that inversion produces). The inverse meets the
/// conditions for being inverted again.
pub proof fn lemma_invert_twice(p: Pattern, q: Pattern, r: Pattern)
    requires
        pattern_wf(p),
        pattern_is_permutation(p),
        forall|k: int, i: int|
            0 <= k < p.orbits@.len() && 0 <= i < p.orbits@[k].pieces@.len() ==> #[trigger] p.orbits@[k].orientations@[i]
                < p.orbits@[k].num_orientations && p.orbits@[k].orientation_mods@[i] == 0,
        inverted_pattern(p, q),
        inverted_pattern(q, r),
    ensures
        pattern_wf(q),
        pattern_is_permutation(q),
        mods_zero_or_one(q),
        same_pattern_values(r, p),
{
    assert forall|k: int| 0 <= k < p.orbits@.len() implies {
        &&& orbit_wf(#[trigger] q.orbits@[k])
        &&& is_permutation(q.orbits@[k].pieces@)
        &&& forall|i: int| 0 <= i < q.orbits@[k].pieces@.len() ==> #[trigger] q.orbits@[k].orientations@[i] < q.orbits@[k].num_orientations
        &&& same_orbit_values(r.orbits@[k], p.orbits@[k])
    } by {
        let po = p.orbits@[k];
        assert(orbit_wf(po));
        assert(inverted_orbit(po, q.orbits@[k]));
        assert(inverted_orbit(q.orbits@[k], r.orbits@[k]));
        assert forall|i: int| 0 <= i < po.pieces@.len() implies #[trigger] po.orientations@[i] < po.num_orientations by {
            assert(p.orbits@[k].orientations@[i] < p.orbits@[k].num_orientations);
        }
        assert forall|i: int| 0 <= i < po.pieces@.len() implies #[trigger] po.orientation_mods@[i] == 0 by {
            assert(p.orbits@[k].orientations@[i] < p.orbits@[k].num_orientations);
        }
        lemma_invert_orbit_twice(po, q.orbits@[k], r.orbits@[k]);
    }
    assert forall|k: int| 0 <= k < q.orbits@.len() implies orbit_wf(#[trigger] q.orbits@[k]) by {}
    assert forall|k: int| 0 <= k < q.orbits@.len() implies {
        let o = #[trigger] q.orbits@[k];
        &&& is_permutation(o.pieces@)
        &&& forall|i: int| 0 <= i < o.pieces@.len() ==> #[trigger] o.orientations@[i] <= o.num_orientations
    } by {
        assert forall|i: int| 0 <= i < q.orbits@[k].pieces@.len() implies #[trigger] q.orbits@[k].orientations@[i] <= q.orbits@[k].num_orientations by {
            assert(q.orbits@[k].orientations@[i] < q.orbits@[k].num_orientations);
        }
    }
    assert forall|k: int, i: int|
        0 <= k < q.orbits@.len() && 0 <= i < q.orbits@[k].pieces@.len() implies {
        let m = #[trigger] q.orbits@[k].orientation_mods@[i];
        m == 0 || m == 1
    } by {
        assert(inverted_orbit(p.orbits@[k], q.orbits@[k]));
    }
}

/// The transformation can act on the pattern: one transformation orbit per pattern orbit, each
/// as long as the pattern orbit, naming positions of that orbit.
pub open spec fn transformation_fits(p: Pattern, t: Transformation) -> bool {
    &&& t.orbits@.len() == p.orbits@.len()
    &&& forall|k: int|
        0 <= k < p.orbits@.len() ==> {
            let o = #[trigger] p.orbits@[k];
            let to = t.orbits@[k];
            &&& to.permutation@.len() == o.pieces@.len()
            &&& to.orientation_delta@.len() == o.pieces@.len()
            &&& forall|i: int| 0 <= i < o.pieces@.len() ==> #[trigger] to.permutation@[i] < o.pieces@.len()
        }
}

/// The orbit `r` is the orbit `o` after the transformation orbit `t`: the piece at position `i`
/// comes from position `t.permutation[i]` with its orientation modulus, and its orientation
/// turns by `t.orientation_delta[i]` modulo that modulus.
pub open spec fn applied_orbit(o: PatternOrbit, t: TransformationOrbit, r: PatternOrbit) -> bool {
    let n = o.pieces@.len();
    &&& r.name@ == o.name@
    &&& r.num_orientations == o.num_orientations
    &&& r.pieces@.len() == n
    &&& r.orientations@.len() == n
    &&& r.orientation_mods@.len() == n
    &&& forall|i: int|
        0 <= i < n ==> {
            let from = t.permutation@[i] as int;
            &&& #[trigger] r.pieces@[i] == o.pieces@[from]
            &&& r.orientation_mods@[i] == o.orientation_mods@[from]
            &&& r.orientations@[i] == (o.orientations@[from] + t.orientation_delta@[i]) % effective_mod(
                o.orientation_mods@[from],
                o.num_orientations,
            )
        }
}

/// The pattern `r` is the pattern `p` after the transformation `t`, orbit by orbit.
pub open spec fn applied_pattern(p: Pattern, t: Transformation, r: Pattern) -> bool {
    &&& r.orbits@.len() == p.orbits@.len()
    &&& forall|k: int|
        0 <= k < p.orbits@.len() ==> applied_orbit(p.orbits@[k], t.orbits@[k], #[trigger] r.orbits@[k])
}

/// Applies a transformation to a pattern.
pub fn apply_transformation(pattern: &Pattern, transformation: &Transformation) -> (r: Pattern)
    requires
        pattern_wf(*pattern),
        transformation_fits(*pattern, *transformation),
    ensures
        applied_pattern(*pattern, *transformation, r),
        pattern_wf(r),
{
    let mut orbits: Vec<PatternOrbit> = Vec::new();
    let mut k: usize = 0;
    while k < pattern.orbits.len()
        invariant
            0 <= k <= pattern.orbits@.len(),
            pattern_wf(*pattern),
            transformation_fits(*pattern, *transformation),
            orbits@.len() == k,
            forall|kk: int|
                0 <= kk < k ==> applied_orbit(
                    pattern.orbits@[kk],
                    transformation.orbits@[kk],
                    #[trigger] orbits@[kk],
                ),
        decreases pattern.orbits@.len() - k,
    {
        let o = &pattern.orbits[k];
        let t = &transformation.orbits[k];
        assert(orbit_wf(pattern.orbits@[k as int]));
        let n = o.pieces.len();
        let mut pieces: Vec<u8> = Vec::new();
        let mut orientations: Vec<u8> = Vec::new();
        let mut orientation_mods: Vec<u8> = Vec::new();
        let mut i: usize = 0;
        while i < n
            invariant
                0 <= i <= n,
                n == o.pieces@.len(),
                orbit_wf(*o),
                t.permutation@.len() == n,
                t.orientation_delta@.len() == n,
                forall|ii: int| 0 <= ii < n ==> #[trigger] t.permutation@[ii] < n,
                pieces@.len() == i,
                orientations@.len() == i,
                orientation_mods@.len() == i,
                forall|ii: int|
                    0 <= ii < i ==> {
                        let from = t.permutation@[ii] as int;
                        &&& #[trigger] pieces@[ii] == o.pieces@[from]
                        &&& orientation_mods@[ii] == o.orientation_mods@[from]
                        &&& orientations@[ii] == (o.orientations@[from] + t.orientation_delta@[ii])
                            % effective_mod(o.orientation_mods@[from], o.num_orientations)
                    },
            decreases n - i,
        {
            let from = t.permutation[i] as usize;
            assert(from < n);
            let ghost prev_pieces = pieces@;
            let ghost prev_mods = orientation_mods@;
            pieces.push(o.pieces[from]);
            let m = o.orientation_mods[from];
            orientation_mods.push(m);
            let modulus: u16 = if m == 0 {
                o.num_orientations as u16
            } else {
                m as u16
            };
            let turned: u16 = (o.orientations[from] as u16 + t.orientation_delta[i] as u16) % modulus;
            assert(modulus == effective_mod(m, o.num_orientations));
            assert(turned == (o.orientations@[from as int] + t.orientation_delta@[i as int]) % effective_mod(m, o.num_orientations));
            let ghost prev_orientations = orientations@;
            orientations.push(turned as u8);
            assert(orientations@ == prev_orientations.push(turned as u8));
            proof {
                assert forall|ii: int| 0 <= ii < i + 1 implies {
                    let from = t.permutation@[ii] as int;
                    &&& #[trigger] pieces@[ii] == o.pieces@[from]
                    &&& orientation_mods@[ii] == o.orientation_mods@[from]
                    &&& orientations@[ii] == (o.orientations@[from] + t.orientation_delta@[ii])
                        % effective_mod(o.orientation_mods@[from], o.num_orientations)
                } by {
                    if ii < i {
                        assert(pieces@[ii] == prev_pieces[ii]);
                        assert(orientation_mods@[ii] == prev_mods[ii]);
                        assert(orientations@[ii] == prev_orientations[ii]);
                    }
                }
            }
            i += 1;
        }
        let ghost prev = orbits@;
        orbits.push(
            PatternOrbit {
                name: o.name.clone(),
                num_orientations: o.num_orientations,
                pieces,
                orientations,
                orientation_mods,
            },
        );
        proof {
            assert forall|kk: int| 0 <= kk < k + 1 implies applied_orbit(
                pattern.orbits@[kk],
                transformation.orbits@[kk],
                #[trigger] orbits@[kk],
            ) by {
                if kk < k {
                    assert(orbits@[kk] == prev[kk]);
                }
            }
        }
        k += 1;
    }
    let r = Pattern { orbits };
    proof {
        assert forall|kk: int| 0 <= kk < r.orbits@.len() implies orbit_wf(#[trigger] r.orbits@[kk]) by {
            assert(orbit_wf(pattern.orbits@[kk]));
            assert(applied_orbit(pattern.orbits@[kk], transformation.orbits@[kk], r.orbits@[kk]));
        }
    }
    r
}

/// The transformation `t` is the pattern `p` read as a transformation.
pub open spec fn pattern_read_as_transformation(p: Pattern, t: Transformation) -> bool {
    &&& t.orbits@.len() == p.orbits@.len()
    &&& forall|k: int| 0 <= k < t.orbits@.len() ==> orbit_as_transformation(p.orbits@[k], #[trigger] t.orbits@[k])
}

/// The pattern that an alg applied before the moves of `kpattern` gives, from `alg_pattern`
/// (what the alg makes of the solved pattern): `alg_pattern` transformed by `kpattern` read as a
/// transformation, or `None` when `kpattern` cannot be read so.
pub fn apply_pre_alg(kpattern: &Pattern, alg_pattern: &Pattern) -> (r: Option<Pattern>)
    requires
        pattern_wf(*kpattern),
        pieces_in_range(*kpattern),
        pattern_wf(*alg_pattern),
        same_shape(*kpattern, *alg_pattern),
    ensures
        r is Some <==> mods_zero_or_one(*kpattern),
        r matches Some(p) ==> exists|t: Transformation|
            pattern_read_as_transformation(*kpattern, t) && applied_pattern(*alg_pattern, t, p),
{
    let pattern_transformation = match kpattern_to_transformation(kpattern) {
        Some(t) => t,
        None => {
            return None;
        },
    };
    proof {
        assert forall|k: int| 0 <= k < alg_pattern.orbits@.len() implies {
            let o = #[trigger] alg_pattern.orbits@[k];
            let to = pattern_transformation.orbits@[k];
            &&& to.permutation@.len() == o.pieces@.len()
            &&& to.orientation_delta@.len() == o.pieces@.len()
            &&& forall|i: int| 0 <= i < o.pieces@.len() ==> #[trigger] to.permutation@[i] < o.pieces@.len()
        } by {
            assert(orbit_as_transformation(kpattern.orbits@[k], pattern_transformation.orbits@[k]));
            assert(orbit_wf(kpattern.orbits@[k]));
            assert forall|i: int| 0 <= i < alg_pattern.orbits@[k].pieces@.len() implies #[trigger] pattern_transformation.orbits@[k].permutation@[i]
                < alg_pattern.orbits@[k].pieces@.len() by {
                assert(kpattern.orbits@[k].pieces@[i] < kpattern.orbits@[k].pieces@.len());
            }
        }
    }
    let p = apply_transformation(alg_pattern, &pattern_transformation);
    assert(pattern_read_as_transformation(*kpattern, pattern_transformation));
    assert(applied_pattern(*alg_pattern, pattern_transformation, p));
    Some(p)
}

/// Turning an orientation by `d` and back by the inverse turn gives it back, modulo a divisor
/// `m` of the number of orientations `n`.
proof fn lemma_turn_and_back(o: int, d: int, m: int, n: int)
    requires
        0 < m,
        0 < n,
        n % m == 0,
        0 <= o < m,
        0 <= d <= n,
    ensures
        ((o + d) % m + (n - d) % n) % m == o,
{
    lemma_fundamental_div_mod(n, m);
    let c = n / m;
    assert(n == m * c);
    assert(c > 0) by (nonlinear_arith)
        requires
            n == m * c,
            n > 0,
            m > 0,
    ;
    lemma_mod_mod(n - d, m, c);
    lemma_add_mod_noop_right((o + d) % m, (n - d) % n, m);
    lemma_add_mod_noop(o + d, n - d, m);
    lemma_mod_multiples_vanish(c, o, m);
    lemma_small_mod(o as nat, m as nat);
    assert(o + d + (n - d) == m * c + o);
}

/// Applying a transformation and then its inverse gives back the pattern, for a pattern whose
/// orientations are written canonically.
pub proof fn lemma_apply_then_inverse(
    p: Pattern,
    t: Transformation,
    inverse: Transformation,
    q: Pattern,
    r: Pattern,
)
    requires
        pattern_wf(p),
        orientations_canonical(p),
        transformation_valid(t),
        transformation_fits(p, t),
        forall|k: int| 0 <= k < t.orbits@.len() ==> (#[trigger] t.orbits@[k]).num_orientations == p.orbits@[k].num_orientations,
        inverse.orbits@.len() == t.orbits@.len(),
        forall|k: int| 0 <= k < t.orbits@.len() ==> inverse_orbit(t.orbits@[k], #[trigger] inverse.orbits@[k]),
        applied_pattern(p, t, q),
        applied_pattern(q, inverse, r),
    ensures
        same_pattern_values(r, p),
{
    assert forall|k: int| 0 <= k < r.orbits@.len() implies same_orbit_values(#[trigger] r.orbits@[k], p.orbits@[k]) by {
        let po = p.orbits@[k];
        let to = t.orbits@[k];
        let io = inverse.orbits@[k];
        let qo = q.orbits@[k];
        let ro = r.orbits@[k];
        assert(orbit_wf(po));
        assert(applied_orbit(po, to, qo));
        assert(applied_orbit(qo, io, ro));
        assert(inverse_orbit(to, io));
        assert(t.orbits@[k] == to);
        assert(is_permutation(to.permutation@));
        let n = po.pieces@.len();
        assert forall|j: int| 0 <= j < n implies #[trigger] ro.pieces@[j] == po.pieces@[j] && ro.orientation_mods@[j]
            == po.orientation_mods@[j] && ro.orientations@[j] == po.orientations@[j] by {
            assert(takes_value(to.permutation@, j));
            let i0 = choose|i: int| 0 <= i < to.permutation@.len() && to.permutation@[i] == j;
            assert(io.permutation@[to.permutation@[i0] as int] == i0);
            assert(io.permutation@[j] == i0);
            assert(qo.pieces@[i0] == po.pieces@[j]);
            assert(ro.pieces@[j] == qo.pieces@[i0]);
            let m = effective_mod(po.orientation_mods@[j], po.num_orientations);
            lemma_canonical_mod_divides(p, k, j);
            assert(po.orientations@[j] < m);
            let d = to.orientation_delta@[i0] as int;
            assert(d <= to.num_orientations);
            lemma_turn_and_back(po.orientations@[j] as int, d, m, po.num_orientations as int);
        }
        assert forall|j: int| 0 <= j < n implies ro.orientations@[j] == po.orientations@[j]
            && ro.orientation_mods@[j] == po.orientation_mods@[j] by {
            assert(ro.pieces@[j] == po.pieces@[j]);
        }
        assert(ro.pieces@ =~= po.pieces@);
        assert(ro.orientations@ =~= po.orientations@);
        assert(ro.orientation_mods@ =~= po.orientation_mods@);
    }
}

} // verus!
