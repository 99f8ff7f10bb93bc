use vstd::prelude::*;

use crate::parity::{basic_parity, permutation_parity, BasicParity};
use crate::pattern::{
    clone_pattern, orbit_wf, pattern_wf, pieces_in_range, same_orbit_values, same_shape, Pattern,
    PatternOrbit,
};
use crate::strings::str_equals;
use crate::wings::{edge_to_index, is_high};

verus! {

/// The pair index of an edge (wing): the position index of the high piece of its pair.
fn edge_pair_index(edge: usize) -> (r: usize)
    requires
        edge < 24,
    ensures
        r == edge_to_index()[edge as int],
        r < 24,
{
    let table: [usize; 24] = [0, 1, 2, 3, 3, 1, 23, 17, 2, 9, 20, 11, 1, 19, 21, 9, 0, 17, 22, 19, 20, 21, 22, 23];
    assert(table@ =~= edge_to_index());
    table[edge]
}

/// The orientation that the search patterns give to every piece of an orbit, by its name:
/// 3 for `CORNERS`, 2 for `EDGES`, none for the other orbits.
pub open spec fn forced_orientation(name: Seq<char>) -> Option<u8> {
    if name == "CORNERS"@ {
        Some(3u8)
    } else if name == "EDGES"@ {
        Some(2u8)
    } else {
        None
    }
}

/// Remaps position `i` of one orbit for a search: the search pattern gets there what the
/// target pattern has at the position of the piece that `from_pattern` has there, with the
/// orientation that `from_pattern` has (3 on the `CORNERS` orbit).
pub fn remap_piece_for_search_pattern(
    orbit: usize,
    from_pattern: &Pattern,
    target_pattern: &Pattern,
    search_pattern: &mut Pattern,
    i: usize,
)
    requires
        orbit < from_pattern.orbits@.len(),
        orbit < target_pattern.orbits@.len(),
        orbit < old(search_pattern).orbits@.len(),
        orbit_wf(from_pattern.orbits@[orbit as int]),
        orbit_wf(old(search_pattern).orbits@[orbit as int]),
        i < from_pattern.orbits@[orbit as int].pieces@.len(),
        i < old(search_pattern).orbits@[orbit as int].pieces@.len(),
        from_pattern.orbits@[orbit as int].pieces@[i as int] < target_pattern.orbits@[orbit as int].pieces@.len(),
    ensures
        final(search_pattern).orbits@.len() == old(search_pattern).orbits@.len(),
        forall|k: int|
            0 <= k < old(search_pattern).orbits@.len() && k != orbit ==> #[trigger] final(search_pattern).orbits@[k]
                == old(search_pattern).orbits@[k],
        ({
            let before = old(search_pattern).orbits@[orbit as int];
            let after = final(search_pattern).orbits@[orbit as int];
            let from = from_pattern.orbits@[orbit as int];
            &&& after.name == before.name
            &&& after.num_orientations == before.num_orientations
            &&& after.orientation_mods@ == before.orientation_mods@
            &&& after.pieces@ == before.pieces@.update(
                i as int,
                target_pattern.orbits@[orbit as int].pieces@[from.pieces@[i as int] as int],
            )
            &&& after.orientations@ == before.orientations@.update(
                i as int,
                if before.name@ == "CORNERS"@ {
                    3u8
                } else {
                    from.orientations@[i as int]
                },
            )
        }),
{
    let old_piece = from_pattern.orbits[orbit].pieces[i];
    let old_piece_mapped = target_pattern.orbits[orbit].pieces[old_piece as usize];
    let ori = from_pattern.orbits[orbit].orientations[i];
    let is_corners = str_equals(search_pattern.orbits[orbit].name.as_str(), "CORNERS");
    let orientation = if is_corners {
        3
    } else {
        ori
    };
    search_pattern.orbits[orbit].pieces[i] = old_piece_mapped;
    search_pattern.orbits[orbit].orientations[i] = orientation;
}

/// The first `n` positions of the orbit `o` are those of a phase search pattern made from the
/// main pattern's orbit `m` and the target orbit `t`: each piece remapped through `m`, and
/// the orientation forced by the orbit's name or else taken from `m`.
pub open spec fn phase_search_prefix(m: PatternOrbit, t: PatternOrbit, o: PatternOrbit, n: int) -> bool {
    forall|i: int|
        0 <= i < n ==> {
            &&& #[trigger] o.pieces@[i] == t.pieces@[m.pieces@[i] as int]
            &&& o.orientations@[i] == match forced_orientation(t.name@) {
                Some(x) => x,
                None => m.orientations@[i],
            }
        }
}

/// The orbit `o` of a phase search pattern: the target orbit `t` with each position remapped
/// through the main pattern's orbit `m`, and orientations forced by the orbit's name.
pub open spec fn phase_search_orbit(m: PatternOrbit, t: PatternOrbit, o: PatternOrbit) -> bool {
    &&& o.name@ == t.name@
    &&& o.num_orientations == t.num_orientations
    &&& o.orientation_mods@ == t.orientation_mods@
    &&& o.pieces@.len() == m.pieces@.len()
    &&& o.orientations@.len() == m.pieces@.len()
    &&& phase_search_prefix(m, t, o, m.pieces@.len() as int)
}

/// The pattern that a phase of the four-phase 4x4x4 method searches from: the phase's target
/// pattern with every piece remapped through the main search pattern, corner orientations set
/// to 3 and edge orientations set to 2.
pub fn phase_search_pattern(main_search_pattern: &Pattern, target_pattern: &Pattern) -> (r:
    Pattern)
    requires
        pattern_wf(*main_search_pattern),
        pattern_wf(*target_pattern),
        same_shape(*main_search_pattern, *target_pattern),
        pieces_in_range(*main_search_pattern),
    ensures
        r.orbits@.len() == target_pattern.orbits@.len(),
        forall|k: int|
            0 <= k < r.orbits@.len() ==> phase_search_orbit(
                main_search_pattern.orbits@[k],
                target_pattern.orbits@[k],
                #[trigger] r.orbits@[k],
            ),
{
    let mut search = clone_pattern(target_pattern);
    let num_orbits = main_search_pattern.orbits.len();
    let mut k: usize = 0;
    while k < num_orbits
        invariant
            num_orbits == main_search_pattern.orbits@.len(),
            0 <= k <= num_orbits,
            pattern_wf(*main_search_pattern),
            pattern_wf(*target_pattern),
            same_shape(*main_search_pattern, *target_pattern),
            pieces_in_range(*main_search_pattern),
            search.orbits@.len() == num_orbits,
            forall|kk: int|
                0 <= kk < k ==> phase_search_orbit(
                    main_search_pattern.orbits@[kk],
                    target_pattern.orbits@[kk],
                    #[trigger] search.orbits@[kk],
                ),
            forall|kk: int|
                k <= kk < num_orbits ==> same_orbit_values(
                    #[trigger] search.orbits@[kk],
                    target_pattern.orbits@[kk],
                ),
        decreases num_orbits - k,
    {
        let len = main_search_pattern.orbits[k].pieces.len();
        let is_corners = str_equals(search.orbits[k].name.as_str(), "CORNERS");
        let is_edges = str_equals(search.orbits[k].name.as_str(), "EDGES");
        let ghost start = search.orbits@;
        assert(orbit_wf(main_search_pattern.orbits@[k as int]));
        assert(orbit_wf(target_pattern.orbits@[k as int]));
        assert(same_orbit_values(search.orbits@[k as int], target_pattern.orbits@[k as int]));
        let mut i: usize = 0;
        while i < len
            invariant
                num_orbits == main_search_pattern.orbits@.len(),
                0 <= k < num_orbits,
                0 <= i <= len,
                len == main_search_pattern.orbits@[k as int].pieces@.len(),
                orbit_wf(main_search_pattern.orbits@[k as int]),
                orbit_wf(target_pattern.orbits@[k as int]),
                same_shape(*main_search_pattern, *target_pattern),
                pieces_in_range(*main_search_pattern),
                is_corners == (target_pattern.orbits@[k as int].name@ == "CORNERS"@),
                is_edges == (target_pattern.orbits@[k as int].name@ == "EDGES"@),
                search.orbits@.len() == num_orbits,
                forall|kk: int|
                    0 <= kk < num_orbits && kk != k ==> #[trigger] search.orbits@[kk] == start[kk],
                ({
                    let o = search.orbits@[k as int];
                    let t = target_pattern.orbits@[k as int];
                    let m = main_search_pattern.orbits@[k as int];
                    &&& o.name@ == t.name@
                    &&& o.num_orientations == t.num_orientations
                    &&& o.orientation_mods@ == t.orientation_mods@
                    &&& o.pieces@.len() == len
                    &&& o.orientations@.len() == len
                    &&& phase_search_prefix(m, t, o, i as int)
                }),
            decreases len - i,
        {
            assert(main_search_pattern.orbits@[k as int].pieces@[i as int]
                < main_search_pattern.orbits@[k as int].pieces@.len());
            let ghost before = search.orbits@;
            remap_piece_for_search_pattern(k, main_search_pattern, target_pattern, &mut search, i);
            if is_corners {
                search.orbits[k].orientations[i] = 3;
            }
            if is_edges {
                search.orbits[k].orientations[i] = 2;
            }
            proof {
                assert forall|kk: int|
                    0 <= kk < num_orbits && kk != k implies #[trigger] search.orbits@[kk]
                    == start[kk] by {
                    assert(search.orbits@[kk] == before[kk]);
                }
                reveal_strlit("CORNERS");
                reveal_strlit("EDGES");
                assert("CORNERS"@.len() != "EDGES"@.len());
                let o = search.orbits@[k as int];
                let ob = before[k as int];
                let t = target_pattern.orbits@[k as int];
                let m = main_search_pattern.orbits@[k as int];
                assert(o.name@ == t.name@);
                assert forall|ii: int| 0 <= ii < i + 1 implies {
                    &&& #[trigger] o.pieces@[ii] == t.pieces@[m.pieces@[ii] as int]
                    &&& o.orientations@[ii] == match forced_orientation(t.name@) {
                        Some(x) => x,
                        None => m.orientations@[ii],
                    }
                } by {
                    if ii < i {
                        assert(o.pieces@[ii] == ob.pieces@[ii]);
                        assert(o.orientations@[ii] == ob.orientations@[ii]);
                    }
                }
                assert(phase_search_prefix(m, t, o, i + 1));
                assert(o.num_orientations == t.num_orientations);
                assert(o.orientation_mods@ == t.orientation_mods@);
                assert(o.pieces@.len() == len);
                assert(o.orientations@.len() == len);
            }
            i += 1;
        }
        proof {
            assert forall|kk: int| 0 <= kk < k + 1 implies phase_search_orbit(
                main_search_pattern.orbits@[kk],
                target_pattern.orbits@[kk],
                #[trigger] search.orbits@[kk],
            ) by {
                if kk < k {
                    assert(search.orbits@[kk] == start[kk]);
                }
            }
            assert forall|kk: int| k + 1 <= kk < num_orbits implies same_orbit_values(
                #[trigger] search.orbits@[kk],
                target_pattern.orbits@[kk],
            ) by {
                assert(search.orbits@[kk] == start[kk]);
            }
        }
        k += 1;
    }
    search
}

/// How the two wings of a pair sit, as far as the check below has seen them.
#[derive(Debug, Clone, Copy, PartialEq, Eq, Structural)]
pub enum Phase2EdgeOrientation {
    Unknown,
    /// A high piece in a high position, or a low piece in a low position.
    Oriented,
    /// A high piece in a low position, or a low piece in a high position.
    Misoriented,
}

/// The number of wing positions that the phase 2 check looks at.
pub const PHASE2_CHECKED_EDGE_POSITIONS: usize = 23;

/// Whether the piece at `position` sits high-in-low or low-in-high.
pub open spec fn edge_misoriented(pieces: Seq<u8>, position: int) -> bool {
    (edge_to_index()[position] == position) != (edge_to_index()[pieces[position] as int]
        == pieces[position] as int)
}

/// The orientation of the pair that the piece at `position` belongs to.
pub open spec fn pair_orientation(pieces: Seq<u8>, position: int) -> Phase2EdgeOrientation {
    if edge_misoriented(pieces, position) {
        Phase2EdgeOrientation::Misoriented
    } else {
        Phase2EdgeOrientation::Oriented
    }
}

/// The number of misoriented pieces among the first `n` positions.
pub open spec fn misoriented_count(pieces: Seq<u8>, n: int) -> nat
    decreases n,
{
    if n <= 0 {
        0
    } else {
        misoriented_count(pieces, n - 1) + if edge_misoriented(pieces, n - 1) {
            1nat
        } else {
            0nat
        }
    }
}

/// Among the first `n` positions, the two pieces of each pair are both oriented or both
/// misoriented.
pub open spec fn pair_orientations_consistent(pieces: Seq<u8>, n: int) -> bool {
    forall|p1: int, p2: int|
        #![trigger edge_misoriented(pieces, p1), edge_misoriented(pieces, p2)]
        0 <= p1 < n && 0 <= p2 < n && edge_to_index()[pieces[p1] as int]
            == edge_to_index()[pieces[p2] as int] ==> edge_misoriented(pieces, p1)
            == edge_misoriented(pieces, p2)
}

/// Whether a phase 2 solution candidate is kept: the whole pattern (given as its bytes) has an
/// even permutation, the pieces of each wing pair (`edge_pieces`, the wing orbit) are
/// oriented alike, and the number of misoriented pieces is a multiple of 4. Only the first
/// 23 wing positions are looked at.
pub fn phase2_candidate_accepted(pattern_bytes: &[u8], edge_pieces: &[u8]) -> (r: bool)
    requires
        edge_pieces@.len() >= 23,
        forall|i: int| 0 <= i < 23 ==> #[trigger] edge_pieces@[i] < 24,
    ensures
        r == (permutation_parity(pattern_bytes@) == BasicParity::Even
            && pair_orientations_consistent(edge_pieces@, 23) && misoriented_count(edge_pieces@, 23)
            % 4 == 0),
{
    if basic_parity(pattern_bytes) != BasicParity::Even {
        return false;
    }
    let ghost pieces = edge_pieces@;
    let mut edge_parity: u32 = 0;
    let mut known_pair_orientations: Vec<Phase2EdgeOrientation> = Vec::new();
    while known_pair_orientations.len() < 24
        invariant
            known_pair_orientations@.len() <= 24,
            forall|idx: int|
                0 <= idx < known_pair_orientations@.len() ==> #[trigger] known_pair_orientations@[idx]
                    == Phase2EdgeOrientation::Unknown,
        decreases 24 - known_pair_orientations@.len(),
    {
        known_pair_orientations.push(Phase2EdgeOrientation::Unknown);
    }
    let mut position: usize = 0;
    while position < PHASE2_CHECKED_EDGE_POSITIONS
        invariant
            pieces == edge_pieces@,
            pieces.len() >= 23,
            forall|i: int| 0 <= i < 23 ==> #[trigger] pieces[i] < 24,
            permutation_parity(pattern_bytes@) == BasicParity::Even,
            0 <= position <= 23,
            edge_parity == misoriented_count(pieces, position as int),
            edge_parity <= position,
            known_pair_orientations@.len() == 24,
            forall|p: int|
                0 <= p < position ==> known_pair_orientations@[edge_to_index()[pieces[p] as int] as int]
                    == #[trigger] pair_orientation(pieces, p),
            forall|idx: int|
                0 <= idx < 24 && #[trigger] known_pair_orientations@[idx]
                    != Phase2EdgeOrientation::Unknown ==> exists|p: int|
                    0 <= p < position && edge_to_index()[pieces[p] as int] == idx,
            pair_orientations_consistent(pieces, position as int),
        decreases 23 - position,
    {
        let position_is_high = is_high(position);
        let piece = edge_pieces[position];
        let piece_is_high = is_high(piece as usize);
        let pair_orientation_here = if piece_is_high == position_is_high {
            Phase2EdgeOrientation::Oriented
        } else {
            edge_parity += 1;
            Phase2EdgeOrientation::Misoriented
        };
        assert(pair_orientation_here == pair_orientation(pieces, position as int));
        let edge_pair = edge_pair_index(piece as usize);
        let known = known_pair_orientations[edge_pair];
        if known == Phase2EdgeOrientation::Unknown {
            known_pair_orientations.set(edge_pair, pair_orientation_here);
        } else if known != pair_orientation_here {
            proof {
                let p = choose|p: int|
                    0 <= p < position && edge_to_index()[pieces[p] as int] == edge_pair;
                assert(known_pair_orientations@[edge_to_index()[pieces[p] as int] as int]
                    == pair_orientation(pieces, p));
                assert(edge_misoriented(pieces, p) != edge_misoriented(pieces, position as int));
            }
            return false;
        }
        proof {
            assert forall|p1: int, p2: int|
                #![trigger edge_misoriented(pieces, p1), edge_misoriented(pieces, p2)]
                0 <= p1 < position + 1 && 0 <= p2 < position + 1 && edge_to_index()[pieces[p1] as int]
                    == edge_to_index()[pieces[p2] as int] implies edge_misoriented(pieces, p1)
                == edge_misoriented(pieces, p2) by {
                assert(known_pair_orientations@[edge_to_index()[pieces[p1] as int] as int]
                    == pair_orientation(pieces, p1));
                assert(known_pair_orientations@[edge_to_index()[pieces[p2] as int] as int]
                    == pair_orientation(pieces, p2));
            }
            assert forall|idx: int|
                0 <= idx < 24 && #[trigger] known_pair_orientations@[idx]
                    != Phase2EdgeOrientation::Unknown implies exists|p: int|
                0 <= p < position + 1 && edge_to_index()[pieces[p] as int] == idx by {
                if idx == edge_pair {
                    assert(edge_to_index()[pieces[position as int] as int] == idx);
                }
            }
        }
        position += 1;
    }
    edge_parity % 4 == 0
}

} // verus!
