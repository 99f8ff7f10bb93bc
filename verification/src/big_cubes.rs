use vstd::prelude::*;
use vstd::string::StringExecFns;

use crate::alg::{Alg, AlgItem, Move, MovePrefix};
use crate::pattern::{clone_pattern, orbit_wf, pattern_wf, same_orbit_values, Pattern, PatternOrbit};
use crate::random::random_range;
use crate::strings::concat_strs;

verus! {

/// The Speffz index of the DLB corner, the one corner that keeps its identity when big cube
/// orientations are canonicalized.
pub const SPEFFZ_DLB_INDEX: u8 = 6;

/// `num_integer::Integer::is_odd`, which the crate computes as "not even", that is
/// `x & 1 != 0`: the result is whether `x` is odd.
#[verifier::external_body]
fn is_odd(x: u32) -> (r: bool)
    ensures
        r == (x % 2 == 1),
{
    num_integer::Integer::is_odd(&x)
}

/// The values a move holds: its family, its prefix and its amount.
pub open spec fn move_value(m: Move) -> (Seq<char>, Option<MovePrefix>, i32) {
    (m.family@, m.prefix, m.amount)
}

/// The move that turns the outer `inner_slice` layers of the face `family_face` by
/// `amount`: the face move itself for one layer, a wide move beyond it, with a layer prefix
/// from three layers on.
pub open spec fn face_or_wide(inner_slice: int, family_face: Seq<char>, amount: int) -> (
    Seq<char>,
    Option<MovePrefix>,
    i32,
) {
    (
        if inner_slice == 1 {
            family_face
        } else {
            family_face + "w"@
        },
        if inner_slice > 2 {
            Some(MovePrefix::Layer(inner_slice as u32))
        } else {
            None
        },
        amount as i32,
    )
}

/// The move that turns the outer `inner_slice` layers of the face `family_face`.
pub fn face_or_wide_move(inner_slice: u32, family_face: &str, amount: i32) -> (r: Move)
    ensures
        move_value(r) == face_or_wide(inner_slice as int, family_face@, amount as int),
{
    let family = if inner_slice == 1 {
        String::from_str(family_face)
    } else {
        concat_strs(family_face, "w")
    };
    let prefix = if inner_slice > 2 {
        Some(MovePrefix::Layer(inner_slice))
    } else {
        None
    };
    Move { family, prefix, amount }
}

/// A copy of a move.
pub fn clone_move(m: &Move) -> (r: Move)
    ensures
        r == *m,
{
    Move { family: m.family.clone(), prefix: m.prefix, amount: m.amount }
}

/// The moves of `face` over the layer counts `1..=n`, turning by one.
pub open spec fn face_moves(face: Seq<char>, n: nat) -> Seq<(Seq<char>, Option<MovePrefix>, i32)>
    decreases n,
{
    if n == 0 {
        seq![]
    } else {
        face_moves(face, (n - 1) as nat).push(face_or_wide(n as int, face, 1))
    }
}

/// The moves of each face in turn, over the layer counts `1..=n`.
pub open spec fn faces_moves(faces: Seq<Seq<char>>, n: nat) -> Seq<(Seq<char>, Option<MovePrefix>, i32)>
    decreases faces.len(),
{
    if faces.len() == 0 {
        seq![]
    } else {
        faces_moves(faces.drop_last(), n) + face_moves(faces.last(), n)
    }
}

/// The values of a list of moves.
pub open spec fn move_values(moves: Seq<Move>) -> Seq<(Seq<char>, Option<MovePrefix>, i32)> {
    moves.map_values(|m: Move| move_value(m))
}

/// Appends the moves of `face` over the layer counts `1..=n` to `output`.
fn push_face_moves(output: &mut Vec<Move>, face: &str, n: u32)
    ensures
        move_values(final(output)@) == move_values(old(output)@) + face_moves(face@, n as nat),
{
    let ghost start = old(output)@;
    let mut inner_slice: u64 = 1;
    while inner_slice <= n as u64
        invariant
            1 <= inner_slice <= n as u64 + 1,
            move_values(output@) == move_values(start) + face_moves(face@, (inner_slice - 1) as nat),
        decreases n as u64 + 1 - inner_slice,
    {
        let ghost before = output@;
        let m = face_or_wide_move(inner_slice as u32, face, 1);
        output.push(m);
        proof {
            assert(move_values(output@) =~= move_values(before).push(move_value(m)));
            assert(face_moves(face@, inner_slice as nat) == face_moves(face@, (inner_slice - 1) as nat).push(
                face_or_wide(inner_slice as int, face@, 1),
            ));
            assert(move_values(output@) =~= move_values(start) + face_moves(face@, inner_slice as nat));
        }
        inner_slice += 1;
    }
}

/// What the scramble logic knows of a big cube: its size (layers per side).
pub struct BigCubeScrambleInfo {
    pub size: u32,
}

/// The puzzles that the big cube scramble logic serves.
pub trait BigCube {
    fn info() -> BigCubeScrambleInfo;
}

impl BigCubeScrambleInfo {
    /// The moves for depth filtering: `U`, `F` and `R` over one to `size - 1` layers.
    pub fn depth_filtering_generator_moves(&self) -> (r: Vec<Move>)
        requires
            self.size >= 1,
        ensures
            move_values(r@) == faces_moves(seq!["U"@, "F"@, "R"@], (self.size - 1) as nat),
    {
        let mut output: Vec<Move> = Vec::new();
        let n = self.size - 1;
        push_face_moves(&mut output, "U", n);
        push_face_moves(&mut output, "F", n);
        push_face_moves(&mut output, "R", n);
        proof {
            let faces = seq!["U"@, "F"@, "R"@];
            let k = n as nat;
            assert(faces.drop_last() =~= seq!["U"@, "F"@]);
            assert(seq!["U"@, "F"@].drop_last() =~= seq!["U"@]);
            assert(seq!["U"@].drop_last() =~= Seq::<Seq<char>>::empty());
            assert(faces_moves(Seq::<Seq<char>>::empty(), k) =~= seq![]);
            assert(faces_moves(seq!["U"@], k) == faces_moves(Seq::<Seq<char>>::empty(), k) + face_moves("U"@, k));
            assert(faces_moves(seq!["U"@], k) =~= face_moves("U"@, k));
            assert(faces_moves(seq!["U"@, "F"@], k) =~= face_moves("U"@, k) + face_moves("F"@, k));
            assert(faces_moves(faces, k) =~= face_moves("U"@, k) + face_moves("F"@, k) + face_moves("R"@, k));
            assert(move_values(Seq::<Move>::empty()) =~= seq![]);
        }
        output
    }

    /// The moves for scrambling: all six faces over one to `size / 2` layers.
    pub fn scrambling_generator_moves(&self) -> (r: Vec<Move>)
        ensures
            move_values(r@) == faces_moves(
                seq!["U"@, "L"@, "F"@, "R"@, "B"@, "D"@],
                (self.size / 2) as nat,
            ),
    {
        let mut output: Vec<Move> = Vec::new();
        let n = self.size / 2;
        push_face_moves(&mut output, "U", n);
        push_face_moves(&mut output, "L", n);
        push_face_moves(&mut output, "F", n);
        push_face_moves(&mut output, "R", n);
        push_face_moves(&mut output, "B", n);
        push_face_moves(&mut output, "D", n);
        proof {
            let k = n as nat;
            let f1 = seq!["U"@];
            let f2 = seq!["U"@, "L"@];
            let f3 = seq!["U"@, "L"@, "F"@];
            let f4 = seq!["U"@, "L"@, "F"@, "R"@];
            let f5 = seq!["U"@, "L"@, "F"@, "R"@, "B"@];
            let f6 = seq!["U"@, "L"@, "F"@, "R"@, "B"@, "D"@];
            assert(f1.drop_last() =~= Seq::<Seq<char>>::empty());
            assert(f2.drop_last() =~= f1);
            assert(f3.drop_last() =~= f2);
            assert(f4.drop_last() =~= f3);
            assert(f5.drop_last() =~= f4);
            assert(f6.drop_last() =~= f5);
            assert(faces_moves(Seq::<Seq<char>>::empty(), k) =~= seq![]);
            assert(faces_moves(f1, k) == faces_moves(Seq::<Seq<char>>::empty(), k) + face_moves("U"@, k));
            assert(faces_moves(f1, k) =~= face_moves("U"@, k));
            assert(faces_moves(f2, k) =~= face_moves("U"@, k) + face_moves("L"@, k));
            assert(faces_moves(f3, k) =~= face_moves("U"@, k) + face_moves("L"@, k) + face_moves("F"@, k));
            assert(faces_moves(f4, k) =~= face_moves("U"@, k) + face_moves("L"@, k) + face_moves("F"@, k)
                + face_moves("R"@, k));
            assert(faces_moves(f5, k) =~= face_moves("U"@, k) + face_moves("L"@, k) + face_moves("F"@, k)
                + face_moves("R"@, k) + face_moves("B"@, k));
            assert(faces_moves(f6, k) =~= face_moves("U"@, k) + face_moves("L"@, k) + face_moves("F"@, k)
                + face_moves("R"@, k) + face_moves("B"@, k) + face_moves("D"@, k));
            assert(move_values(Seq::<Move>::empty()) =~= seq![]);
        }
        output
    }

    /// The number of random moves of a scramble: 20 per layer, less 40 (60 on the 5x5x5).
    pub fn num_random_moves(&self) -> (r: usize)
        requires
            self.size >= 5,
            self.size as int * 20 <= usize::MAX,
        ensures
            r == self.size as int * 20 - 40,
    {
        (self.size as usize) * 20 - 40
    }

    /// The suffixes that may end a scramble without inspection on an odd cube: a turn of the
    /// middle layers of `R` or `F` (or none), then a turn of the middle layers of `U` (or none).
    pub fn no_inspection_suffixes_from(&self) -> (r: [Vec<Option<Move>>; 2])
        requires
            self.size % 2 == 1,
        ensures
            r[0]@.len() == 6,
            r[1]@.len() == 4,
            option_move_values(r[0]@) == no_inspection_suffix_values(self.size, 0),
            option_move_values(r[1]@) == no_inspection_suffix_values(self.size, 1),
    {
        let layer = self.size / 2 + 1;
        let mut s1: Vec<Option<Move>> = Vec::new();
        s1.push(None);
        s1.push(Some(face_or_wide_move(layer, "R", 1)));
        s1.push(Some(face_or_wide_move(layer, "R", 2)));
        s1.push(Some(face_or_wide_move(layer, "R", -1)));
        s1.push(Some(face_or_wide_move(layer, "F", 1)));
        s1.push(Some(face_or_wide_move(layer, "F", -1)));
        let mut s2: Vec<Option<Move>> = Vec::new();
        s2.push(None);
        s2.push(Some(face_or_wide_move(layer, "U", 1)));
        s2.push(Some(face_or_wide_move(layer, "U", 2)));
        s2.push(Some(face_or_wide_move(layer, "U", -1)));
        assert(option_move_values(s1@) =~= seq![
            None,
            Some(face_or_wide(layer as int, "R"@, 1)),
            Some(face_or_wide(layer as int, "R"@, 2)),
            Some(face_or_wide(layer as int, "R"@, -1)),
            Some(face_or_wide(layer as int, "F"@, 1)),
            Some(face_or_wide(layer as int, "F"@, -1)),
        ]);
        assert(option_move_values(s2@) =~= seq![
            None,
            Some(face_or_wide(layer as int, "U"@, 1)),
            Some(face_or_wide(layer as int, "U"@, 2)),
            Some(face_or_wide(layer as int, "U"@, -1)),
        ]);
        [s1, s2]
    }
}

/// The values of a list of optional moves.
pub open spec fn option_move_values(moves: Seq<Option<Move>>) -> Seq<
    Option<(Seq<char>, Option<MovePrefix>, i32)>,
> {
    moves.map_values(
        |m: Option<Move>|
            match m {
                Some(m) => Some(move_value(m)),
                None => None,
            },
    )
}

/// The first `n` positions of the orbit `o` are those of the orientation canonicalization
/// mask made from the default orbit `d`: piece 0 with orientation 0 modulo 1, except the DLB
/// corner (position 6 of the eight-piece orbit), which keeps what `d` has there.
pub open spec fn canonicalization_prefix(d: PatternOrbit, o: PatternOrbit, n: int) -> bool {
    forall|i: int|
        0 <= i < n ==> if d.pieces@.len() == 8 && i == SPEFFZ_DLB_INDEX {
            &&& #[trigger] o.pieces@[i] == d.pieces@[i]
            &&& o.orientations@[i] == d.orientations@[i]
            &&& o.orientation_mods@[i] == d.orientation_mods@[i]
        } else {
            &&& o.pieces@[i] == 0
            &&& o.orientations@[i] == 0
            &&& o.orientation_mods@[i] == 1
        }
}

/// From position `n` on, the orbit `o` holds what `d` holds.
pub open spec fn same_from(d: PatternOrbit, o: PatternOrbit, n: int) -> bool {
    forall|i: int|
        n <= i < d.pieces@.len() ==> {
            &&& #[trigger] o.pieces@[i] == d.pieces@[i]
            &&& o.orientations@[i] == d.orientations@[i]
            &&& o.orientation_mods@[i] == d.orientation_mods@[i]
        }
}

/// The orbit `o` of the orientation canonicalization mask made from the default orbit `d`.
pub open spec fn canonicalization_orbit(d: PatternOrbit, o: PatternOrbit) -> bool {
    &&& o.name@ == d.name@
    &&& o.num_orientations == d.num_orientations
    &&& o.pieces@.len() == d.pieces@.len()
    &&& o.orientations@.len() == d.pieces@.len()
    &&& o.orientation_mods@.len() == d.pieces@.len()
    &&& canonicalization_prefix(d, o, d.pieces@.len() as int)
}

impl BigCubeScrambleInfo {
    /// The mask that forgets everything but the DLB corner, so that the cube's orientation can
    /// be read off the masked pattern. `default_pattern` is the cube's solved pattern.
    pub fn orientation_canonicalization_mask(&self, default_pattern: &Pattern) -> (r: Pattern)
        requires
            pattern_wf(*default_pattern),
        ensures
            r.orbits@.len() == default_pattern.orbits@.len(),
            forall|k: int|
                0 <= k < r.orbits@.len() ==> canonicalization_orbit(
                    default_pattern.orbits@[k],
                    #[trigger] r.orbits@[k],
                ),
    {
        let mut mask = clone_pattern(default_pattern);
        let num_orbits = mask.orbits.len();
        let mut k: usize = 0;
        while k < num_orbits
            invariant
                num_orbits == default_pattern.orbits@.len(),
                0 <= k <= num_orbits,
                pattern_wf(*default_pattern),
                mask.orbits@.len() == num_orbits,
                forall|kk: int|
                    0 <= kk < k ==> canonicalization_orbit(
                        default_pattern.orbits@[kk],
                        #[trigger] mask.orbits@[kk],
                    ),
                forall|kk: int|
                    k <= kk < num_orbits ==> same_orbit_values(
                        #[trigger] mask.orbits@[kk],
                        default_pattern.orbits@[kk],
                    ),
            decreases num_orbits - k,
        {
            let ghost start = mask.orbits@;
            let ghost d = default_pattern.orbits@[k as int];
            assert(orbit_wf(d));
            assert(same_orbit_values(mask.orbits@[k as int], d));
            let num_pieces = mask.orbits[k].pieces.len();
            let orbit_is_corners = num_pieces == 8;
            let mut i: usize = 0;
            while i < num_pieces
                invariant
                    0 <= k < num_orbits,
                    0 <= i <= num_pieces,
                    num_pieces == d.pieces@.len(),
                    orbit_wf(d),
                    orbit_is_corners == (num_pieces == 8),
                    mask.orbits@.len() == num_orbits,
                    forall|kk: int|
                        0 <= kk < num_orbits && kk != k ==> #[trigger] mask.orbits@[kk] == start[kk],
                    ({
                        let o = mask.orbits@[k as int];
                        &&& o.name@ == d.name@
                        &&& o.num_orientations == d.num_orientations
                        &&& o.pieces@.len() == num_pieces
                        &&& o.orientations@.len() == num_pieces
                        &&& o.orientation_mods@.len() == num_pieces
                        &&& same_from(d, o, i as int)
                        &&& canonicalization_prefix(d, o, i as int)
                    }),
                decreases num_pieces - i,
            {
                let ghost before = mask.orbits@[k as int];
                if !(orbit_is_corners && i == SPEFFZ_DLB_INDEX as usize) {
                    mask.orbits[k].orientations[i] = 0;
                    mask.orbits[k].orientation_mods[i] = 1;
                    mask.orbits[k].pieces[i] = 0;
                }
                proof {
                    let o = mask.orbits@[k as int];
                    assert forall|ii: int| i + 1 <= ii < num_pieces implies {
                        &&& #[trigger] o.pieces@[ii] == d.pieces@[ii]
                        &&& o.orientations@[ii] == d.orientations@[ii]
                        &&& o.orientation_mods@[ii] == d.orientation_mods@[ii]
                    } by {
                        assert(o.pieces@[ii] == before.pieces@[ii]);
                        assert(before.pieces@[ii] == d.pieces@[ii]);
                    }
                    assert(same_from(d, o, i + 1));
                    assert forall|ii: int| 0 <= ii < i + 1 implies if num_pieces == 8 && ii
                        == SPEFFZ_DLB_INDEX {
                        &&& #[trigger] o.pieces@[ii] == d.pieces@[ii]
                        &&& o.orientations@[ii] == d.orientations@[ii]
                        &&& o.orientation_mods@[ii] == d.orientation_mods@[ii]
                    } else {
                        &&& o.pieces@[ii] == 0
                        &&& o.orientations@[ii] == 0
                        &&& o.orientation_mods@[ii] == 1
                    } by {
                        if ii < i {
                            assert(o.pieces@[ii] == before.pieces@[ii]);
                        } else {
                            assert(before.pieces@[ii] == d.pieces@[ii]);
                        }
                    }
                    assert(canonicalization_prefix(d, o, i + 1));
                }
                i += 1;
            }
            proof {
                assert(canonicalization_orbit(d, mask.orbits@[k as int]));
                assert forall|kk: int| 0 <= kk < k + 1 implies canonicalization_orbit(
                    default_pattern.orbits@[kk],
                    #[trigger] mask.orbits@[kk],
                ) by {
                    if kk < k {
                        assert(mask.orbits@[kk] == start[kk]);
                    }
                }
                assert forall|kk: int| k + 1 <= kk < num_orbits implies same_orbit_values(
                    #[trigger] mask.orbits@[kk],
                    default_pattern.orbits@[kk],
                ) by {
                    assert(mask.orbits@[kk] == start[kk]);
                }
            }
            k += 1;
        }
        mask
    }
}

/// The nodes that a suffix list adds for the choice `c`: the move there, if the list is not
/// empty and holds a move at `c`.
pub open spec fn chosen_suffix(list: Seq<Option<Move>>, c: int) -> Seq<AlgItem> {
    if list.len() > 0 {
        match list[c] {
            Some(m) => seq![AlgItem::Move(m)],
            None => seq![],
        }
    } else {
        seq![]
    }
}

/// A choice is a position of the list, or anything for an empty list.
pub open spec fn suffix_choice_ok(list: Seq<Option<Move>>, c: int) -> bool {
    list.len() == 0 || 0 <= c < list.len()
}

/// Appends to `alg` the suffix chosen from each list in turn (nothing for an empty list or
/// for a `None` entry).
pub fn add_chosen_suffixes(alg: Alg, suffixes_from: &[Vec<Option<Move>>; 2], choices: [usize; 2]) -> (r: Alg)
    requires
        suffix_choice_ok(suffixes_from[0]@, choices[0] as int),
        suffix_choice_ok(suffixes_from[1]@, choices[1] as int),
    ensures
        r.nodes@ == alg.nodes@ + chosen_suffix(suffixes_from[0]@, choices[0] as int) + chosen_suffix(
            suffixes_from[1]@,
            choices[1] as int,
        ),
{
    let mut nodes = alg.nodes;
    let ghost start = nodes@;
    let mut k: usize = 0;
    while k < 2
        invariant
            0 <= k <= 2,
            suffix_choice_ok(suffixes_from[0]@, choices[0] as int),
            suffix_choice_ok(suffixes_from[1]@, choices[1] as int),
            k == 0 ==> nodes@ == start,
            k == 1 ==> nodes@ == start + chosen_suffix(suffixes_from[0]@, choices[0] as int),
            k == 2 ==> nodes@ == start + chosen_suffix(suffixes_from[0]@, choices[0] as int)
                + chosen_suffix(suffixes_from[1]@, choices[1] as int),
        decreases 2 - k,
    {
        let suffix_from = &suffixes_from[k];
        let ghost before = nodes@;
        if suffix_from.len() > 0 {
            match &suffix_from[choices[k]] {
                Some(m) => {
                    nodes.push(AlgItem::Move(clone_move(m)));
                },
                None => {},
            }
        }
        proof {
            assert(nodes@ =~= before + chosen_suffix(suffixes_from[k as int]@, choices[k as int] as int));
        }
        k += 1;
    }
    Alg { nodes }
}

/// Appends to `alg` a suffix picked at random from each list in turn (nothing for an empty
/// list or for a `None` entry).
pub fn add_random_suffixes_from(alg: Alg, suffixes_from: [Vec<Option<Move>>; 2]) -> (r: Alg)
    requires
        suffixes_from[0]@.len() <= i64::MAX,
        suffixes_from[1]@.len() <= i64::MAX,
    ensures
        exists|c0: int, c1: int|
            suffix_choice_ok(suffixes_from[0]@, c0) && suffix_choice_ok(suffixes_from[1]@, c1)
                && r.nodes@ == alg.nodes@ + chosen_suffix(suffixes_from[0]@, c0) + chosen_suffix(
                suffixes_from[1]@,
                c1,
            ),
{
    let c0 = if suffixes_from[0].len() > 0 {
        random_range(0, suffixes_from[0].len() as i64) as usize
    } else {
        0
    };
    let c1 = if suffixes_from[1].len() > 0 {
        random_range(0, suffixes_from[1].len() as i64) as usize
    } else {
        0
    };
    let r = add_chosen_suffixes(alg, &suffixes_from, [c0, c1]);
    assert(suffix_choice_ok(suffixes_from[0]@, c0 as int) && suffix_choice_ok(suffixes_from[1]@, c1 as int));
    r
}

/// What the scramble asks of its end.
pub enum BigCubeScrambleFinderSuffixConstraints {
    Unconstrained,
    ForNoInspection,
}

/// The options of a big cube scramble.
pub struct BigCubeScrambleFinderScrambleOptions {
    pub suffix_constraints: BigCubeScrambleFinderSuffixConstraints,
}

/// Ends a random move scramble as the options ask: for a scramble without inspection on an
/// odd cube, a random suffix of middle-layer turns is appended; otherwise the alg stays.
pub fn apply_suffix_constraints(
    info: &BigCubeScrambleInfo,
    alg: Alg,
    scramble_options: &BigCubeScrambleFinderScrambleOptions,
) -> (r: Alg)
    ensures
        match scramble_options.suffix_constraints {
            BigCubeScrambleFinderSuffixConstraints::ForNoInspection => info.size % 2 == 1,
            BigCubeScrambleFinderSuffixConstraints::Unconstrained => false,
        } ==> exists|c0: int, c1: int, suffixes: [Vec<Option<Move>>; 2]|
            suffix_choice_ok(suffixes[0]@, c0) && suffix_choice_ok(suffixes[1]@, c1)
                && option_move_values(suffixes[0]@) == no_inspection_suffix_values(info.size, 0)
                && option_move_values(suffixes[1]@) == no_inspection_suffix_values(info.size, 1)
                && r.nodes@ == alg.nodes@ + chosen_suffix(suffixes[0]@, c0) + chosen_suffix(
                suffixes[1]@,
                c1,
            ),
        !match scramble_options.suffix_constraints {
            BigCubeScrambleFinderSuffixConstraints::ForNoInspection => info.size % 2 == 1,
            BigCubeScrambleFinderSuffixConstraints::Unconstrained => false,
        } ==> r.nodes@ == alg.nodes@,
{
    match scramble_options.suffix_constraints {
        BigCubeScrambleFinderSuffixConstraints::Unconstrained => alg,
        BigCubeScrambleFinderSuffixConstraints::ForNoInspection => {
            if is_odd(info.size) {
                let suffixes = info.no_inspection_suffixes_from();
                add_random_suffixes_from(alg, suffixes)
            } else {
                alg
            }
        },
    }
}

/// The values of the no-inspection suffix list `k` (0 or 1) of a cube of size `size`.
pub open spec fn no_inspection_suffix_values(size: u32, k: int) -> Seq<
    Option<(Seq<char>, Option<MovePrefix>, i32)>,
> {
    let layer = size / 2 + 1;
    if k == 0 {
        seq![
            None,
            Some(face_or_wide(layer, "R"@, 1)),
            Some(face_or_wide(layer, "R"@, 2)),
            Some(face_or_wide(layer, "R"@, -1)),
            Some(face_or_wide(layer, "F"@, 1)),
            Some(face_or_wide(layer, "F"@, -1)),
        ]
    } else {
        seq![
            None,
            Some(face_or_wide(layer, "U"@, 1)),
            Some(face_or_wide(layer, "U"@, 2)),
            Some(face_or_wide(layer, "U"@, -1)),
        ]
    }
}

/// The 5x5x5 cube.
pub struct Cube5x5x5 {}

impl BigCube for Cube5x5x5 {
    fn info() -> (r: BigCubeScrambleInfo)
        ensures
            r.size == 5,
    {
        BigCubeScrambleInfo { size: 5 }
    }
}

/// The 6x6x6 cube.
pub struct Cube6x6x6 {}

impl BigCube for Cube6x6x6 {
    fn info() -> (r: BigCubeScrambleInfo)
        ensures
            r.size == 6,
    {
        BigCubeScrambleInfo { size: 6 }
    }
}

/// The 7x7x7 cube.
pub struct Cube7x7x7 {}

impl BigCube for Cube7x7x7 {
    fn info() -> (r: BigCubeScrambleInfo)
        ensures
            r.size == 7,
    {
        BigCubeScrambleInfo { size: 7 }
    }
}

} // verus!
