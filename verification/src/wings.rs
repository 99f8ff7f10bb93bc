use vstd::prelude::*;

use crate::parity::{basic_parity, flipped, parity_sum, permutation_parity, BasicParity};

verus! {

/// The number of wing edge pieces of a 4x4x4 cube.
pub const NUM_WINGS: u8 = 24;

/// For each wing, the primary wing of its dedge (double edge) in the solved state. A primary
/// position is any wing position that can be reached from piece 0 (UBl) using <U, L, R, D>; a
/// primary piece is any piece that starts in a primary position.
pub open spec fn wing_to_primary_wing_in_dedge() -> Seq<u8> {
    seq![0u8, 1, 2, 3, 3, 11, 23, 17, 2, 9, 20, 11, 1, 19, 21, 9, 0, 17, 22, 19, 20, 21, 22, 23]
}

/// For each wing, the other wing of its dedge in the solved state.
pub open spec fn wing_to_partner_wing() -> Seq<u8> {
    seq![16u8, 12, 8, 4, 3, 11, 23, 17, 2, 15, 20, 5, 1, 19, 21, 9, 0, 7, 22, 13, 10, 14, 18, 6]
}

/// For each wing position, whether it is a primary position.
pub open spec fn position_is_primary() -> Seq<bool> {
    seq![
        true, true, true, true, false, false, false, false, false, true, false, true, false,
        false, false, false, false, true, false, true, true, true, true, true,
    ]
}

/// The primary wing of the dedge of wing `w`.
pub open spec fn primary_wing(w: u8) -> u8 {
    wing_to_primary_wing_in_dedge()[w as int]
}

/// The partner wing of wing `w`.
pub open spec fn partner_wing(w: u8) -> u8 {
    wing_to_partner_wing()[w as int]
}

/// Whether wing position (or piece) `w` is primary.
pub open spec fn is_primary(w: u8) -> bool {
    position_is_primary()[w as int]
}

/// Whether a sequence is the wing orbit of a pattern: a piece number below 24 at each of the 24
/// positions.
pub open spec fn valid_wings(wings: Seq<u8>) -> bool {
    &&& wings.len() == NUM_WINGS
    &&& forall|i: int| 0 <= i < wings.len() ==> #[trigger] wings[i] < NUM_WINGS
}

/// The primary wing of the dedge of wing `w`.
pub fn primary_wing_lookup(w: u8) -> (r: u8)
    requires
        w < NUM_WINGS,
    ensures
        r == primary_wing(w),
        r < NUM_WINGS,
{
    let table: [u8; 24] = [0, 1, 2, 3, 3, 11, 23, 17, 2, 9, 20, 11, 1, 19, 21, 9, 0, 17, 22, 19, 20, 21, 22, 23];
    assert(table@ =~= wing_to_primary_wing_in_dedge());
    table[w as usize]
}

/// The partner wing of wing `w`.
pub fn partner_wing_lookup(w: u8) -> (r: u8)
    requires
        w < NUM_WINGS,
    ensures
        r == partner_wing(w),
        r < NUM_WINGS,
{
    let table: [u8; 24] = [16, 12, 8, 4, 3, 11, 23, 17, 2, 15, 20, 5, 1, 19, 21, 9, 0, 7, 22, 13, 10, 14, 18, 6];
    assert(table@ =~= wing_to_partner_wing());
    table[w as usize]
}

/// Whether wing position (or piece) `w` is primary.
pub fn position_is_primary_lookup(w: u8) -> (r: bool)
    requires
        w < NUM_WINGS,
    ensures
        r == is_primary(w),
{
    let table: [bool; 24] = [
        true, true, true, true, false, false, false, false, false, true, false, true, false,
        false, false, false, false, true, false, true, true, true, true, true,
    ];
    assert(table@ =~= position_is_primary());
    table[w as usize]
}

/// The partner relation pairs up the wings: it has no fixed point and undoes itself, and a wing
/// and its partner belong to the same dedge, exactly one of them primary.
pub proof fn lemma_partner_wing_pairs(w: u8)
    requires
        w < NUM_WINGS,
    ensures
        partner_wing(w) < NUM_WINGS,
        partner_wing(w) != w,
        partner_wing(partner_wing(w)) == w,
        primary_wing(partner_wing(w)) == primary_wing(w),
        is_primary(partner_wing(w)) != is_primary(w),
        is_primary(w) ==> primary_wing(w) == w,
        !is_primary(w) ==> primary_wing(w) == partner_wing(w),
{
    assert(wing_to_partner_wing()[0] == 16);
    assert(wing_to_partner_wing()[16] == 0);
    assert(wing_to_partner_wing()[1] == 12);
    assert(wing_to_partner_wing()[12] == 1);
    assert(wing_to_partner_wing()[2] == 8);
    assert(wing_to_partner_wing()[8] == 2);
    assert(wing_to_partner_wing()[3] == 4);
    assert(wing_to_partner_wing()[4] == 3);
    assert(wing_to_partner_wing()[5] == 11);
    assert(wing_to_partner_wing()[11] == 5);
    assert(wing_to_partner_wing()[6] == 23);
    assert(wing_to_partner_wing()[23] == 6);
    assert(wing_to_partner_wing()[7] == 17);
    assert(wing_to_partner_wing()[17] == 7);
    assert(wing_to_partner_wing()[9] == 15);
    assert(wing_to_partner_wing()[15] == 9);
    assert(wing_to_partner_wing()[10] == 20);
    assert(wing_to_partner_wing()[20] == 10);
    assert(wing_to_partner_wing()[13] == 19);
    assert(wing_to_partner_wing()[19] == 13);
    assert(wing_to_partner_wing()[14] == 21);
    assert(wing_to_partner_wing()[21] == 14);
    assert(wing_to_partner_wing()[18] == 22);
    assert(wing_to_partner_wing()[22] == 18);
}

// ------------------------------------------------------------------------------------------
// High and low edges (the four-phase convention)
// ------------------------------------------------------------------------------------------

/// For each edge (wing), the index of its high-low pair: the position index of the high piece.
pub open spec fn edge_to_index() -> Seq<usize> {
    seq![0usize, 1, 2, 3, 3, 1, 23, 17, 2, 9, 20, 11, 1, 19, 21, 9, 0, 17, 22, 19, 20, 21, 22, 23]
}

/// Whether a position or a piece is high (the same test serves both).
pub fn is_high(position_or_piece: usize) -> (r: bool)
    requires
        position_or_piece < 24,
    ensures
        r == (edge_to_index()[position_or_piece as int] == position_or_piece),
{
    let table: [usize; 24] = [0, 1, 2, 3, 3, 1, 23, 17, 2, 9, 20, 11, 1, 19, 21, 9, 0, 17, 22, 19, 20, 21, 22, 23];
    assert(table@ =~= edge_to_index());
    table[position_or_piece] == position_or_piece
}

// ------------------------------------------------------------------------------------------
// Phase 2: separating the wings of each dedge
// ------------------------------------------------------------------------------------------

/// No two primary positions (or no two secondary positions, as `primary` says) hold wings of
/// the same dedge.
pub open spec fn dedges_distinct_among(wings: Seq<u8>, primary: bool) -> bool {
    forall|i: int, j: int|
        #![trigger primary_wing(wings[i]), primary_wing(wings[j])]
        0 <= i < j < wings.len() && is_primary(i as u8) == primary && is_primary(j as u8)
            == primary ==> primary_wing(wings[i]) != primary_wing(wings[j])
}

/// The number of positions below `n` that are primary and hold a primary piece.
pub open spec fn primary_in_primary_count(wings: Seq<u8>, n: int) -> nat
    decreases n,
{
    if n <= 0 {
        0
    } else {
        primary_in_primary_count(wings, n - 1) + if is_primary((n - 1) as u8) && is_primary(
            wings[n - 1],
        ) {
            1nat
        } else {
            0nat
        }
    }
}

/// Whether each dedge has one wing in a primary position and the other in a secondary position,
/// with an even number of primary pieces in primary positions.
pub open spec fn wing_pairs_separated(wings: Seq<u8>) -> bool {
    &&& dedges_distinct_among(wings, true)
    &&& dedges_distinct_among(wings, false)
    &&& primary_in_primary_count(wings, 24) % 2 == 0
}

/// Whether each dedge has one wing in a primary position and the other in a secondary position
/// (its two wings are never both in primary or both in secondary positions), with an even number
/// of primary pieces in primary positions.
pub fn is_each_wing_pair_separated_across_primary_and_secondary(wings: &[u8]) -> (r: bool)
    requires
        valid_wings(wings@),
    ensures
        r == wing_pairs_separated(wings@),
{
    let mut seen_in_primary_position: [bool; 24] = [false; 24];
    let mut seen_in_secondary_position: [bool; 24] = [false; 24];
    let mut primary_pieces_in_primary_positions_parity = BasicParity::Even;
    let mut position: u8 = 0;
    while position < NUM_WINGS
        invariant
            0 <= position <= 24,
            valid_wings(wings@),
            primary_pieces_in_primary_positions_parity == crate::parity::parity_of_count(
                primary_in_primary_count(wings@, position as int),
            ),
            forall|d: int|
                0 <= d < 24 ==> (seen_in_primary_position@[d] <==> exists|j: int|
                    0 <= j < position && is_primary(j as u8) && #[trigger] primary_wing(wings@[j])
                        == d),
            forall|d: int|
                0 <= d < 24 ==> (seen_in_secondary_position@[d] <==> exists|j: int|
                    0 <= j < position && !is_primary(j as u8) && #[trigger] primary_wing(wings@[j])
                        == d),
            forall|i: int, j: int|
                #![trigger primary_wing(wings@[i]), primary_wing(wings@[j])]
                0 <= i < j < position && is_primary(i as u8) == is_primary(j as u8)
                    ==> primary_wing(wings@[i]) != primary_wing(wings@[j]),
        decreases 24 - position,
    {
        let piece = wings[position as usize];
        let position_primary = position_is_primary_lookup(position);
        let primary_piece = primary_wing_lookup(piece);
        proof {
            lemma_partner_wing_pairs(piece);
        }
        if position_primary {
            if position_is_primary_lookup(piece) {
                primary_pieces_in_primary_positions_parity.flip();
            }
            if seen_in_primary_position[primary_piece as usize] {
                proof {
                    let j = choose|j: int|
                        0 <= j < position && is_primary(j as u8) && #[trigger] primary_wing(
                            wings@[j],
                        ) == primary_piece;
                    assert(primary_wing(wings@[position as int]) == primary_piece);
                    assert(!dedges_distinct_among(wings@, true));
                }
                return false;
            }
            seen_in_primary_position[primary_piece as usize] = true;
        } else {
            if seen_in_secondary_position[primary_piece as usize] {
                proof {
                    let j = choose|j: int|
                        0 <= j < position && !is_primary(j as u8) && #[trigger] primary_wing(
                            wings@[j],
                        ) == primary_piece;
                    assert(primary_wing(wings@[position as int]) == primary_piece);
                    assert(!dedges_distinct_among(wings@, false));
                }
                return false;
            }
            seen_in_secondary_position[primary_piece as usize] = true;
        }
        proof {
            assert(primary_wing(wings@[position as int]) == primary_piece);
        }
        position += 1;
    }
    primary_pieces_in_primary_positions_parity == BasicParity::Even
}

// ------------------------------------------------------------------------------------------
// Phase 3: PLL parity
// ------------------------------------------------------------------------------------------

/// The dedges (by primary wing) of the wings in the primary positions below `n`, in position
/// order.
pub open spec fn primary_position_dedges(wings: Seq<u8>, n: int) -> Seq<u8>
    decreases n,
{
    if n <= 0 {
        Seq::empty()
    } else if is_primary((n - 1) as u8) {
        primary_position_dedges(wings, n - 1).push(primary_wing(wings[n - 1]))
    } else {
        primary_position_dedges(wings, n - 1)
    }
}

/// The PLL parity orientation of phase 3: `1` when the corner permutation and the permutation of
/// dedges over the primary positions have different parities, else `0`.
pub open spec fn pll_parity_orientation(corners: Seq<u8>, wings: Seq<u8>) -> u8 {
    crate::parity::parity_bit(
        parity_sum(
            permutation_parity(corners),
            permutation_parity(primary_position_dedges(wings, 24)),
        ),
    )
}

/// The PLL parity orientation of phase 3, from the corner orbit and the wing orbit of a pattern.
pub fn phase3_pll_parity_orientation(corners: &[u8], wings: &[u8]) -> (r: u8)
    requires
        valid_wings(wings@),
    ensures
        r == pll_parity_orientation(corners@, wings@),
{
    let mut wings_in_primary_positions: Vec<u8> = Vec::new();
    let mut i: u8 = 0;
    while i < NUM_WINGS
        invariant
            0 <= i <= 24,
            valid_wings(wings@),
            wings_in_primary_positions@ == primary_position_dedges(wings@, i as int),
        decreases 24 - i,
    {
        if position_is_primary_lookup(i) {
            wings_in_primary_positions.push(primary_wing_lookup(wings[i as usize]));
        }
        i += 1;
    }
    basic_parity(corners).add(basic_parity(wings_in_primary_positions.as_slice())).to_0_or_1()
}

// ------------------------------------------------------------------------------------------
// Phase 4: the reduced 3x3x3
// ------------------------------------------------------------------------------------------

/// For each 3x3x3 edge position (Reid order), the primary wing position of the 4x4x4 it reads.
pub open spec fn reid_piece_to_primary_wing_position() -> Seq<u8> {
    seq![2u8, 1, 0, 3, 20, 21, 22, 23, 9, 11, 19, 17]
}

/// For each wing, the 3x3x3 edge piece (Reid order) of its dedge.
pub open spec fn wing_to_reid_piece() -> Seq<u8> {
    seq![2u8, 1, 0, 3, 3, 9, 7, 11, 0, 8, 4, 9, 1, 10, 5, 8, 2, 11, 6, 10, 4, 5, 6, 7]
}

/// The 3x3x3 edge orbit of a reduced 4x4x4 (given by its wing orbit): at each edge position,
/// the Reid piece of the wing in the matching primary position, oriented (`0`) exactly when
/// that wing is a primary piece.
pub open spec fn phase4_edges(wings: Seq<u8>) -> (Seq<u8>, Seq<u8>) {
    (
        Seq::new(
            12,
            |e: int| wing_to_reid_piece()[wings[reid_piece_to_primary_wing_position()[e] as int] as int],
        ),
        Seq::new(
            12,
            |e: int|
                if is_primary(wings[reid_piece_to_primary_wing_position()[e] as int]) {
                    0u8
                } else {
                    1u8
                },
        ),
    )
}

/// The Reid piece of the dedge of wing `w` (as a position below 24).
spec fn reid_of(w: int) -> int {
    wing_to_reid_piece()[w] as int
}

/// The partner of wing `w` (as a position below 24).
spec fn partner_of(w: int) -> int {
    wing_to_partner_wing()[w] as int
}

/// Wing `w` and every wing from `v` on share a Reid piece only within one dedge.
spec fn reid_apart_from(w: int, v: int) -> bool
    decreases 24 - v,
{
    if v >= 24 || v < 0 {
        true
    } else {
        (reid_of(v) == reid_of(w) ==> v == w || v == partner_of(w)) && reid_apart_from(w, v + 1)
    }
}

/// Every wing from `w` on reads as the Reid piece of its partner, below 12, and shares its Reid
/// piece with no wing outside its dedge.
spec fn reid_ok_from(w: int) -> bool
    decreases 24 - w,
{
    if w >= 24 || w < 0 {
        true
    } else {
        &&& partner_of(w) < 24
        &&& reid_of(w) < 12
        &&& reid_of(partner_of(w)) == reid_of(w)
        &&& reid_apart_from(w, 0)
        &&& reid_ok_from(w + 1)
    }
}

proof fn lemma_reid_apart_from(w: int, v: int, u: int)
    requires
        0 <= v <= u < 24,
        reid_apart_from(w, v),
    ensures
        reid_of(u) == reid_of(w) ==> u == w || u == partner_of(w),
    decreases u - v,
{
    if v < u {
        lemma_reid_apart_from(w, v + 1, u);
    }
}

proof fn lemma_reid_ok_from(k: int, w: int)
    requires
        0 <= k <= w < 24,
        reid_ok_from(k),
    ensures
        partner_of(w) < 24,
        reid_of(w) < 12,
        reid_of(partner_of(w)) == reid_of(w),
        reid_apart_from(w, 0),
    decreases w - k,
{
    if k < w {
        lemma_reid_ok_from(k + 1, w);
    }
}

/// Both wings of a dedge read as the same 3x3x3 edge of the reduced cube, below 12, and wings
/// of different dedges read as different edges. Each edge position reads a primary position
/// of its own dedge, which in the solved state holds that edge.
pub proof fn lemma_reid_pieces_follow_dedges()
    ensures
        forall|w: u8|
            #![trigger wing_to_reid_piece()[w as int]]
            w < 24 ==> wing_to_reid_piece()[w as int] < 12 && wing_to_reid_piece()[partner_wing(w) as int]
                == wing_to_reid_piece()[w as int],
        forall|w: u8, v: u8|
            w < 24 && v < 24 && #[trigger] wing_to_reid_piece()[w as int] == #[trigger] wing_to_reid_piece()[v as int]
                ==> v == w || v == partner_wing(w),
        forall|e: int|
            0 <= e < 12 ==> #[trigger] reid_piece_to_primary_wing_position()[e] < 24 && wing_to_reid_piece()[
                reid_piece_to_primary_wing_position()[e] as int] == e && is_primary(
                reid_piece_to_primary_wing_position()[e],
            ),
{
    assert(reid_ok_from(0)) by {
        reveal_with_fuel(reid_ok_from, 25);
        reveal_with_fuel(reid_apart_from, 25);
    }
    assert forall|w: u8| #![trigger wing_to_reid_piece()[w as int]] w < 24 implies wing_to_reid_piece()[w as int] < 12
        && wing_to_reid_piece()[partner_wing(w) as int] == wing_to_reid_piece()[w as int] by {
        lemma_reid_ok_from(0, w as int);
    }
    assert forall|w: u8, v: u8|
        w < 24 && v < 24 && #[trigger] wing_to_reid_piece()[w as int] == #[trigger] wing_to_reid_piece()[v as int]
            implies v == w || v == partner_wing(w) by {
        lemma_reid_ok_from(0, w as int);
        lemma_reid_apart_from(w as int, 0, v as int);
    }
    assert forall|e: int| 0 <= e < 12 implies #[trigger] reid_piece_to_primary_wing_position()[e] < 24
        && wing_to_reid_piece()[reid_piece_to_primary_wing_position()[e] as int] == e && is_primary(
        reid_piece_to_primary_wing_position()[e],
    ) by {
        if e == 0 {
            assert(reid_piece_to_primary_wing_position()[0] == 2);
        } else if e == 1 {
            assert(reid_piece_to_primary_wing_position()[1] == 1);
        } else if e == 2 {
            assert(reid_piece_to_primary_wing_position()[2] == 0);
        } else if e == 3 {
            assert(reid_piece_to_primary_wing_position()[3] == 3);
        } else if e == 4 {
            assert(reid_piece_to_primary_wing_position()[4] == 20);
        } else if e == 5 {
            assert(reid_piece_to_primary_wing_position()[5] == 21);
        } else if e == 6 {
            assert(reid_piece_to_primary_wing_position()[6] == 22);
        } else if e == 7 {
            assert(reid_piece_to_primary_wing_position()[7] == 23);
        } else if e == 8 {
            assert(reid_piece_to_primary_wing_position()[8] == 9);
        } else if e == 9 {
            assert(reid_piece_to_primary_wing_position()[9] == 11);
        } else if e == 10 {
            assert(reid_piece_to_primary_wing_position()[10] == 19);
        } else if e == 11 {
            assert(reid_piece_to_primary_wing_position()[11] == 17);
        }
    }
}

/// A reduced wing orbit: each of the 24 wings once, with every dedge pair kept together (the
/// partner of the wing at a position sits at the partner position).
pub open spec fn reduced_wings(wings: Seq<u8>) -> bool {
    &&& valid_wings(wings)
    &&& forall|i: int, j: int| 0 <= i < 24 && 0 <= j < 24 && i != j ==> #[trigger] wings[i] != #[trigger] wings[j]
    &&& forall|i: int| 0 <= i < 24 ==> wings[partner_wing(i as u8) as int] == partner_wing(#[trigger] wings[i])
}

/// The 3x3x3 edges derived from a reduced 4x4x4 are a permutation of the 12 edges: each edge
/// position gets a different edge below 12.
pub proof fn lemma_reduced_edges_form_permutation(wings: Seq<u8>)
    requires
        reduced_wings(wings),
    ensures
        forall|e: int| 0 <= e < 12 ==> #[trigger] phase4_edges(wings).0[e] < 12,
        forall|e: int, f: int|
            0 <= e < 12 && 0 <= f < 12 && e != f ==> #[trigger] phase4_edges(wings).0[e]
                != #[trigger] phase4_edges(wings).0[f],
{
    lemma_reid_pieces_follow_dedges();
    lemma_partner_wing_all();
    let positions = reid_piece_to_primary_wing_position();
    assert forall|e: int| 0 <= e < 12 implies #[trigger] phase4_edges(wings).0[e] < 12 by {
        assert(positions[e] < 24);
        assert(wings[positions[e] as int] < 24);
        assert(wing_to_reid_piece()[wings[positions[e] as int] as int] < 12);
    }
    assert forall|e: int, f: int|
        0 <= e < 12 && 0 <= f < 12 && e != f implies #[trigger] phase4_edges(wings).0[e]
            != #[trigger] phase4_edges(wings).0[f] by {
        let a = positions[e];
        let b = positions[f];
        assert(a < 24 && wing_to_reid_piece()[a as int] == e);
        assert(b < 24 && wing_to_reid_piece()[b as int] == f);
        let x = wings[a as int];
        let y = wings[b as int];
        assert(x < 24 && y < 24);
        if wing_to_reid_piece()[x as int] == wing_to_reid_piece()[y as int] {
            assert(y == x || y == partner_wing(x));
            if y == x {
                assert(a == b);
            } else {
                assert(wings[partner_wing(a) as int] == partner_wing(x));
                assert(partner_wing(a) < 24);
                assert(b == partner_wing(a));
                assert(wing_to_reid_piece()[partner_wing(a) as int] == wing_to_reid_piece()[a as int]);
            }
        }
    }
}

/// A solved 4x4x4 (wing `i` at position `i`) reduces to a solved 3x3x3: edge `e` at position
/// `e`, every edge oriented.
pub proof fn lemma_solved_wings_give_solved_edges(wings: Seq<u8>)
    requires
        wings.len() == 24,
        forall|i: int| 0 <= i < 24 ==> #[trigger] wings[i] == i,
    ensures
        forall|e: int| 0 <= e < 12 ==> #[trigger] phase4_edges(wings).0[e] == e && phase4_edges(wings).1[e] == 0,
{
    lemma_reid_pieces_follow_dedges();
    assert forall|e: int| 0 <= e < 12 implies #[trigger] phase4_edges(wings).0[e] == e && phase4_edges(wings).1[e] == 0 by {
        let a = reid_piece_to_primary_wing_position()[e];
        assert(a < 24 && is_primary(a));
        assert(wings[a as int] == a);
    }
}

/// The pieces and orientations of the 3x3x3 edge orbit of a reduced 4x4x4 pattern.
pub fn derive_phase4_edges(wings: &[u8]) -> (r: (Vec<u8>, Vec<u8>))
    requires
        valid_wings(wings@),
    ensures
        (r.0@, r.1@) == phase4_edges(wings@),
{
    let positions: [u8; 12] = [2, 1, 0, 3, 20, 21, 22, 23, 9, 11, 19, 17];
    let reid: [u8; 24] = [2, 1, 0, 3, 3, 9, 7, 11, 0, 8, 4, 9, 1, 10, 5, 8, 2, 11, 6, 10, 4, 5, 6, 7];
    assert(positions@ =~= reid_piece_to_primary_wing_position());
    assert(reid@ =~= wing_to_reid_piece());
    let mut pieces: Vec<u8> = Vec::new();
    let mut orientations: Vec<u8> = Vec::new();
    let mut e: usize = 0;
    while e < 12
        invariant
            0 <= e <= 12,
            valid_wings(wings@),
            positions@ == reid_piece_to_primary_wing_position(),
            reid@ == wing_to_reid_piece(),
            pieces@ =~= phase4_edges(wings@).0.take(e as int),
            orientations@ =~= phase4_edges(wings@).1.take(e as int),
        decreases 12 - e,
    {
        let primary_wing_position = positions[e];
        let piece_in_primary_wing_position = wings[primary_wing_position as usize];
        pieces.push(reid[piece_in_primary_wing_position as usize]);
        let orientation = if position_is_primary_lookup(piece_in_primary_wing_position) {
            0
        } else {
            1
        };
        orientations.push(orientation);
        e += 1;
    }
    (pieces, orientations)
}

// ------------------------------------------------------------------------------------------
// Phase 3: canonical wing labels
// ------------------------------------------------------------------------------------------

/// The state of wing canonicalization: the label given to each piece so far, the next label to
/// give, and the labels kept for the partners of labels already given.
pub type CanonState = (Seq<Option<u8>>, int, Seq<bool>);

/// The first label from `next` on that is not kept for a partner (or 24 when there is none).
pub open spec fn skip_blocked(next: int, blocked: Seq<bool>) -> int
    decreases 24 - next,
{
    if next < 24 && blocked[next] {
        skip_blocked(next + 1, blocked)
    } else {
        next
    }
}

/// The canonicalization state after meeting `piece`: a piece without a label gets the next
/// label, its partner gets the partner of that label (which is then kept), and the next label
/// moves on past kept labels.
pub open spec fn canon_step(state: CanonState, piece: u8) -> CanonState {
    let (mapping, next, blocked) = state;
    if mapping[piece as int] is Some {
        state
    } else {
        let assigned = next as u8;
        let partner_label = partner_wing(assigned);
        let mapping2 = mapping.update(piece as int, Some(assigned)).update(
            partner_wing(piece) as int,
            Some(partner_label),
        );
        let blocked2 = blocked.update(partner_label as int, true);
        (mapping2, skip_blocked(next + 1, blocked2), blocked2)
    }
}

/// The canonicalization state after the pieces in the first `n` positions.
pub open spec fn canon_state(wings: Seq<u8>, n: int) -> CanonState
    decreases n,
{
    if n <= 0 {
        (Seq::new(24, |i: int| None::<u8>), 0, Seq::new(24, |i: int| false))
    } else {
        canon_step(canon_state(wings, n - 1), wings[n - 1])
    }
}

/// The wings relabelled canonically: dedges are numbered in the order in which their wings
/// first appear, each wing met first getting the smallest free label and its partner the
/// partner of that label.
pub open spec fn canonicalized_wings(wings: Seq<u8>) -> Seq<u8> {
    let mapping = canon_state(wings, 24).0;
    Seq::new(24, |i: int| mapping[wings[i] as int].unwrap())
}

/// The number of `true` entries.
pub open spec fn count_true(s: Seq<bool>) -> nat
    decreases s.len(),
{
    if s.len() == 0 {
        0
    } else {
        count_true(s.drop_last()) + if s.last() {
            1nat
        } else {
            0nat
        }
    }
}

/// The number of `Some` entries.
pub open spec fn count_some(s: Seq<Option<u8>>) -> nat
    decreases s.len(),
{
    if s.len() == 0 {
        0
    } else {
        count_some(s.drop_last()) + if s.last() is Some {
            1nat
        } else {
            0nat
        }
    }
}

proof fn lemma_count_true_set(s: Seq<bool>, i: int)
    requires
        0 <= i < s.len(),
        !s[i],
    ensures
        count_true(s.update(i, true)) == count_true(s) + 1,
    decreases s.len(),
{
    let t = s.update(i, true);
    if i == s.len() - 1 {
        assert(t.drop_last() =~= s.drop_last());
    } else {
        lemma_count_true_set(s.drop_last(), i);
        assert(t.drop_last() =~= s.drop_last().update(i, true));
    }
}

proof fn lemma_count_some_set(s: Seq<Option<u8>>, i: int, v: u8)
    requires
        0 <= i < s.len(),
        s[i] is None,
    ensures
        count_some(s.update(i, Some(v))) == count_some(s) + 1,
    decreases s.len(),
{
    let t = s.update(i, Some(v));
    if i == s.len() - 1 {
        assert(t.drop_last() =~= s.drop_last());
    } else {
        lemma_count_some_set(s.drop_last(), i, v);
        assert(t.drop_last() =~= s.drop_last().update(i, Some(v)));
    }
}

proof fn lemma_count_true_prefix(s: Seq<bool>, n: int)
    requires
        0 <= n <= s.len(),
        forall|v: int| 0 <= v < n ==> s[v],
    ensures
        count_true(s) >= n,
    decreases s.len(),
{
    if s.len() > 0 {
        if n == s.len() {
            lemma_count_true_prefix(s.drop_last(), n - 1);
        } else {
            lemma_count_true_prefix(s.drop_last(), n);
        }
    }
}

proof fn lemma_count_some_le_len(s: Seq<Option<u8>>)
    ensures
        count_some(s) <= s.len(),
    decreases s.len(),
{
    if s.len() > 0 {
        lemma_count_some_le_len(s.drop_last());
    }
}

proof fn lemma_count_some_two_none(s: Seq<Option<u8>>, i: int, j: int)
    requires
        0 <= i < s.len(),
        0 <= j < s.len(),
        i != j,
        s[i] is None,
        s[j] is None,
    ensures
        count_some(s) + 2 <= s.len(),
    decreases s.len(),
{
    let n = s.len() - 1;
    if i == n {
        lemma_count_some_le_len(s.drop_last());
        proof_count_some_one_none(s.drop_last(), j);
    } else if j == n {
        proof_count_some_one_none(s.drop_last(), i);
    } else {
        lemma_count_some_two_none(s.drop_last(), i, j);
    }
}

proof fn proof_count_some_one_none(s: Seq<Option<u8>>, i: int)
    requires
        0 <= i < s.len(),
        s[i] is None,
    ensures
        count_some(s) + 1 <= s.len(),
    decreases s.len(),
{
    let n = s.len() - 1;
    if i == n {
        lemma_count_some_le_len(s.drop_last());
    } else {
        proof_count_some_one_none(s.drop_last(), i);
    }
}

/// Whether some piece has label `v`.
pub open spec fn label_used(mapping: Seq<Option<u8>>, v: u8) -> bool {
    exists|q: int| 0 <= q < mapping.len() && #[trigger] mapping[q] == Some(v)
}

/// The labelling is consistent: labels are below 24, pieces of a dedge are labelled together
/// with partner labels, and no label is given twice.
#[verifier::opaque]
pub open spec fn mapping_wf(mapping: Seq<Option<u8>>) -> bool {
    &&& mapping.len() == 24
    &&& forall|q: int| 0 <= q < 24 ==> (#[trigger] mapping[q] matches Some(v) ==> v < 24)
    &&& forall|q: int|
        #![trigger mapping[q]]
        0 <= q < 24 ==> (mapping[q] is Some <==> mapping[partner_wing(q as u8) as int] is Some)
    &&& forall|q: int|
        #![trigger mapping[q]]
        0 <= q < 24 && mapping[q] is Some ==> mapping[partner_wing(q as u8) as int] == Some(
            partner_wing(mapping[q].unwrap()),
        )
    &&& forall|q1: int, q2: int|
        #![trigger mapping[q1], mapping[q2]]
        0 <= q1 < 24 && 0 <= q2 < 24 && q1 != q2 && mapping[q1] is Some ==> mapping[q1]
            != mapping[q2]
}

/// `used` records exactly the labels given so far.
#[verifier::opaque]
pub open spec fn used_matches(mapping: Seq<Option<u8>>, used: Seq<bool>) -> bool {
    &&& used.len() == 24
    &&& forall|v: int| 0 <= v < 24 ==> (#[trigger] used[v] <==> label_used(mapping, v as u8))
}

/// Every label below `next` is given, every kept label is given, and a given label from `next`
/// on is kept.
#[verifier::opaque]
pub open spec fn progress_ok(next: int, blocked: Seq<bool>, used: Seq<bool>) -> bool {
    &&& blocked.len() == 24
    &&& 0 <= next <= 24
    &&& next < 24 ==> !blocked[next]
    &&& forall|v: int| 0 <= v < 24 && #[trigger] blocked[v] ==> used[v]
    &&& forall|v: int| 0 <= v < next ==> #[trigger] used[v]
    &&& forall|v: int| next <= v < 24 && #[trigger] used[v] ==> blocked[v]
}

/// The invariant of wing canonicalization.
pub open spec fn canon_invariant(state: CanonState, used: Seq<bool>) -> bool {
    let (mapping, next, blocked) = state;
    &&& mapping_wf(mapping)
    &&& used_matches(mapping, used)
    &&& progress_ok(next, blocked, used)
    &&& count_true(used) == count_some(mapping)
}

proof fn lemma_partner_wing_all()
    ensures
        forall|w: u8|
            #![trigger partner_wing(w)]
            w < 24 ==> partner_wing(w) < 24 && partner_wing(w) != w && partner_wing(
                partner_wing(w),
            ) == w,
{
    assert forall|w: u8| #![trigger partner_wing(w)] w < 24 implies partner_wing(w) < 24
        && partner_wing(w) != w && partner_wing(partner_wing(w)) == w by {
        lemma_partner_wing_pairs(w);
    }
}

/// Moving on past kept labels stops at a label that is not kept (or at 24), passing only kept
/// labels.
proof fn lemma_skip_blocked(next: int, blocked: Seq<bool>)
    requires
        0 <= next <= 24,
        blocked.len() == 24,
    ensures
        next <= skip_blocked(next, blocked) <= 24,
        skip_blocked(next, blocked) < 24 ==> !blocked[skip_blocked(next, blocked)],
        forall|v: int| next <= v < skip_blocked(next, blocked) ==> #[trigger] blocked[v],
    decreases 24 - next,
{
    if next < 24 && blocked[next] {
        lemma_skip_blocked(next + 1, blocked);
    }
}

/// The next label and its partner are both free when a piece without a label is met.
proof fn lemma_canon_fresh(state: CanonState, used: Seq<bool>, piece: u8)
    requires
        canon_invariant(state, used),
        piece < 24,
        state.0[piece as int] is None,
    ensures
        0 <= state.1 < 24,
        state.0.len() == 24,
        used.len() == 24,
        state.0[partner_wing(piece) as int] is None,
        !label_used(state.0, state.1 as u8),
        !label_used(state.0, partner_wing(state.1 as u8)),
{
    reveal(mapping_wf);
    reveal(used_matches);
    reveal(progress_ok);
    lemma_partner_wing_all();
    let (mapping, next, blocked) = state;
    let partner_piece = partner_wing(piece);
    assert(mapping[piece as int] is None);
    lemma_count_some_two_none(mapping, piece as int, partner_piece as int);
    lemma_count_true_prefix(used, next);
    let assigned = next as u8;
    assert(!used[assigned as int]);
    let assigned_partner = partner_wing(assigned);
    if label_used(mapping, assigned_partner) {
        let q = choose|q: int| 0 <= q < mapping.len() && #[trigger] mapping[q] == Some(assigned_partner);
        assert(mapping[partner_wing(q as u8) as int] == Some(assigned));
        assert(label_used(mapping, assigned));
    }
}

/// Labelling a dedge with a free label and its partner keeps the labelling consistent.
proof fn lemma_canon_mapping_wf(mapping: Seq<Option<u8>>, piece: u8, assigned: u8)
    requires
        mapping_wf(mapping),
        piece < 24,
        assigned < 24,
        mapping[piece as int] is None,
        !label_used(mapping, assigned),
        !label_used(mapping, partner_wing(assigned)),
    ensures
        mapping_wf(
            mapping.update(piece as int, Some(assigned)).update(
                partner_wing(piece) as int,
                Some(partner_wing(assigned)),
            ),
        ),
{
    reveal(mapping_wf);
    lemma_partner_wing_all();
    let partner_piece = partner_wing(piece);
    let assigned_partner = partner_wing(assigned);
    let m2 = mapping.update(piece as int, Some(assigned)).update(
        partner_piece as int,
        Some(assigned_partner),
    );
    assert forall|q: int| #![trigger m2[q]] 0 <= q < 24 implies (m2[q] is Some <==> m2[partner_wing(q as u8) as int] is Some) by {
        if q != piece && q != partner_piece {
            assert(partner_wing(q as u8) != piece);
            assert(partner_wing(q as u8) != partner_piece);
        }
    }
    assert forall|q: int| #![trigger m2[q]] 0 <= q < 24 && m2[q] is Some implies m2[partner_wing(q as u8) as int] == Some(partner_wing(m2[q].unwrap())) by {
        if q != piece && q != partner_piece {
            assert(partner_wing(q as u8) != piece);
            assert(partner_wing(q as u8) != partner_piece);
        }
    }
    assert forall|q1: int, q2: int| #![trigger m2[q1], m2[q2]] 0 <= q1 < 24 && 0 <= q2 < 24 && q1 != q2 && m2[q1] is Some implies m2[q1] != m2[q2] by {
        if m2[q2] is Some && (q1 == piece || q1 == partner_piece) && q2 != piece && q2 != partner_piece {
            assert(mapping[q2] == m2[q2]);
            assert(label_used(mapping, m2[q2].unwrap()));
        }
        if m2[q1] is Some && (q2 == piece || q2 == partner_piece) && q1 != piece && q1 != partner_piece {
            assert(mapping[q1] == m2[q1]);
            assert(label_used(mapping, m2[q1].unwrap()));
        }
    }
}

/// Marking the two new labels as used keeps `used` in step with the labelling.
proof fn lemma_canon_used(mapping: Seq<Option<u8>>, used: Seq<bool>, piece: u8, assigned: u8)
    requires
        used_matches(mapping, used),
        mapping.len() == 24,
        piece < 24,
        assigned < 24,
        mapping[piece as int] is None,
        mapping[partner_wing(piece) as int] is None,
        partner_wing(piece) != piece,
        partner_wing(assigned) < 24,
    ensures
        used_matches(
            mapping.update(piece as int, Some(assigned)).update(
                partner_wing(piece) as int,
                Some(partner_wing(assigned)),
            ),
            used.update(assigned as int, true).update(partner_wing(assigned) as int, true),
        ),
{
    reveal(used_matches);
    let partner_piece = partner_wing(piece);
    let assigned_partner = partner_wing(assigned);
    let m2 = mapping.update(piece as int, Some(assigned)).update(
        partner_piece as int,
        Some(assigned_partner),
    );
    let used2 = used.update(assigned as int, true).update(assigned_partner as int, true);
    assert forall|v: int| 0 <= v < 24 implies (#[trigger] used2[v] <==> label_used(m2, v as u8)) by {
        if v == assigned {
            assert(m2[piece as int] == Some(assigned));
        } else if v == assigned_partner {
            assert(m2[partner_piece as int] == Some(assigned_partner));
        } else {
            if label_used(m2, v as u8) {
                let q = choose|q: int| 0 <= q < m2.len() && #[trigger] m2[q] == Some(v as u8);
                assert(mapping[q] == Some(v as u8));
            }
            if label_used(mapping, v as u8) {
                let q = choose|q: int| 0 <= q < mapping.len() && #[trigger] mapping[q] == Some(v as u8);
                assert(m2[q] == Some(v as u8));
            }
        }
    }
}

/// After giving the next label, keeping its partner and moving on past kept labels, the labels
/// below the new next label are all given and the given labels from it on are kept.
proof fn lemma_canon_progress(next: int, blocked: Seq<bool>, used: Seq<bool>, assigned_partner: u8)
    requires
        progress_ok(next, blocked, used),
        next < 24,
        assigned_partner < 24,
        used.len() == 24,
    ensures
        progress_ok(
            skip_blocked(next + 1, blocked.update(assigned_partner as int, true)),
            blocked.update(assigned_partner as int, true),
            used.update(next, true).update(assigned_partner as int, true),
        ),
{
    reveal(progress_ok);
    let blocked2 = blocked.update(assigned_partner as int, true);
    let used2 = used.update(next, true).update(assigned_partner as int, true);
    lemma_skip_blocked(next + 1, blocked2);
    let next2 = skip_blocked(next + 1, blocked2);
    assert forall|v: int| 0 <= v < next2 implies #[trigger] used2[v] by {
        if v < next {
            assert(used[v]);
        } else if v > next {
            assert(blocked2[v]);
            if v != assigned_partner {
                assert(blocked[v]);
                assert(used[v]);
            }
        }
    }
    assert forall|v: int| next2 <= v < 24 && #[trigger] used2[v] implies blocked2[v] by {
        if v != assigned_partner && v != next {
            assert(used[v]);
        }
    }
    assert forall|v: int| 0 <= v < 24 && #[trigger] blocked2[v] implies used2[v] by {
        if v != assigned_partner {
            assert(blocked[v]);
        }
    }
}

/// The invariant of wing canonicalization holds after each piece.
proof fn lemma_canon_step(state: CanonState, used: Seq<bool>, piece: u8) -> (used2: Seq<bool>)
    requires
        canon_invariant(state, used),
        piece < 24,
    ensures
        canon_invariant(canon_step(state, piece), used2),
        state.0[piece as int] is None ==> state.1 < 24,
        canon_step(state, piece).0[piece as int] is Some,
        forall|q: int| 0 <= q < 24 && #[trigger] state.0[q] is Some ==> canon_step(state, piece).0[q]
            == state.0[q],
{
    lemma_partner_wing_all();
    let (mapping, next, blocked) = state;
    if mapping[piece as int] is Some {
        used
    } else {
        lemma_canon_fresh(state, used, piece);
        let partner_piece = partner_wing(piece);
        let assigned = next as u8;
        let assigned_partner = partner_wing(assigned);
        let m1 = mapping.update(piece as int, Some(assigned));
        let m2 = m1.update(partner_piece as int, Some(assigned_partner));
        let blocked2 = blocked.update(assigned_partner as int, true);
        lemma_canon_mapping_wf(mapping, piece, assigned);
        assert(used.len() == 24) by {
            reveal(used_matches);
        }
        lemma_canon_used(mapping, used, piece, assigned);
        lemma_canon_progress(next, blocked, used, assigned_partner);
        lemma_count_some_set(mapping, piece as int, assigned);
        lemma_count_some_set(m1, partner_piece as int, assigned_partner);
        let u1 = used.update(assigned as int, true);
        assert(!used[assigned as int]) by {
            reveal(used_matches);
        }
        assert(!u1[assigned_partner as int]) by {
            reveal(used_matches);
        }
        lemma_count_true_set(used, assigned as int);
        lemma_count_true_set(u1, assigned_partner as int);
        let used2 = u1.update(assigned_partner as int, true);
        assert(canon_step(state, piece) == (m2, skip_blocked(next + 1, blocked2), blocked2));
        used2
    }
}

/// Relabels the wings of a pattern canonically, so that patterns that differ only by which
/// dedges are which share one labelling.
///
/// Its laws stand beside it: `lemma_canonical_wings_ignore_dedge_relabelling` (a pre-move that
/// keeps dedge pairs together, as every outer face move of the 4x4x4 does, relabels the wings
/// by a `keeps_dedges` map, and leaves the result unchanged) and
/// `lemma_canonicalize_wings_idempotent` (canonicalizing a second time changes nothing).
pub fn canonicalize_wings(wings: &mut [u8])
    requires
        valid_wings(old(wings)@),
    ensures
        final(wings)@ == canonicalized_wings(old(wings)@),
        valid_wings(final(wings)@),
        forall|i: int, j: int|
            0 <= i < 24 && 0 <= j < 24 && old(wings)@[i] == partner_wing(old(wings)@[j])
                ==> final(wings)@[i] == partner_wing(final(wings)@[j]),
        forall|i: int, j: int|
            0 <= i < 24 && 0 <= j < 24 && old(wings)@[i] != old(wings)@[j] ==> final(wings)@[i]
                != final(wings)@[j],
{
    let ghost before = wings@;
    let mut piece_mapping: [Option<u8>; 24] = [None; 24];
    let mut next_assignment: u8 = 0;
    let mut blocked_assignments: [bool; 24] = [false; 24];
    let ghost mut used: Seq<bool> = Seq::new(24, |i: int| false);
    proof {
        reveal(mapping_wf);
        reveal(used_matches);
        reveal(progress_ok);
        lemma_partner_wing_all();
        assert(piece_mapping@ =~= Seq::new(24, |i: int| None::<u8>));
        assert(blocked_assignments@ =~= Seq::new(24, |i: int| false));
        lemma_count_true_all_false(used);
        lemma_count_some_all_none(piece_mapping@);
    }
    let mut i: usize = 0;
    while i < 24
        invariant
            0 <= i <= 24,
            wings@ == before,
            valid_wings(before),
            (piece_mapping@, next_assignment as int, blocked_assignments@) == canon_state(
                before,
                i as int,
            ),
            canon_invariant((piece_mapping@, next_assignment as int, blocked_assignments@), used),
            forall|j: int| 0 <= j < i ==> (#[trigger] piece_mapping@[before[j] as int]) is Some,
        decreases 24 - i,
    {
        let piece = wings[i];
        let ghost state = (piece_mapping@, next_assignment as int, blocked_assignments@);
        let ghost used2 = lemma_canon_step(state, used, piece);
        proof {
            reveal(progress_ok);
            reveal(mapping_wf);
        }
        if piece_mapping[piece as usize].is_none() {
            let partner_piece = partner_wing_lookup(piece);
            let assigned_piece = next_assignment;
            let assigned_piece_partner = partner_wing_lookup(assigned_piece);
            piece_mapping[piece as usize] = Some(assigned_piece);
            piece_mapping[partner_piece as usize] = Some(assigned_piece_partner);
            blocked_assignments[assigned_piece_partner as usize] = true;
            next_assignment += 1;
            while next_assignment < NUM_WINGS && blocked_assignments[next_assignment as usize]
                invariant
                    assigned_piece < next_assignment <= 24,
                    blocked_assignments@.len() == 24,
                    skip_blocked(next_assignment as int, blocked_assignments@) == skip_blocked(
                        assigned_piece + 1,
                        blocked_assignments@,
                    ),
                decreases 24 - next_assignment,
            {
                next_assignment += 1;
            }
        }
        proof {
            assert((piece_mapping@, next_assignment as int, blocked_assignments@) == canon_step(state, piece));
            used = used2;
        }
        i += 1;
    }
    proof {
        reveal(mapping_wf);
        lemma_partner_wing_all();
        let m = piece_mapping@;
        assert forall|j: int| 0 <= j < 24 implies canonicalized_wings(before)[j] < 24 by {
            assert(m[before[j] as int] is Some);
        }
        assert forall|i1: int, j1: int| 0 <= i1 < 24 && 0 <= j1 < 24 && before[i1] == partner_wing(before[j1])
            implies canonicalized_wings(before)[i1] == partner_wing(canonicalized_wings(before)[j1]) by {
            assert(m[before[j1] as int] is Some);
        }
        assert forall|i1: int, j1: int| 0 <= i1 < 24 && 0 <= j1 < 24 && before[i1] != before[j1]
            implies canonicalized_wings(before)[i1] != canonicalized_wings(before)[j1] by {
            assert(m[before[j1] as int] is Some);
            assert(m[before[i1] as int] is Some);
        }
    }
    let mut k: usize = 0;
    while k < 24
        invariant
            0 <= k <= 24,
            valid_wings(before),
            wings@.len() == 24,
            forall|j: int| k <= j < 24 ==> wings@[j] == before[j],
            forall|j: int| 0 <= j < k ==> wings@[j] == canonicalized_wings(before)[j],
            piece_mapping@ == canon_state(before, 24).0,
            forall|j: int| 0 <= j < 24 ==> (#[trigger] piece_mapping@[before[j] as int]) is Some,
        decreases 24 - k,
    {
        let piece = wings[k];
        assert(piece == before[k as int]);
        assert(piece < 24);
        let label = match piece_mapping[piece as usize] {
            Some(label) => label,
            None => {
                proof {
                    assert(piece_mapping@[before[k as int] as int] is Some);
                }
                0
            },
        };
        wings[k] = label;
        k += 1;
    }
    proof {
        assert(wings@ =~= canonicalized_wings(before));
    }
}

proof fn lemma_count_true_all_false(s: Seq<bool>)
    requires
        forall|i: int| 0 <= i < s.len() ==> !s[i],
    ensures
        count_true(s) == 0,
    decreases s.len(),
{
    if s.len() > 0 {
        lemma_count_true_all_false(s.drop_last());
    }
}

proof fn lemma_count_some_all_none(s: Seq<Option<u8>>)
    requires
        forall|i: int| 0 <= i < s.len() ==> s[i] is None,
    ensures
        count_some(s) == 0,
    decreases s.len(),
{
    if s.len() > 0 {
        lemma_count_some_all_none(s.drop_last());
    }
}

/// A relabelling of the 24 wings that keeps dedges together: a one-to-one map of the labels
/// that sends the partner of a wing to the partner of its image. Outer face moves (and so all
/// 3x3x3 moves) move wings this way.
pub open spec fn keeps_dedges(sigma: Seq<u8>) -> bool {
    &&& sigma.len() == 24
    &&& forall|w: int| 0 <= w < 24 ==> #[trigger] sigma[w] < 24
    &&& forall|v: int, w: int| 0 <= v < 24 && 0 <= w < 24 && v != w ==> #[trigger] sigma[v] != #[trigger] sigma[w]
    &&& forall|w: int| 0 <= w < 24 ==> sigma[partner_wing(w as u8) as int] == partner_wing(#[trigger] sigma[w])
}

/// The wings with each label `w` replaced by `sigma[w]`: what a pre-move that moves wing `w` to
/// `sigma[w]` makes of them.
pub open spec fn relabelled_wings(wings: Seq<u8>, sigma: Seq<u8>) -> Seq<u8> {
    Seq::new(wings.len(), |i: int| sigma[wings[i] as int])
}

/// The canonicalization of relabelled wings follows that of the wings, step by step.
proof fn lemma_canon_state_relabelled(wings: Seq<u8>, sigma: Seq<u8>, n: int)
    requires
        valid_wings(wings),
        keeps_dedges(sigma),
        0 <= n <= 24,
    ensures
        ({
            let s = canon_state(wings, n);
            let t = canon_state(relabelled_wings(wings, sigma), n);
            &&& s.0.len() == 24
            &&& t.0.len() == 24
            &&& t.1 == s.1
            &&& t.2 == s.2
            &&& forall|p: int| 0 <= p < 24 ==> t.0[#[trigger] sigma[p] as int] == s.0[p]
        }),
    decreases n,
{
    lemma_partner_wing_all();
    let ws = relabelled_wings(wings, sigma);
    if n > 0 {
        lemma_canon_state_relabelled(wings, sigma, n - 1);
        let s = canon_state(wings, n - 1);
        let t = canon_state(ws, n - 1);
        let x = wings[n - 1];
        let y = ws[n - 1];
        assert(y == sigma[x as int]);
        assert(t.0[y as int] == s.0[x as int]);
        if s.0[x as int] is None {
            let a = s.1 as u8;
            let pa = partner_wing(a);
            let px = partner_wing(x);
            assert(sigma[px as int] == partner_wing(y));
            let s2 = canon_step(s, x);
            let t2 = canon_step(t, y);
            assert forall|p: int| 0 <= p < 24 implies t2.0[#[trigger] sigma[p] as int] == s2.0[p] by {
                if p == px as int {
                } else if p == x as int {
                } else {
                    assert(sigma[p] != sigma[px as int]);
                    assert(sigma[p] != sigma[x as int]);
                    assert(t.0[sigma[p] as int] == s.0[p]);
                }
            }
        }
    } else {
        assert forall|p: int| 0 <= p < 24 implies canon_state(ws, 0).0[#[trigger] sigma[p] as int] == canon_state(
            wings,
            0,
        ).0[p] by {}
    }
}

/// Relabelling the wings by a map that keeps dedges together does not change their canonical
/// form: in particular 3x3x3 pre-moves have no effect on the canonical wing state.
pub proof fn lemma_canonical_wings_ignore_dedge_relabelling(wings: Seq<u8>, sigma: Seq<u8>)
    requires
        valid_wings(wings),
        keeps_dedges(sigma),
    ensures
        canonicalized_wings(relabelled_wings(wings, sigma)) == canonicalized_wings(wings),
{
    lemma_canon_state_relabelled(wings, sigma, 24);
    let ws = relabelled_wings(wings, sigma);
    let m = canon_state(wings, 24).0;
    let mt = canon_state(ws, 24).0;
    assert forall|i: int| 0 <= i < 24 implies #[trigger] canonicalized_wings(ws)[i] == canonicalized_wings(wings)[i] by {
        assert(ws[i] == sigma[wings[i] as int]);
        assert(mt[sigma[wings[i] as int] as int] == m[wings[i] as int]);
    }
    assert(canonicalized_wings(ws) =~= canonicalized_wings(wings));
}

/// The canonicalization state after `n` positions keeps its invariant and labels every piece
/// met so far.
proof fn lemma_canon_state_invariant(wings: Seq<u8>, n: int) -> (used: Seq<bool>)
    requires
        valid_wings(wings),
        0 <= n <= 24,
    ensures
        canon_invariant(canon_state(wings, n), used),
        forall|j: int| 0 <= j < n ==> (#[trigger] canon_state(wings, n).0[wings[j] as int]) is Some,
    decreases n,
{
    if n == 0 {
        let used = Seq::new(24, |i: int| false);
        let s = canon_state(wings, 0);
        reveal(mapping_wf);
        reveal(used_matches);
        reveal(progress_ok);
        lemma_partner_wing_all();
        lemma_count_true_all_false(used);
        lemma_count_some_all_none(s.0);
        used
    } else {
        let used = lemma_canon_state_invariant(wings, n - 1);
        let s = canon_state(wings, n - 1);
        let used2 = lemma_canon_step(s, used, wings[n - 1]);
        assert forall|j: int| 0 <= j < n implies (#[trigger] canon_state(wings, n).0[wings[j] as int]) is Some by {
            if j < n - 1 {
                assert(s.0[wings[j] as int] is Some);
            }
        }
        used2
    }
}

/// Some position holds the wing `v`.
pub open spec fn holds_wing(wings: Seq<u8>, v: int) -> bool {
    exists|i: int| 0 <= i < wings.len() && wings[i] == v
}

/// Canonicalizing canonical wings changes nothing, for wings that hold each of the 24 wings
/// once.
pub proof fn lemma_canonicalize_wings_idempotent(wings: Seq<u8>)
    requires
        valid_wings(wings),
        forall|v: int| 0 <= v < 24 ==> #[trigger] holds_wing(wings, v),
    ensures
        canonicalized_wings(canonicalized_wings(wings)) == canonicalized_wings(wings),
{
    lemma_partner_wing_all();
    let used = lemma_canon_state_invariant(wings, 24);
    let m = canon_state(wings, 24).0;
    reveal(mapping_wf);
    assert forall|p: int| 0 <= p < 24 implies #[trigger] m[p] is Some by {
        assert(holds_wing(wings, p));
        let i = choose|i: int| 0 <= i < wings.len() && wings[i] == p;
        assert(m[wings[i] as int] is Some);
    }
    let mu = Seq::new(24, |p: int| m[p].unwrap());
    assert forall|w: int| 0 <= w < 24 implies mu[partner_wing(w as u8) as int] == partner_wing(#[trigger] mu[w]) by {
        assert(m[w] is Some);
    }
    assert forall|v: int, w: int| 0 <= v < 24 && 0 <= w < 24 && v != w implies #[trigger] mu[v] != #[trigger] mu[w] by {
        assert(m[v] is Some);
        assert(m[v] != m[w]);
    }
    assert forall|w: int| 0 <= w < 24 implies #[trigger] mu[w] < 24 by {
        assert(m[w] is Some);
    }
    assert(keeps_dedges(mu));
    assert(relabelled_wings(wings, mu) =~= canonicalized_wings(wings));
    lemma_canonical_wings_ignore_dedge_relabelling(wings, mu);
    assert forall|i: int| 0 <= i < 24 implies #[trigger] canonicalized_wings(wings)[i] < 24 by {
        assert(m[wings[i] as int] is Some);
    }
}

} // verus!
