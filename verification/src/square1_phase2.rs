use vstd::prelude::*;
use vstd::string::StringExecFns;

use crate::alg::{is_move_item, Alg, AlgItem, Move};
use crate::indexed_vec::IndexKey;

use crate::square1::{valid_wedges, wedge_type, wedge_type_lookup, FilteringDecision, WedgeType};

verus! {

/// An index into a flat list of search moves.
#[derive(Debug, Clone, Copy, PartialEq, Eq, Structural)]
pub struct FlatMoveIndex(pub usize);

impl IndexKey for FlatMoveIndex {
    open spec fn key_index(&self) -> int {
        self.0 as int
    }

    fn from_usize(i: usize) -> (r: Self) {
        FlatMoveIndex(i)
    }

    fn to_usize(&self) -> (r: usize) {
        self.0
    }
}

/// A transformation of the Square-1 phase 2 puzzle: an index into the search moves of the
/// shape puzzle.
#[derive(Debug, Clone, Copy, PartialEq, Eq, Structural)]
pub struct Square1Phase2Transformation(pub FlatMoveIndex);

/// A puzzle that serves as a phase of the Square-1 solver.
pub trait Square1SearchPhase {}

/// The first wedge slot of the U side.
pub const FIRST_WEDGE_INDEX_U: u8 = 0;

/// The first wedge slot of the D side.
pub const FIRST_WEDGE_INDEX_D: u8 = 12;

/// The move amounts (for `U_SQ_` or `D_SQ_`) that bring edges and corners to the reference
/// shape of the lookup tables.
#[derive(Debug, Clone, Copy, PartialEq, Eq)]
#[allow(non_snake_case)]
pub struct Square1Phase2Offsets {
    pub edges_amount_U: i32,
    pub edges_amount_D: i32,
    pub corners_amount_U: i32,
    pub corners_amount_D: i32,
}

/// The (edges, corners) offset for a side whose first slot holds a wedge of the given kind.
pub open spec fn side_offset(t: WedgeType) -> (i32, i32) {
    match t {
        WedgeType::CornerLower => (-2i32, 1i32),
        WedgeType::CornerUpper => (-1i32, -1i32),
        WedgeType::Edge => (0i32, 0i32),
    }
}

/// The (edges, corners) offset for the side that starts at slot `wedge_index`.
pub fn get_phase2_shape_offset_single_side(wedges: &[u8], wedge_index: u8) -> (r: (i32, i32))
    requires
        valid_wedges(wedges@),
        wedge_index < 24,
    ensures
        r == side_offset(wedge_type(wedges@[wedge_index as int])),
{
    match wedge_type_lookup(wedges[wedge_index as usize]) {
        WedgeType::CornerLower => (-2, 1),
        WedgeType::CornerUpper => (-1, -1),
        WedgeType::Edge => (0, 0),
    }
}

/// The offsets of both sides of a pattern (given by the wedge in each slot).
pub fn get_phase2_shape_offsets(wedges: &[u8]) -> (r: Square1Phase2Offsets)
    requires
        valid_wedges(wedges@),
    ensures
        (r.edges_amount_U, r.corners_amount_U) == side_offset(wedge_type(wedges@[0])),
        (r.edges_amount_D, r.corners_amount_D) == side_offset(wedge_type(wedges@[12])),
{
    #[allow(non_snake_case)]
    let (edges_amount_U, corners_amount_U) = get_phase2_shape_offset_single_side(
        wedges,
        FIRST_WEDGE_INDEX_U,
    );
    #[allow(non_snake_case)]
    let (edges_amount_D, corners_amount_D) = get_phase2_shape_offset_single_side(
        wedges,
        FIRST_WEDGE_INDEX_D,
    );
    Square1Phase2Offsets { edges_amount_U, edges_amount_D, corners_amount_U, corners_amount_D }
}

/// The piece of the equatorless Square-0 that an edge wedge becomes (corner wedges vanish).
pub open spec fn square0_piece_for_edge(piece: u8) -> Option<u8> {
    if piece == 2 { Some(0u8) } else if piece == 5 { Some(1u8) } else if piece == 8 { Some(2u8) }
    else if piece == 11 { Some(3u8) } else if piece == 12 { Some(4u8) } else if piece == 15 {
        Some(5u8)
    } else if piece == 18 { Some(6u8) } else if piece == 21 { Some(7u8) } else { None }
}

/// The piece of the equatorless Square-0 that a lower corner wedge becomes (other wedges vanish).
pub open spec fn square0_piece_for_corner(piece: u8) -> Option<u8> {
    if piece == 0 { Some(0u8) } else if piece == 3 { Some(1u8) } else if piece == 6 { Some(2u8) }
    else if piece == 9 { Some(3u8) } else if piece == 13 { Some(4u8) } else if piece == 16 {
        Some(5u8)
    } else if piece == 19 { Some(6u8) } else if piece == 22 { Some(7u8) } else { None }
}

/// The equatorless Square-0 pieces that the edges of a Square-1 pattern become, in slot order.
pub open spec fn square0_edges(wedges: Seq<u8>) -> Seq<u8> {
    wedges.filter_map(|p: u8| square0_piece_for_edge(p))
}

/// The equatorless Square-0 pieces that the corners of a Square-1 pattern become, in slot order.
pub open spec fn square0_corners(wedges: Seq<u8>) -> Seq<u8> {
    wedges.filter_map(|p: u8| square0_piece_for_corner(p))
}

/// The kind of wedge `w` in a solved Square-1: every three twelfths of a layer hold a corner
/// (its lower half, then its upper half) and an edge; the U layer (wedges 0 to 11) starts with
/// a corner, the D layer (wedges 12 to 23) with an edge.
pub open spec fn solved_wedge_kind(w: int) -> WedgeType {
    let k = if w < 12 { w % 3 } else { (w + 2) % 3 };
    if k == 0 {
        WedgeType::CornerLower
    } else if k == 1 {
        WedgeType::CornerUpper
    } else {
        WedgeType::Edge
    }
}

/// The wedge kinds follow the layout of a solved Square-1 layer, and the equatorless Square-0
/// numbers its edges and its corners (by their lower halves) in wedge order, three twelfths per
/// piece: the edge or lower corner half `w` becomes Square-0 piece `w / 3`, and no other wedge
/// becomes a piece.
pub proof fn lemma_wedge_kinds_and_square0_pieces(w: u8)
    requires
        w < 24,
    ensures
        wedge_type(w) == solved_wedge_kind(w as int),
        square0_piece_for_edge(w) == (if wedge_type(w) == WedgeType::Edge {
            Some((w / 3) as u8)
        } else {
            None
        }),
        square0_piece_for_corner(w) == (if wedge_type(w) == WedgeType::CornerLower {
            Some((w / 3) as u8)
        } else {
            None
        }),
{
    if w == 0 {} else if w == 1 {} else if w == 2 {} else if w == 3 {} else if w == 4 {} else if w == 5 {} else if w == 6 {} else if w == 7 {} else if w == 8 {} else if w == 9 {} else if w == 10 {} else if w == 11 {} else if w == 12 {} else if w == 13 {} else if w == 14 {} else if w == 15 {} else if w == 16 {} else if w == 17 {} else if w == 18 {} else if w == 19 {} else if w == 20 {} else if w == 21 {} else if w == 22 {} else if w == 23 {}
}

/// The number of wedges of the equatorless Square-0 puzzle.
pub const NUM_SQUARE0_EQUATORLESS_WEDGES: u8 = 8;

fn square0_piece_for_edge_exec(piece: u8) -> (r: Option<u8>)
    requires
        piece < 24,
    ensures
        r == square0_piece_for_edge(piece),
{
    match piece {
        2 => Some(0),
        5 => Some(1),
        8 => Some(2),
        11 => Some(3),
        12 => Some(4),
        15 => Some(5),
        18 => Some(6),
        21 => Some(7),
        _ => None,
    }
}

fn square0_piece_for_corner_exec(piece: u8) -> (r: Option<u8>)
    requires
        piece < 24,
    ensures
        r == square0_piece_for_corner(piece),
{
    match piece {
        0 => Some(0),
        3 => Some(1),
        6 => Some(2),
        9 => Some(3),
        13 => Some(4),
        16 => Some(5),
        19 => Some(6),
        22 => Some(7),
        _ => None,
    }
}

/// An equatorless Square-0 pattern: the piece in each of its 8 wedge slots.
#[derive(Debug, PartialEq, Eq)]
pub struct Square0EquatorlessPattern {
    pub pattern: Vec<u8>,
}

impl Square0EquatorlessPattern {
    /// The equatorless Square-0 pattern of the edges of a Square-1 pattern (given by the wedge in
    /// each slot); there must be exactly 8 edges.
    pub fn from_edges_pattern(square1_edges_pattern: &[u8]) -> (r: Self)
        requires
            valid_wedges(square1_edges_pattern@),
            square0_edges(square1_edges_pattern@).len() == NUM_SQUARE0_EQUATORLESS_WEDGES,
        ensures
            r.pattern@ == square0_edges(square1_edges_pattern@),
    {
        let mut pattern: Vec<u8> = Vec::new();
        let mut square1_i: usize = 0;
        while square1_i < 24
            invariant
                0 <= square1_i <= 24,
                valid_wedges(square1_edges_pattern@),
                pattern@ == square1_edges_pattern@.take(square1_i as int).filter_map(
                    |p: u8| square0_piece_for_edge(p),
                ),
            decreases 24 - square1_i,
        {
            proof {
                square1_edges_pattern@.lemma_filter_map_take_succ(
                    |p: u8| square0_piece_for_edge(p),
                    square1_i as int,
                );
            }
            if let Some(square0_piece) = square0_piece_for_edge_exec(
                square1_edges_pattern[square1_i],
            ) {
                pattern.push(square0_piece);
            }
            square1_i += 1;
        }
        assert(square1_edges_pattern@.take(24) =~= square1_edges_pattern@);
        Self { pattern }
    }

    /// The equatorless Square-0 pattern of the corners of a Square-1 pattern (given by the wedge
    /// in each slot); there must be exactly 8 corners.
    pub fn from_corners_pattern(square1_corners_pattern: &[u8]) -> (r: Self)
        requires
            valid_wedges(square1_corners_pattern@),
            square0_corners(square1_corners_pattern@).len() == NUM_SQUARE0_EQUATORLESS_WEDGES,
        ensures
            r.pattern@ == square0_corners(square1_corners_pattern@),
    {
        let mut pattern: Vec<u8> = Vec::new();
        let mut square1_i: usize = 0;
        while square1_i < 24
            invariant
                0 <= square1_i <= 24,
                valid_wedges(square1_corners_pattern@),
                pattern@ == square1_corners_pattern@.take(square1_i as int).filter_map(
                    |p: u8| square0_piece_for_corner(p),
                ),
            decreases 24 - square1_i,
        {
            proof {
                square1_corners_pattern@.lemma_filter_map_take_succ(
                    |p: u8| square0_piece_for_corner(p),
                    square1_i as int,
                );
            }
            if let Some(square0_piece) = square0_piece_for_corner_exec(
                square1_corners_pattern[square1_i],
            ) {
                pattern.push(square0_piece);
            }
            square1_i += 1;
        }
        assert(square1_corners_pattern@.take(24) =~= square1_corners_pattern@);
        Self { pattern }
    }
}

/// An optimized representation of a Square-1 move: a turn of the U side, a turn of the D side
/// (each by an amount of twelfths), or a slice.
#[derive(Copy, Clone, Debug, PartialEq, Eq, Structural)]
#[allow(non_camel_case_types)]
#[allow(clippy::upper_case_acronyms)]
pub enum Square1Phase2Move {
    U_SQ_(i32),
    D_SQ_(i32),
    SLASH,
}

/// The move at each flat move index of the phase 2 search: `U_SQ_` by 1 to 11, `D_SQ_` by 1 to
/// 11, then the slice.
pub open spec fn move_for_flat_index(i: int) -> Square1Phase2Move {
    if i < 11 {
        Square1Phase2Move::U_SQ_((i + 1) as i32)
    } else if i < 22 {
        Square1Phase2Move::D_SQ_((i - 10) as i32)
    } else {
        Square1Phase2Move::SLASH
    }
}

/// The edge transformation index for a side turn by `amount` (0 to 11); `None` for the turns
/// that leave the Square-0 edge grid where it was (see `lemma_side_turn_square0_transformations`).
pub open spec fn edge_index_for_amount(amount: int) -> Option<usize> {
    seq![None, Some(0usize), None, Some(0usize), Some(1usize), Some(0usize), Some(1usize), Some(2usize), Some(1usize), Some(2usize), None, Some(2usize)][amount]
}

/// The corner transformation index for a side turn by `amount` (0 to 11); `None` for the turns
/// that leave the Square-0 corner grid where it was (see
/// `lemma_side_turn_square0_transformations`).
pub open spec fn corner_index_for_amount(amount: int) -> Option<usize> {
    seq![None, None, Some(0usize), Some(0usize), Some(0usize), Some(1usize), Some(1usize), Some(1usize), Some(2usize), Some(2usize), Some(2usize), None][amount]
}

/// A side turn by `amount` twelfths of a square layer, whose edges (one twelfth each) and
/// corners (two twelfths each) alternate, carries `e` edges and `c` corners past a fixed point
/// of the layer: together they fill the turn, `e + 2c == amount`, and in an alternating layer
/// their counts differ by at most one.
pub open spec fn square_layer_turn(amount: int, e: int, c: int) -> bool {
    &&& 0 <= e <= 4
    &&& 0 <= c <= 4
    &&& e + 2 * c == amount
    &&& -1 <= e - c <= 1
}

/// The transformation index of a four-position Square-0 grid turned by `k` quarter turns
/// (0 to 4): `None` when the grid comes back where it was, else `k - 1`.
pub open spec fn quarter_turn_index(k: int) -> Option<usize> {
    if k == 0 || k == 4 {
        None
    } else {
        Some((k - 1) as usize)
    }
}

/// The Square-0 edge and corner transformations of a side turn are the quarter turns that it
/// makes of the edge grid and of the corner grid: a turn by `amount` twelfths that carries `e`
/// edges and `c` corners past a fixed point turns the edges by `e` and the corners by `c`
/// quarter turns.
pub proof fn lemma_side_turn_square0_transformations(amount: int)
    requires
        0 <= amount < 12,
    ensures
        exists|e: int, c: int|
            square_layer_turn(amount, e, c) && edge_index_for_amount(amount) == quarter_turn_index(e)
                && corner_index_for_amount(amount) == quarter_turn_index(c),
{
    let c = (amount + 1) / 3;
    let e = amount - 2 * c;
    if amount == 0 {
        assert(square_layer_turn(0, 0, 0));
    } else if amount == 1 {
        assert(square_layer_turn(1, 1, 0));
    } else if amount == 2 {
        assert(square_layer_turn(2, 0, 1));
    } else if amount == 3 {
        assert(square_layer_turn(3, 1, 1));
    } else if amount == 4 {
        assert(square_layer_turn(4, 2, 1));
    } else if amount == 5 {
        assert(square_layer_turn(5, 1, 2));
    } else if amount == 6 {
        assert(square_layer_turn(6, 2, 2));
    } else if amount == 7 {
        assert(square_layer_turn(7, 3, 2));
    } else if amount == 8 {
        assert(square_layer_turn(8, 2, 3));
    } else if amount == 9 {
        assert(square_layer_turn(9, 3, 3));
    } else if amount == 10 {
        assert(square_layer_turn(10, 4, 3));
    } else {
        assert(square_layer_turn(11, 3, 4));
    }
    assert(square_layer_turn(amount, e, c));
    assert(edge_index_for_amount(amount) == quarter_turn_index(e));
    assert(corner_index_for_amount(amount) == quarter_turn_index(c));
}

/// The Square-0 transformations are listed U turns first (0 to 2), then D turns (3 to 5), then
/// the slice (6): a `D` turn has the transformation of the same `U` turn moved up by three.
pub proof fn lemma_square0_transformation_layout(amount: int, table: spec_fn(int) -> Option<usize>)
    requires
        0 <= amount < 12,
        table(amount) matches Some(i) ==> i < 3,
    ensures
        square0_transformation(Square1Phase2Move::U_SQ_(amount as i32), table) == table(amount),
        square0_transformation(Square1Phase2Move::D_SQ_(amount as i32), table) matches Some(j) ==> (3 <= j < 6
            && table(amount) == Some((j - 3) as usize)),
        square0_transformation(Square1Phase2Move::D_SQ_(amount as i32), table) is None <==> table(amount) is None,
        square0_transformation(Square1Phase2Move::SLASH, table) == Some(6usize),
{
}

/// Whether a move's amount is one that the transformation tables accept (0 to 11).
pub open spec fn amount_in_table(m: Square1Phase2Move) -> bool {
    match m {
        Square1Phase2Move::U_SQ_(a) => 0 <= a < 12,
        Square1Phase2Move::D_SQ_(a) => 0 <= a < 12,
        Square1Phase2Move::SLASH => true,
    }
}

/// The Square-0 transformation for a move, given the per-side table (U uses indices 0 to 2,
/// D uses 3 to 5, the slice uses 6).
pub open spec fn square0_transformation(
    m: Square1Phase2Move,
    table: spec_fn(int) -> Option<usize>,
) -> Option<usize> {
    match m {
        Square1Phase2Move::U_SQ_(a) => table(a as int),
        Square1Phase2Move::D_SQ_(a) => match table(a as int) {
            Some(i) => Some((i + 3) as usize),
            None => None,
        },
        Square1Phase2Move::SLASH => Some(6usize),
    }
}

/// A move's amount reduced to 0 to 11 (slices are unchanged).
pub open spec fn normalized_move(m: Square1Phase2Move) -> Square1Phase2Move {
    match m {
        Square1Phase2Move::U_SQ_(a) => Square1Phase2Move::U_SQ_((a % 12) as i32),
        Square1Phase2Move::D_SQ_(a) => Square1Phase2Move::D_SQ_((a % 12) as i32),
        Square1Phase2Move::SLASH => Square1Phase2Move::SLASH,
    }
}

fn rem_euclid_12(a: i32) -> (r: i32)
    ensures
        r == a % 12,
        0 <= r < 12,
{
    let r = a % 12;
    if r < 0 {
        r + 12
    } else {
        r
    }
}

fn edge_index_lookup(amount: i32) -> (r: Option<usize>)
    requires
        0 <= amount < 12,
    ensures
        r == edge_index_for_amount(amount as int),
{
    let table = [None, Some(0usize), None, Some(0usize), Some(1usize), Some(0usize), Some(1usize), Some(2usize), Some(1usize), Some(2usize), None, Some(2usize)];
    assert(table@ =~= seq![None, Some(0usize), None, Some(0usize), Some(1usize), Some(0usize), Some(1usize), Some(2usize), Some(1usize), Some(2usize), None, Some(2usize)]);
    table[amount as usize]
}

fn corner_index_lookup(amount: i32) -> (r: Option<usize>)
    requires
        0 <= amount < 12,
    ensures
        r == corner_index_for_amount(amount as int),
{
    let table = [None, None, Some(0usize), Some(0usize), Some(0usize), Some(1usize), Some(1usize), Some(1usize), Some(2usize), Some(2usize), Some(2usize), None];
    assert(table@ =~= seq![None, None, Some(0usize), Some(0usize), Some(0usize), Some(1usize), Some(1usize), Some(1usize), Some(2usize), Some(2usize), Some(2usize), None]);
    table[amount as usize]
}

impl Square1Phase2Move {
    /// The move at a flat move index of the phase 2 search (0 to 22).
    pub fn from(value: FlatMoveIndex) -> (r: Self)
        requires
            value.0 <= 22,
        ensures
            r == move_for_flat_index(value.0 as int),
    {
        if value.0 < 11 {
            Square1Phase2Move::U_SQ_((value.0 + 1) as i32)
        } else if value.0 < 22 {
            Square1Phase2Move::D_SQ_((value.0 - 10) as i32)
        } else {
            Square1Phase2Move::SLASH
        }
    }

    /// The move with its amount reduced to 0 to 11.
    pub fn normalized(self) -> (r: Self)
        ensures
            r == normalized_move(self),
            amount_in_table(r),
    {
        match self {
            Square1Phase2Move::U_SQ_(amount) => Square1Phase2Move::U_SQ_(rem_euclid_12(amount)),
            Square1Phase2Move::D_SQ_(amount) => Square1Phase2Move::D_SQ_(rem_euclid_12(amount)),
            Square1Phase2Move::SLASH => self,
        }
    }

    /// The transformation of the equatorless Square-0 edge puzzle for this move, or `None` when
    /// the move leaves the edges where they were. Accepts amounts from `0` to `11`.
    pub fn to_edge_transformation(self) -> (r: Option<FlatMoveIndex>)
        requires
            amount_in_table(self),
        ensures
            r matches Some(i) ==> square0_transformation(
                self,
                |a: int| edge_index_for_amount(a),
            ) == Some(i.0),
            r is None <==> square0_transformation(self, |a: int| edge_index_for_amount(a)) is None,
    {
        match self {
            Square1Phase2Move::U_SQ_(amount) => match edge_index_lookup(amount) {
                Some(i) => Some(FlatMoveIndex(i)),
                None => None,
            },
            Square1Phase2Move::D_SQ_(amount) => match edge_index_lookup(amount) {
                Some(i) => Some(FlatMoveIndex(i + 3)),
                None => None,
            },
            Square1Phase2Move::SLASH => Some(FlatMoveIndex(6)),
        }
    }

    /// The transformation of the equatorless Square-0 corner puzzle for this move, or `None` when
    /// the move leaves the corners where they were. Accepts amounts from `0` to `11`.
    pub fn to_corner_transformation(self) -> (r: Option<FlatMoveIndex>)
        requires
            amount_in_table(self),
        ensures
            r matches Some(i) ==> square0_transformation(
                self,
                |a: int| corner_index_for_amount(a),
            ) == Some(i.0),
            r is None <==> square0_transformation(self, |a: int| corner_index_for_amount(a))
                is None,
    {
        match self {
            Square1Phase2Move::U_SQ_(amount) => match corner_index_lookup(amount) {
                Some(i) => Some(FlatMoveIndex(i)),
                None => None,
            },
            Square1Phase2Move::D_SQ_(amount) => match corner_index_lookup(amount) {
                Some(i) => Some(FlatMoveIndex(i + 3)),
                None => None,
            },
            Square1Phase2Move::SLASH => Some(FlatMoveIndex(6)),
        }
    }
}

/// The edge and corner transformations that the phase 2 move at a flat index induces on the
/// equatorless Square-0 puzzles (each `None` when that part stays put).
pub fn square0_transformations_for_move(
    transformation_to_apply: FlatMoveIndex,
) -> (r: (Option<FlatMoveIndex>, Option<FlatMoveIndex>))
    requires
        transformation_to_apply.0 <= 22,
    ensures
        ({
            let m = normalized_move(move_for_flat_index(transformation_to_apply.0 as int));
            &&& r.0 matches Some(i) ==> square0_transformation(m, |a: int| edge_index_for_amount(a))
                == Some(i.0)
            &&& r.0 is None <==> square0_transformation(m, |a: int| edge_index_for_amount(a)) is None
            &&& r.1 matches Some(i) ==> square0_transformation(
                m,
                |a: int| corner_index_for_amount(a),
            ) == Some(i.0)
            &&& r.1 is None <==> square0_transformation(m, |a: int| corner_index_for_amount(a))
                is None
        }),
{
    let phase2_move = Square1Phase2Move::from(transformation_to_apply).normalized();
    (phase2_move.to_edge_transformation(), phase2_move.to_corner_transformation())
}

/// The phase 2 prune table depth: the largest of the shape, edges and corners depths.
pub fn phase2_prune_depth(shape_depth: usize, edges_depth: usize, corners_depth: usize) -> (r: usize)
    ensures
        r >= shape_depth && r >= edges_depth && r >= corners_depth,
        r == shape_depth || r == edges_depth || r == corners_depth,
{
    let inner = if edges_depth >= corners_depth {
        edges_depth
    } else {
        corners_depth
    };
    if shape_depth >= inner {
        shape_depth
    } else {
        inner
    }
}

/// Only `D_SQ_` moves (move class `1`) are restricted: to amounts from `-3` up to (not
/// including) `3`.
pub open spec fn d_move_allowed(move_class_index: usize, amount: i32) -> bool {
    move_class_index != 1 || (-3 <= amount < 3)
}

/// Whether a move (given by its move class and amount) is allowed in the phase 1 search.
#[allow(non_snake_case)]
pub fn restrict_D_move(move_class_index: usize, amount: i32) -> (r: bool)
    ensures
        r == d_move_allowed(move_class_index, amount),
{
    if move_class_index != 1 {
        return true;
    }
    -3 <= amount && amount < 3
}

/// The phase 1 move filter: accepts exactly the moves that [restrict_D_move] allows.
pub fn filter_move_transformation(move_class_index: usize, amount: i32) -> (r: FilteringDecision)
    ensures
        r == (if d_move_allowed(move_class_index, amount) {
            FilteringDecision::Accept
        } else {
            FilteringDecision::Reject
        }),
{
    if restrict_D_move(move_class_index, amount) {
        FilteringDecision::Accept
    } else {
        FilteringDecision::Reject
    }
}

/// Whether the moves after the last slice of a phase 1 solution all have amounts from 0 to 2
/// (so that equivalent solutions are only searched once).
pub open spec fn phase1_solution_tail_ok(moves: Seq<Square1Phase2Move>) -> bool
    decreases moves.len(),
{
    if moves.len() == 0 {
        true
    } else {
        match moves.last() {
            Square1Phase2Move::SLASH => true,
            Square1Phase2Move::U_SQ_(a) => 0 <= a <= 2 && phase1_solution_tail_ok(moves.drop_last()),
            Square1Phase2Move::D_SQ_(a) => 0 <= a <= 2 && phase1_solution_tail_ok(moves.drop_last()),
        }
    }
}

/// The phase 1 solution filter: walking back from the end of the solution up to the last slice,
/// rejects a move with an amount above 2 or below 0.
pub fn filter_search_solution(solution_moves: &[Square1Phase2Move]) -> (r: FilteringDecision)
    ensures
        r == (if phase1_solution_tail_ok(solution_moves@) {
            FilteringDecision::Accept
        } else {
            FilteringDecision::Reject
        }),
{
    let mut i: usize = solution_moves.len();
    assert(solution_moves@.take(i as int) =~= solution_moves@);
    while i > 0
        invariant
            0 <= i <= solution_moves@.len(),
            phase1_solution_tail_ok(solution_moves@) == phase1_solution_tail_ok(
                solution_moves@.take(i as int),
            ),
        decreases i,
    {
        let ghost prefix = solution_moves@.take(i as int);
        assert(prefix.drop_last() =~= solution_moves@.take(i - 1));
        match solution_moves[i - 1] {
            Square1Phase2Move::SLASH => {
                return FilteringDecision::Accept;
            },
            Square1Phase2Move::U_SQ_(amount) => {
                if amount > 2 || amount < 0 {
                    return FilteringDecision::Reject;
                }
            },
            Square1Phase2Move::D_SQ_(amount) => {
                if amount > 2 || amount < 0 {
                    return FilteringDecision::Reject;
                }
            },
        }
        i -= 1;
    }
    FilteringDecision::Accept
}

/// The length of the solution up to and including its last slice (0 when it has none).
pub open spec fn through_last_slash(moves: Seq<Square1Phase2Move>) -> nat
    decreases moves.len(),
{
    if moves.len() == 0 {
        0
    } else if moves.last() == Square1Phase2Move::SLASH {
        moves.len()
    } else {
        through_last_slash(moves.drop_last())
    }
}

/// A phase 1 solution cut after its last slice, or `None` when a move after that slice has an
/// amount above 2 or below 0 (an equivalent solution with amounts from 0 to 2 covers it).
pub fn trim_phase1_solution(solution_moves: &[Square1Phase2Move]) -> (r: Option<Vec<Square1Phase2Move>>)
    ensures
        r is Some <==> phase1_solution_tail_ok(solution_moves@),
        r matches Some(v) ==> v@ == solution_moves@.take(through_last_slash(solution_moves@) as int),
{
    let mut i: usize = solution_moves.len();
    assert(solution_moves@.take(i as int) =~= solution_moves@);
    loop
        invariant
            0 <= i <= solution_moves@.len(),
            phase1_solution_tail_ok(solution_moves@) == phase1_solution_tail_ok(
                solution_moves@.take(i as int),
            ),
            through_last_slash(solution_moves@) == through_last_slash(solution_moves@.take(i as int)),
        ensures
            0 <= i <= solution_moves@.len(),
            phase1_solution_tail_ok(solution_moves@) == phase1_solution_tail_ok(
                solution_moves@.take(i as int),
            ),
            through_last_slash(solution_moves@) == through_last_slash(solution_moves@.take(i as int)),
            i == 0 || solution_moves@[i - 1] == Square1Phase2Move::SLASH,
        decreases i,
    {
        let ghost prefix = solution_moves@.take(i as int);
        if i == 0 {
            break;
        }
        assert(prefix.drop_last() =~= solution_moves@.take(i - 1));
        match solution_moves[i - 1] {
            Square1Phase2Move::SLASH => {
                break;
            },
            Square1Phase2Move::U_SQ_(amount) => {
                if amount > 2 || amount < 0 {
                    return None;
                }
            },
            Square1Phase2Move::D_SQ_(amount) => {
                if amount > 2 || amount < 0 {
                    return None;
                }
            },
        }
        i -= 1;
    }
    proof {
        let prefix = solution_moves@.take(i as int);
        if i > 0 {
            assert(prefix.last() == Square1Phase2Move::SLASH);
        }
    }
    let mut trimmed: Vec<Square1Phase2Move> = Vec::new();
    let mut j: usize = 0;
    while j < i
        invariant
            0 <= j <= i <= solution_moves@.len(),
            trimmed@ == solution_moves@.take(j as int),
        decreases i - j,
    {
        trimmed.push(solution_moves[j]);
        assert(solution_moves@.take(j + 1) =~= solution_moves@.take(j as int).push(solution_moves@[j as int]));
        j += 1;
    }
    Some(trimmed)
}

/// The alg of one Square-1 tuple: `U_SQ_` by the first amount, then `D_SQ_` by the second.
#[allow(non_snake_case)]
pub fn square1_tuple(U_SQ_amount: i32, D_SQ_amount: i32) -> (r: Alg)
    ensures
        r.nodes@.len() == 2,
        is_move_item(r.nodes@[0], "U_SQ_"@, U_SQ_amount),
        is_move_item(r.nodes@[1], "D_SQ_"@, D_SQ_amount),
{
    let mut nodes: Vec<AlgItem> = Vec::new();
    nodes.push(AlgItem::Move(Move { family: String::from_str("U_SQ_"), prefix: None, amount: U_SQ_amount }));
    nodes.push(AlgItem::Move(Move { family: String::from_str("D_SQ_"), prefix: None, amount: D_SQ_amount }));
    Alg { nodes }
}

} // verus!
