use vstd::prelude::*;
use vstd::string::StringExecFns;

use std::collections::HashSet;

use crate::alg::Move;
use crate::square1::FilteringDecision;

verus! {

broadcast use vstd::std_specs::hash::group_hash_axioms;

/// The corner pieces that belong to the back of the kilominx.
pub open spec fn back_piece_set() -> Set<u8> {
    set![10u8, 11, 13, 15, 18]
}

/// The front corner locations, which phase 1 clears of back pieces.
pub open spec fn front_locations() -> Seq<usize> {
    seq![0usize, 2, 3, 8, 19]
}

/// The front locations are the five corner locations of the F face, 0, 2, 3, 8 and 19, each
/// listed once; the back pieces are the five corners 10, 11, 13, 15 and 18.
pub proof fn lemma_front_locations_are_the_f_face_corners()
    ensures
        front_locations().len() == 5,
        forall|l: int|
            #![trigger front_locations().contains(l as usize)]
            0 <= l < 20 ==> (front_locations().contains(l as usize) <==> (l == 0 || l == 2 || l == 3 || l
                == 8 || l == 19)),
        forall|i: int, j: int| 0 <= i < j < 5 ==> front_locations()[i] != front_locations()[j],
        forall|p: u8| #[trigger] back_piece_set().contains(p) <==> (p == 10 || p == 11 || p == 13 || p
            == 15 || p == 18),
{
    let f = front_locations();
    assert(f[0] == 0 && f[1] == 2 && f[2] == 3 && f[3] == 8 && f[4] == 19);
    assert forall|l: int|
        #![trigger front_locations().contains(l as usize)]
        0 <= l < 20 implies (f.contains(l as usize) <==> (l == 0 || l == 2 || l == 3 || l == 8 || l
            == 19)) by {
        if l == 0 || l == 2 || l == 3 || l == 8 || l == 19 {
            if l == 0 { assert(f[0] == l as usize); }
            if l == 2 { assert(f[1] == l as usize); }
            if l == 3 { assert(f[2] == l as usize); }
            if l == 8 { assert(f[3] == l as usize); }
            if l == 19 { assert(f[4] == l as usize); }
        }
    }
}

/// The corner pieces that belong to the back of the kilominx.
pub fn back_pieces() -> (r: HashSet<u8>)
    ensures
        r@ == back_piece_set(),
{
    let mut pieces: HashSet<u8> = HashSet::new();
    pieces.insert(10);
    pieces.insert(11);
    pieces.insert(13);
    pieces.insert(15);
    pieces.insert(18);
    assert(pieces@ =~= back_piece_set());
    pieces
}

/// A face turn by one of the family `family`.
fn face_move(family: &str) -> (r: Move)
    ensures
        r.family@ == family@,
        r.prefix is None,
        r.amount == 1,
{
    Move { family: String::from_str(family), prefix: None, amount: 1 }
}

/// The moves of the kilominx front: `U`, `L`, `F`, `R`, `FL` and `FR`, each by one turn.
pub fn kilominx_front_moves() -> (r: Vec<Move>)
    ensures
        r@.len() == 6,
        r@[0].family@ == "U"@,
        r@[1].family@ == "L"@,
        r@[2].family@ == "F"@,
        r@[3].family@ == "R"@,
        r@[4].family@ == "FL"@,
        r@[5].family@ == "FR"@,
        forall|i: int| 0 <= i < 6 ==> (#[trigger] r@[i]).prefix is None && r@[i].amount == 1,
{
    let mut moves: Vec<Move> = Vec::new();
    moves.push(face_move("U"));
    moves.push(face_move("L"));
    moves.push(face_move("F"));
    moves.push(face_move("R"));
    moves.push(face_move("FL"));
    moves.push(face_move("FR"));
    moves
}

/// The first phase of the kilominx scramble search: move every back piece out of the front.
pub struct KilominxPhase1Search {
    back_pieces: HashSet<u8>,
}

impl KilominxPhase1Search {
    /// The back pieces that this phase moves out of the front.
    pub closed spec fn back_piece_view(&self) -> Set<u8> {
        self.back_pieces@
    }

    /// A phase 1 search over the kilominx back pieces.
    pub fn new() -> (r: Self)
        ensures
            r.back_piece_view() == back_piece_set(),
    {
        KilominxPhase1Search { back_pieces: back_pieces() }
    }

    /// Whether a phase 1 solution is kept, given the corner pieces of the pattern that it
    /// leads to: it is rejected when a front location holds a back piece.
    pub fn filter_solution(&self, corner_pieces: &[u8]) -> (r: FilteringDecision)
        requires
            corner_pieces@.len() > 19,
        ensures
            r == FilteringDecision::Reject <==> exists|j: int|
                0 <= j < 5 && self.back_piece_view().contains(
                    #[trigger] corner_pieces@[front_locations()[j] as int],
                ),
            r == FilteringDecision::Reject <==> ({
                let back = self.back_piece_view();
                ||| back.contains(corner_pieces@[0])
                ||| back.contains(corner_pieces@[2])
                ||| back.contains(corner_pieces@[3])
                ||| back.contains(corner_pieces@[8])
                ||| back.contains(corner_pieces@[19])
            }),
    {
        proof {
            lemma_front_locations_are_the_f_face_corners();
        }
        let locations: [usize; 5] = [0, 2, 3, 8, 19];
        assert(locations@ =~= front_locations());
        let mut j: usize = 0;
        while j < 5
            invariant
                0 <= j <= 5,
                locations@ == front_locations(),
                corner_pieces@.len() > 19,
                forall|jj: int|
                    0 <= jj < j ==> !self.back_pieces@.contains(
                        #[trigger] corner_pieces@[front_locations()[jj] as int],
                    ),
            decreases 5 - j,
        {
            let piece = corner_pieces[locations[j]];
            if self.back_pieces.contains(&piece) {
                return FilteringDecision::Reject;
            }
            j += 1;
        }
        FilteringDecision::Accept
    }
}

impl Default for KilominxPhase1Search {
    fn default() -> (r: Self)
        ensures
            r.back_piece_view() == back_piece_set(),
    {
        KilominxPhase1Search::new()
    }
}

} // verus!
