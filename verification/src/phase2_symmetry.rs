use vstd::prelude::*;

verus! {

/// The number of coordinates of the arrangement of the L and R centers (8 choose 4, halved).
pub const NUM_COORDINATES_C8_4D2: usize = 35;

/// The number of moves of the 4x4x4 phase 2 search.
pub const PHASE2_MOVE_COUNT: usize = 23;

/// A coordinate of the 4x4x4 phase 2 search.
#[derive(Clone, Copy, Debug, PartialEq, Eq, Structural, Hash)]
pub struct Phase2Coordinate(pub u32);

impl Phase2Coordinate {
    /// The coordinate as an index.
    pub fn usize(&self) -> (r: usize)
        ensures
            r == self.0,
    {
        self.0 as usize
    }
}

impl std::ops::Sub for Phase2Coordinate {
    type Output = Self;

    fn sub(self, rhs: Self) -> (r: Self) {
        Phase2Coordinate(self.0 - rhs.0)
    }
}

impl vstd::std_specs::ops::SubSpecImpl for Phase2Coordinate {
    open spec fn obeys_sub_spec() -> bool {
        true
    }

    open spec fn sub_req(self, rhs: Self) -> bool {
        self.0 >= rhs.0
    }

    open spec fn sub_spec(self, rhs: Self) -> Self {
        Phase2Coordinate((self.0 - rhs.0) as u32)
    }
}

/// Several phase 2 coordinates packed into one value.
#[derive(Clone, Copy, Debug, PartialEq, Eq, Structural)]
pub struct PackedValue(pub u32);

impl std::ops::Sub for PackedValue {
    type Output = Self;

    fn sub(self, rhs: Self) -> (r: Self) {
        PackedValue(self.0 - rhs.0)
    }
}

impl vstd::std_specs::ops::SubSpecImpl for PackedValue {
    open spec fn obeys_sub_spec() -> bool {
        true
    }

    open spec fn sub_req(self, rhs: Self) -> bool {
        self.0 >= rhs.0
    }

    open spec fn sub_spec(self, rhs: Self) -> Self {
        PackedValue((self.0 - rhs.0) as u32)
    }
}

impl PackedValue {
    /// The packed value as an index.
    pub fn usize(&self) -> (r: usize)
        ensures
            r == self.0,
    {
        self.0 as usize
    }
}

} // verus!
