use vstd::prelude::*;

use crate::event::Event;
use crate::strings::{concat_strs, str_equals};

verus! {

/// The error for an unknown puzzle ID.
pub struct PuzzleError {
    pub description: String,
}

/// The puzzles that scrambles can be generated for.
#[derive(Debug, Clone, Copy, PartialEq, Eq, Structural)]
pub enum Puzzle {
    Cube3x3x3,
    Cube2x2x2,
    Cube4x4x4,
    Cube5x5x5,
    Cube6x6x6,
    Cube7x7x7,
    Clock,
    Megaminx,
    Pyraminx,
    Skewb,
    Square1,
    FTO,
    MasterTetraminx,
    Kilominx,
    RediCube,
    /// The puzzle of the Baby FTO event. It is not in the puzzle list: no ID gives it back.
    BabyFTO,
}

/// The ID of each puzzle.
pub open spec fn puzzle_id(p: Puzzle) -> Seq<char> {
    match p {
        Puzzle::Cube3x3x3 => "3x3x3"@,
        Puzzle::Cube2x2x2 => "2x2x2"@,
        Puzzle::Cube4x4x4 => "4x4x4"@,
        Puzzle::Cube5x5x5 => "5x5x5"@,
        Puzzle::Cube6x6x6 => "6x6x6"@,
        Puzzle::Cube7x7x7 => "7x7x7"@,
        Puzzle::Clock => "clock"@,
        Puzzle::Megaminx => "megaminx"@,
        Puzzle::Pyraminx => "pyraminx"@,
        Puzzle::Skewb => "skewb"@,
        Puzzle::Square1 => "square1"@,
        Puzzle::FTO => "fto"@,
        Puzzle::MasterTetraminx => "master_tetraminx"@,
        Puzzle::Kilominx => "kilominx"@,
        Puzzle::RediCube => "redi_cube"@,
        Puzzle::BabyFTO => "baby_fto"@,
    }
}

/// The puzzle with a given ID, if any.
pub open spec fn puzzle_with_id(s: Seq<char>) -> Option<Puzzle> {
    if s == "3x3x3"@ {
        Some(Puzzle::Cube3x3x3)
    } else if s == "2x2x2"@ {
        Some(Puzzle::Cube2x2x2)
    } else if s == "4x4x4"@ {
        Some(Puzzle::Cube4x4x4)
    } else if s == "5x5x5"@ {
        Some(Puzzle::Cube5x5x5)
    } else if s == "6x6x6"@ {
        Some(Puzzle::Cube6x6x6)
    } else if s == "7x7x7"@ {
        Some(Puzzle::Cube7x7x7)
    } else if s == "clock"@ {
        Some(Puzzle::Clock)
    } else if s == "megaminx"@ {
        Some(Puzzle::Megaminx)
    } else if s == "pyraminx"@ {
        Some(Puzzle::Pyraminx)
    } else if s == "skewb"@ {
        Some(Puzzle::Skewb)
    } else if s == "square1"@ {
        Some(Puzzle::Square1)
    } else if s == "fto"@ {
        Some(Puzzle::FTO)
    } else if s == "master_tetraminx"@ {
        Some(Puzzle::MasterTetraminx)
    } else if s == "kilominx"@ {
        Some(Puzzle::Kilominx)
    } else if s == "redi_cube"@ {
        Some(Puzzle::RediCube)
    } else {
        None
    }
}

/// The speedsolving event of each puzzle.
pub open spec fn puzzle_speedsolving_event(p: Puzzle) -> Event {
    match p {
        Puzzle::Cube3x3x3 => Event::Cube3x3x3Speedsolving,
        Puzzle::Cube2x2x2 => Event::Cube2x2x2Speedsolving,
        Puzzle::Cube4x4x4 => Event::Cube4x4x4Speedsolving,
        Puzzle::Cube5x5x5 => Event::Cube5x5x5Speedsolving,
        Puzzle::Cube6x6x6 => Event::Cube6x6x6Speedsolving,
        Puzzle::Cube7x7x7 => Event::Cube7x7x7Speedsolving,
        Puzzle::Clock => Event::ClockSpeedsolving,
        Puzzle::Megaminx => Event::MegaminxSpeedsolving,
        Puzzle::Pyraminx => Event::PyraminxSpeedsolving,
        Puzzle::Skewb => Event::SkewbSpeedsolving,
        Puzzle::Square1 => Event::Square1Speedsolving,
        Puzzle::FTO => Event::FTOSpeedsolving,
        Puzzle::MasterTetraminx => Event::MasterTetraminxSpeedsolving,
        Puzzle::Kilominx => Event::KilominxSpeedsolving,
        Puzzle::RediCube => Event::RediCubeSpeedsolving,
        Puzzle::BabyFTO => Event::BabyFTOSpeedsolving,
    }
}

impl Puzzle {
    /// The puzzle's ID.
    pub fn id(&self) -> (r: &'static str)
        ensures
            r@ == puzzle_id(*self),
    {
        match self {
            Self::Cube3x3x3 => "3x3x3",
            Self::Cube2x2x2 => "2x2x2",
            Self::Cube4x4x4 => "4x4x4",
            Self::Cube5x5x5 => "5x5x5",
            Self::Cube6x6x6 => "6x6x6",
            Self::Cube7x7x7 => "7x7x7",
            Self::Clock => "clock",
            Self::Megaminx => "megaminx",
            Self::Pyraminx => "pyraminx",
            Self::Skewb => "skewb",
            Self::Square1 => "square1",
            Self::FTO => "fto",
            Self::MasterTetraminx => "master_tetraminx",
            Self::Kilominx => "kilominx",
            Self::RediCube => "redi_cube",
            Self::BabyFTO => "baby_fto",
        }
    }

    /// The puzzle with the given ID, or an error that names the unknown ID.
    pub fn try_from_id(puzzle_id_str: &str) -> (r: Result<Self, PuzzleError>)
        ensures
            match r {
                Ok(p) => puzzle_with_id(puzzle_id_str@) == Some(p),
                Err(e) => puzzle_with_id(puzzle_id_str@) is None && e.description@
                    == "Unknown puzzle ID: "@ + puzzle_id_str@,
            },
    {
        if str_equals(puzzle_id_str, "3x3x3") {
            Ok(Self::Cube3x3x3)
        } else if str_equals(puzzle_id_str, "2x2x2") {
            Ok(Self::Cube2x2x2)
        } else if str_equals(puzzle_id_str, "4x4x4") {
            Ok(Self::Cube4x4x4)
        } else if str_equals(puzzle_id_str, "5x5x5") {
            Ok(Self::Cube5x5x5)
        } else if str_equals(puzzle_id_str, "6x6x6") {
            Ok(Self::Cube6x6x6)
        } else if str_equals(puzzle_id_str, "7x7x7") {
            Ok(Self::Cube7x7x7)
        } else if str_equals(puzzle_id_str, "clock") {
            Ok(Self::Clock)
        } else if str_equals(puzzle_id_str, "megaminx") {
            Ok(Self::Megaminx)
        } else if str_equals(puzzle_id_str, "pyraminx") {
            Ok(Self::Pyraminx)
        } else if str_equals(puzzle_id_str, "skewb") {
            Ok(Self::Skewb)
        } else if str_equals(puzzle_id_str, "square1") {
            Ok(Self::Square1)
        } else if str_equals(puzzle_id_str, "fto") {
            Ok(Self::FTO)
        } else if str_equals(puzzle_id_str, "master_tetraminx") {
            Ok(Self::MasterTetraminx)
        } else if str_equals(puzzle_id_str, "kilominx") {
            Ok(Self::Kilominx)
        } else if str_equals(puzzle_id_str, "redi_cube") {
            Ok(Self::RediCube)
        } else {
            Err(PuzzleError { description: concat_strs("Unknown puzzle ID: ", puzzle_id_str) })
        }
    }

    /// The speedsolving event of the puzzle.
    pub fn speedsolving_event(&self) -> (r: Event)
        ensures
            r == puzzle_speedsolving_event(*self),
    {
        match self {
            Self::Cube3x3x3 => Event::Cube3x3x3Speedsolving,
            Self::Cube2x2x2 => Event::Cube2x2x2Speedsolving,
            Self::Cube4x4x4 => Event::Cube4x4x4Speedsolving,
            Self::Cube5x5x5 => Event::Cube5x5x5Speedsolving,
            Self::Cube6x6x6 => Event::Cube6x6x6Speedsolving,
            Self::Cube7x7x7 => Event::Cube7x7x7Speedsolving,
            Self::Clock => Event::ClockSpeedsolving,
            Self::Megaminx => Event::MegaminxSpeedsolving,
            Self::Pyraminx => Event::PyraminxSpeedsolving,
            Self::Skewb => Event::SkewbSpeedsolving,
            Self::Square1 => Event::Square1Speedsolving,
            Self::FTO => Event::FTOSpeedsolving,
            Self::MasterTetraminx => Event::MasterTetraminxSpeedsolving,
            Self::Kilominx => Event::KilominxSpeedsolving,
            Self::RediCube => Event::RediCubeSpeedsolving,
            Self::BabyFTO => Event::BabyFTOSpeedsolving,
        }
    }
}

/// Every puzzle of the puzzle list is found again from its ID.
pub proof fn lemma_puzzle_id_round_trip(p: Puzzle)
    requires
        p != Puzzle::BabyFTO,
    ensures
        puzzle_with_id(puzzle_id(p)) == Some(p),
{
    match p {
        Puzzle::Cube3x3x3 => {
            reveal_strlit("3x3x3");
        },
        Puzzle::Cube2x2x2 => {
            reveal_strlit("2x2x2");
            reveal_strlit("3x3x3");
            assert("2x2x2"@[0] != "3x3x3"@[0]);
            assert("2x2x2"@ != "3x3x3"@);
        },
        Puzzle::Cube4x4x4 => {
            reveal_strlit("4x4x4");
            reveal_strlit("3x3x3");
            assert("4x4x4"@[0] != "3x3x3"@[0]);
            assert("4x4x4"@ != "3x3x3"@);
            reveal_strlit("2x2x2");
            assert("4x4x4"@[0] != "2x2x2"@[0]);
            assert("4x4x4"@ != "2x2x2"@);
        },
        Puzzle::Cube5x5x5 => {
            reveal_strlit("5x5x5");
            reveal_strlit("3x3x3");
            assert("5x5x5"@[0] != "3x3x3"@[0]);
            assert("5x5x5"@ != "3x3x3"@);
            reveal_strlit("2x2x2");
            assert("5x5x5"@[0] != "2x2x2"@[0]);
            assert("5x5x5"@ != "2x2x2"@);
            reveal_strlit("4x4x4");
            assert("5x5x5"@[0] != "4x4x4"@[0]);
            assert("5x5x5"@ != "4x4x4"@);
        },
        Puzzle::Cube6x6x6 => {
            reveal_strlit("6x6x6");
            reveal_strlit("3x3x3");
            assert("6x6x6"@[0] != "3x3x3"@[0]);
            assert("6x6x6"@ != "3x3x3"@);
            reveal_strlit("2x2x2");
            assert("6x6x6"@[0] != "2x2x2"@[0]);
            assert("6x6x6"@ != "2x2x2"@);
            reveal_strlit("4x4x4");
            assert("6x6x6"@[0] != "4x4x4"@[0]);
            assert("6x6x6"@ != "4x4x4"@);
            reveal_strlit("5x5x5");
            assert("6x6x6"@[0] != "5x5x5"@[0]);
            assert("6x6x6"@ != "5x5x5"@);
        },
        Puzzle::Cube7x7x7 => {
            reveal_strlit("7x7x7");
            reveal_strlit("3x3x3");
            assert("7x7x7"@[0] != "3x3x3"@[0]);
            assert("7x7x7"@ != "3x3x3"@);
            reveal_strlit("2x2x2");
            assert("7x7x7"@[0] != "2x2x2"@[0]);
            assert("7x7x7"@ != "2x2x2"@);
            reveal_strlit("4x4x4");
            assert("7x7x7"@[0] != "4x4x4"@[0]);
            assert("7x7x7"@ != "4x4x4"@);
            reveal_strlit("5x5x5");
            assert("7x7x7"@[0] != "5x5x5"@[0]);
            assert("7x7x7"@ != "5x5x5"@);
            reveal_strlit("6x6x6");
            assert("7x7x7"@[0] != "6x6x6"@[0]);
            assert("7x7x7"@ != "6x6x6"@);
        },
        Puzzle::Clock => {
            reveal_strlit("clock");
            reveal_strlit("3x3x3");
            assert("clock"@[0] != "3x3x3"@[0]);
            assert("clock"@ != "3x3x3"@);
            reveal_strlit("2x2x2");
            assert("clock"@[0] != "2x2x2"@[0]);
            assert("clock"@ != "2x2x2"@);
            reveal_strlit("4x4x4");
            assert("clock"@[0] != "4x4x4"@[0]);
            assert("clock"@ != "4x4x4"@);
            reveal_strlit("5x5x5");
            assert("clock"@[0] != "5x5x5"@[0]);
            assert("clock"@ != "5x5x5"@);
            reveal_strlit("6x6x6");
            assert("clock"@[0] != "6x6x6"@[0]);
            assert("clock"@ != "6x6x6"@);
            reveal_strlit("7x7x7");
            assert("clock"@[0] != "7x7x7"@[0]);
            assert("clock"@ != "7x7x7"@);
        },
        Puzzle::Megaminx => {
            reveal_strlit("megaminx");
            reveal_strlit("3x3x3");
            assert("megaminx"@.len() != "3x3x3"@.len());
            assert("megaminx"@ != "3x3x3"@);
            reveal_strlit("2x2x2");
            assert("megaminx"@.len() != "2x2x2"@.len());
            assert("megaminx"@ != "2x2x2"@);
            reveal_strlit("4x4x4");
            assert("megaminx"@.len() != "4x4x4"@.len());
            assert("megaminx"@ != "4x4x4"@);
            reveal_strlit("5x5x5");
            assert("megaminx"@.len() != "5x5x5"@.len());
            assert("megaminx"@ != "5x5x5"@);
            reveal_strlit("6x6x6");
            assert("megaminx"@.len() != "6x6x6"@.len());
            assert("megaminx"@ != "6x6x6"@);
            reveal_strlit("7x7x7");
            assert("megaminx"@.len() != "7x7x7"@.len());
            assert("megaminx"@ != "7x7x7"@);
            reveal_strlit("clock");
            assert("megaminx"@.len() != "clock"@.len());
            assert("megaminx"@ != "clock"@);
        },
        Puzzle::Pyraminx => {
            reveal_strlit("pyraminx");
            reveal_strlit("3x3x3");
            assert("pyraminx"@.len() != "3x3x3"@.len());
            assert("pyraminx"@ != "3x3x3"@);
            reveal_strlit("2x2x2");
            assert("pyraminx"@.len() != "2x2x2"@.len());
            assert("pyraminx"@ != "2x2x2"@);
            reveal_strlit("4x4x4");
            assert("pyraminx"@.len() != "4x4x4"@.len());
            assert("pyraminx"@ != "4x4x4"@);
            reveal_strlit("5x5x5");
            assert("pyraminx"@.len() != "5x5x5"@.len());
            assert("pyraminx"@ != "5x5x5"@);
            reveal_strlit("6x6x6");
            assert("pyraminx"@.len() != "6x6x6"@.len());
            assert("pyraminx"@ != "6x6x6"@);
            reveal_strlit("7x7x7");
            assert("pyraminx"@.len() != "7x7x7"@.len());
            assert("pyraminx"@ != "7x7x7"@);
            reveal_strlit("clock");
            assert("pyraminx"@.len() != "clock"@.len());
            assert("pyraminx"@ != "clock"@);
            reveal_strlit("megaminx");
            assert("pyraminx"@[0] != "megaminx"@[0]);
            assert("pyraminx"@ != "megaminx"@);
        },
        Puzzle::Skewb => {
            reveal_strlit("skewb");
            reveal_strlit("3x3x3");
            assert("skewb"@[0] != "3x3x3"@[0]);
            assert("skewb"@ != "3x3x3"@);
            reveal_strlit("2x2x2");
            assert("skewb"@[0] != "2x2x2"@[0]);
            assert("skewb"@ != "2x2x2"@);
            reveal_strlit("4x4x4");
            assert("skewb"@[0] != "4x4x4"@[0]);
            assert("skewb"@ != "4x4x4"@);
            reveal_strlit("5x5x5");
            assert("skewb"@[0] != "5x5x5"@[0]);
            assert("skewb"@ != "5x5x5"@);
            reveal_strlit("6x6x6");
            assert("skewb"@[0] != "6x6x6"@[0]);
            assert("skewb"@ != "6x6x6"@);
            reveal_strlit("7x7x7");
            assert("skewb"@[0] != "7x7x7"@[0]);
            assert("skewb"@ != "7x7x7"@);
            reveal_strlit("clock");
            assert("skewb"@[0] != "clock"@[0]);
            assert("skewb"@ != "clock"@);
            reveal_strlit("megaminx");
            assert("skewb"@.len() != "megaminx"@.len());
            assert("skewb"@ != "megaminx"@);
            reveal_strlit("pyraminx");
            assert("skewb"@.len() != "pyraminx"@.len());
            assert("skewb"@ != "pyraminx"@);
        },
        Puzzle::Square1 => {
            reveal_strlit("square1");
            reveal_strlit("3x3x3");
            assert("square1"@.len() != "3x3x3"@.len());
            assert("square1"@ != "3x3x3"@);
            reveal_strlit("2x2x2");
            assert("square1"@.len() != "2x2x2"@.len());
            assert("square1"@ != "2x2x2"@);
            reveal_strlit("4x4x4");
            assert("square1"@.len() != "4x4x4"@.len());
            assert("square1"@ != "4x4x4"@);
            reveal_strlit("5x5x5");
            assert("square1"@.len() != "5x5x5"@.len());
            assert("square1"@ != "5x5x5"@);
            reveal_strlit("6x6x6");
            assert("square1"@.len() != "6x6x6"@.len());
            assert("square1"@ != "6x6x6"@);
            reveal_strlit("7x7x7");
            assert("square1"@.len() != "7x7x7"@.len());
            assert("square1"@ != "7x7x7"@);
            reveal_strlit("clock");
            assert("square1"@.len() != "clock"@.len());
            assert("square1"@ != "clock"@);
            reveal_strlit("megaminx");
            assert("square1"@.len() != "megaminx"@.len());
            assert("square1"@ != "megaminx"@);
            reveal_strlit("pyraminx");
            assert("square1"@.len() != "pyraminx"@.len());
            assert("square1"@ != "pyraminx"@);
            reveal_strlit("skewb");
            assert("square1"@.len() != "skewb"@.len());
            assert("square1"@ != "skewb"@);
        },
        Puzzle::FTO => {
            reveal_strlit("fto");
            reveal_strlit("3x3x3");
            assert("fto"@.len() != "3x3x3"@.len());
            assert("fto"@ != "3x3x3"@);
            reveal_strlit("2x2x2");
            assert("fto"@.len() != "2x2x2"@.len());
            assert("fto"@ != "2x2x2"@);
            reveal_strlit("4x4x4");
            assert("fto"@.len() != "4x4x4"@.len());
            assert("fto"@ != "4x4x4"@);
            reveal_strlit("5x5x5");
            assert("fto"@.len() != "5x5x5"@.len());
            assert("fto"@ != "5x5x5"@);
            reveal_strlit("6x6x6");
            assert("fto"@.len() != "6x6x6"@.len());
            assert("fto"@ != "6x6x6"@);
            reveal_strlit("7x7x7");
            assert("fto"@.len() != "7x7x7"@.len());
            assert("fto"@ != "7x7x7"@);
            reveal_strlit("clock");
            assert("fto"@.len() != "clock"@.len());
            assert("fto"@ != "clock"@);
            reveal_strlit("megaminx");
            assert("fto"@.len() != "megaminx"@.len());
            assert("fto"@ != "megaminx"@);
            reveal_strlit("pyraminx");
            assert("fto"@.len() != "pyraminx"@.len());
            assert("fto"@ != "pyraminx"@);
            reveal_strlit("skewb");
            assert("fto"@.len() != "skewb"@.len());
            assert("fto"@ != "skewb"@);
            reveal_strlit("square1");
            assert("fto"@.len() != "square1"@.len());
            assert("fto"@ != "square1"@);
        },
        Puzzle::MasterTetraminx => {
            reveal_strlit("master_tetraminx");
            reveal_strlit("3x3x3");
            assert("master_tetraminx"@.len() != "3x3x3"@.len());
            assert("master_tetraminx"@ != "3x3x3"@);
            reveal_strlit("2x2x2");
            assert("master_tetraminx"@.len() != "2x2x2"@.len());
            assert("master_tetraminx"@ != "2x2x2"@);
            reveal_strlit("4x4x4");
            assert("master_tetraminx"@.len() != "4x4x4"@.len());
            assert("master_tetraminx"@ != "4x4x4"@);
            reveal_strlit("5x5x5");
            assert("master_tetraminx"@.len() != "5x5x5"@.len());
            assert("master_tetraminx"@ != "5x5x5"@);
            reveal_strlit("6x6x6");
            assert("master_tetraminx"@.len() != "6x6x6"@.len());
            assert("master_tetraminx"@ != "6x6x6"@);
            reveal_strlit("7x7x7");
            assert("master_tetraminx"@.len() != "7x7x7"@.len());
            assert("master_tetraminx"@ != "7x7x7"@);
            reveal_strlit("clock");
            assert("master_tetraminx"@.len() != "clock"@.len());
            assert("master_tetraminx"@ != "clock"@);
            reveal_strlit("megaminx");
            assert("master_tetraminx"@.len() != "megaminx"@.len());
            assert("master_tetraminx"@ != "megaminx"@);
            reveal_strlit("pyraminx");
            assert("master_tetraminx"@.len() != "pyraminx"@.len());
            assert("master_tetraminx"@ != "pyraminx"@);
            reveal_strlit("skewb");
            assert("master_tetraminx"@.len() != "skewb"@.len());
            assert("master_tetraminx"@ != "skewb"@);
            reveal_strlit("square1");
            assert("master_tetraminx"@.len() != "square1"@.len());
            assert("master_tetraminx"@ != "square1"@);
            reveal_strlit("fto");
            assert("master_tetraminx"@.len() != "fto"@.len());
            assert("master_tetraminx"@ != "fto"@);
        },
        Puzzle::Kilominx => {
            reveal_strlit("kilominx");
            reveal_strlit("3x3x3");
            assert("kilominx"@.len() != "3x3x3"@.len());
            assert("kilominx"@ != "3x3x3"@);
            reveal_strlit("2x2x2");
            assert("kilominx"@.len() != "2x2x2"@.len());
            assert("kilominx"@ != "2x2x2"@);
            reveal_strlit("4x4x4");
            assert("kilominx"@.len() != "4x4x4"@.len());
            assert("kilominx"@ != "4x4x4"@);
            reveal_strlit("5x5x5");
            assert("kilominx"@.len() != "5x5x5"@.len());
            assert("kilominx"@ != "5x5x5"@);
            reveal_strlit("6x6x6");
            assert("kilominx"@.len() != "6x6x6"@.len());
            assert("kilominx"@ != "6x6x6"@);
            reveal_strlit("7x7x7");
            assert("kilominx"@.len() != "7x7x7"@.len());
            assert("kilominx"@ != "7x7x7"@);
            reveal_strlit("clock");
            assert("kilominx"@.len() != "clock"@.len());
            assert("kilominx"@ != "clock"@);
            reveal_strlit("megaminx");
            assert("kilominx"@[0] != "megaminx"@[0]);
            assert("kilominx"@ != "megaminx"@);
            reveal_strlit("pyraminx");
            assert("kilominx"@[0] != "pyraminx"@[0]);
            assert("kilominx"@ != "pyraminx"@);
            reveal_strlit("skewb");
            assert("kilominx"@.len() != "skewb"@.len());
            assert("kilominx"@ != "skewb"@);
            reveal_strlit("square1");
            assert("kilominx"@.len() != "square1"@.len());
            assert("kilominx"@ != "square1"@);
            reveal_strlit("fto");
            assert("kilominx"@.len() != "fto"@.len());
            assert("kilominx"@ != "fto"@);
            reveal_strlit("master_tetraminx");
            assert("kilominx"@.len() != "master_tetraminx"@.len());
            assert("kilominx"@ != "master_tetraminx"@);
        },
        Puzzle::RediCube => {
            reveal_strlit("redi_cube");
            reveal_strlit("3x3x3");
            assert("redi_cube"@.len() != "3x3x3"@.len());
            assert("redi_cube"@ != "3x3x3"@);
            reveal_strlit("2x2x2");
            assert("redi_cube"@.len() != "2x2x2"@.len());
            assert("redi_cube"@ != "2x2x2"@);
            reveal_strlit("4x4x4");
            assert("redi_cube"@.len() != "4x4x4"@.len());
            assert("redi_cube"@ != "4x4x4"@);
            reveal_strlit("5x5x5");
            assert("redi_cube"@.len() != "5x5x5"@.len());
            assert("redi_cube"@ != "5x5x5"@);
            reveal_strlit("6x6x6");
            assert("redi_cube"@.len() != "6x6x6"@.len());
            assert("redi_cube"@ != "6x6x6"@);
            reveal_strlit("7x7x7");
            assert("redi_cube"@.len() != "7x7x7"@.len());
            assert("redi_cube"@ != "7x7x7"@);
            reveal_strlit("clock");
            assert("redi_cube"@.len() != "clock"@.len());
            assert("redi_cube"@ != "clock"@);
            reveal_strlit("megaminx");
            assert("redi_cube"@.len() != "megaminx"@.len());
            assert("redi_cube"@ != "megaminx"@);
            reveal_strlit("pyraminx");
            assert("redi_cube"@.len() != "pyraminx"@.len());
            assert("redi_cube"@ != "pyraminx"@);
            reveal_strlit("skewb");
            assert("redi_cube"@.len() != "skewb"@.len());
            assert("redi_cube"@ != "skewb"@);
            reveal_strlit("square1");
            assert("redi_cube"@.len() != "square1"@.len());
            assert("redi_cube"@ != "square1"@);
            reveal_strlit("fto");
            assert("redi_cube"@.len() != "fto"@.len());
            assert("redi_cube"@ != "fto"@);
            reveal_strlit("master_tetraminx");
            assert("redi_cube"@.len() != "master_tetraminx"@.len());
            assert("redi_cube"@ != "master_tetraminx"@);
            reveal_strlit("kilominx");
            assert("redi_cube"@.len() != "kilominx"@.len());
            assert("redi_cube"@ != "kilominx"@);
        },
        Puzzle::BabyFTO => {},
    }
}

} // verus!
