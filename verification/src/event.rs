use vstd::prelude::*;

use crate::puzzle::{puzzle_id, puzzle_speedsolving_event, Puzzle};
use crate::strings::{concat_strs, str_equals};

verus! {

/// The error for an unknown event ID.
#[derive(Debug)]
pub struct EventError {
    pub description: String,
}

/// The competition events that scrambles can be generated for.
#[derive(Debug, Clone, Copy, PartialEq, Eq, Structural)]
pub enum Event {
    Cube3x3x3Speedsolving,
    Cube2x2x2Speedsolving,
    Cube4x4x4Speedsolving,
    Cube5x5x5Speedsolving,
    Cube6x6x6Speedsolving,
    Cube7x7x7Speedsolving,
    Cube3x3x3Blindfolded,
    Cube3x3x3FewestMoves,
    Cube3x3x3OneHanded,
    ClockSpeedsolving,
    MegaminxSpeedsolving,
    PyraminxSpeedsolving,
    SkewbSpeedsolving,
    Square1Speedsolving,
    Cube4x4x4Blindfolded,
    Cube5x5x5Blindfolded,
    Cube3x3x3MultiBlind,
    FTOSpeedsolving,
    MasterTetraminxSpeedsolving,
    KilominxSpeedsolving,
    RediCubeSpeedsolving,
    BabyFTOSpeedsolving,
}

/// The ID of each event.
pub open spec fn event_id(e: Event) -> Seq<char> {
    match e {
        Event::Cube3x3x3Speedsolving => "333"@,
        Event::Cube2x2x2Speedsolving => "222"@,
        Event::Cube4x4x4Speedsolving => "444"@,
        Event::Cube5x5x5Speedsolving => "555"@,
        Event::Cube6x6x6Speedsolving => "666"@,
        Event::Cube7x7x7Speedsolving => "777"@,
        Event::Cube3x3x3Blindfolded => "333bf"@,
        Event::Cube3x3x3FewestMoves => "333fm"@,
        Event::Cube3x3x3OneHanded => "333oh"@,
        Event::ClockSpeedsolving => "clock"@,
        Event::MegaminxSpeedsolving => "minx"@,
        Event::PyraminxSpeedsolving => "pyram"@,
        Event::SkewbSpeedsolving => "skewb"@,
        Event::Square1Speedsolving => "sq1"@,
        Event::Cube4x4x4Blindfolded => "444bf"@,
        Event::Cube5x5x5Blindfolded => "555bf"@,
        Event::Cube3x3x3MultiBlind => "333mbf"@,
        Event::FTOSpeedsolving => "fto"@,
        Event::MasterTetraminxSpeedsolving => "master_tetraminx"@,
        Event::KilominxSpeedsolving => "kilominx"@,
        Event::RediCubeSpeedsolving => "redi_cube"@,
        Event::BabyFTOSpeedsolving => "baby_fto"@,
    }
}

/// The event with a given ID, if any.
pub open spec fn event_with_id(s: Seq<char>) -> Option<Event> {
    if s == "333"@ {
        Some(Event::Cube3x3x3Speedsolving)
    } else if s == "222"@ {
        Some(Event::Cube2x2x2Speedsolving)
    } else if s == "444"@ {
        Some(Event::Cube4x4x4Speedsolving)
    } else if s == "555"@ {
        Some(Event::Cube5x5x5Speedsolving)
    } else if s == "666"@ {
        Some(Event::Cube6x6x6Speedsolving)
    } else if s == "777"@ {
        Some(Event::Cube7x7x7Speedsolving)
    } else if s == "333bf"@ {
        Some(Event::Cube3x3x3Blindfolded)
    } else if s == "333fm"@ {
        Some(Event::Cube3x3x3FewestMoves)
    } else if s == "333oh"@ {
        Some(Event::Cube3x3x3OneHanded)
    } else if s == "clock"@ {
        Some(Event::ClockSpeedsolving)
    } else if s == "minx"@ {
        Some(Event::MegaminxSpeedsolving)
    } else if s == "pyram"@ {
        Some(Event::PyraminxSpeedsolving)
    } else if s == "skewb"@ {
        Some(Event::SkewbSpeedsolving)
    } else if s == "sq1"@ {
        Some(Event::Square1Speedsolving)
    } else if s == "444bf"@ {
        Some(Event::Cube4x4x4Blindfolded)
    } else if s == "555bf"@ {
        Some(Event::Cube5x5x5Blindfolded)
    } else if s == "333mbf"@ {
        Some(Event::Cube3x3x3MultiBlind)
    } else if s == "fto"@ {
        Some(Event::FTOSpeedsolving)
    } else if s == "master_tetraminx"@ {
        Some(Event::MasterTetraminxSpeedsolving)
    } else if s == "kilominx"@ {
        Some(Event::KilominxSpeedsolving)
    } else if s == "redi_cube"@ {
        Some(Event::RediCubeSpeedsolving)
    } else if s == "baby_fto"@ {
        Some(Event::BabyFTOSpeedsolving)
    } else {
        None
    }
}

/// The puzzle that each event is held on.
pub open spec fn event_puzzle(e: Event) -> Puzzle {
    match e {
        Event::Cube3x3x3Speedsolving => Puzzle::Cube3x3x3,
        Event::Cube2x2x2Speedsolving => Puzzle::Cube2x2x2,
        Event::Cube4x4x4Speedsolving => Puzzle::Cube4x4x4,
        Event::Cube5x5x5Speedsolving => Puzzle::Cube5x5x5,
        Event::Cube6x6x6Speedsolving => Puzzle::Cube6x6x6,
        Event::Cube7x7x7Speedsolving => Puzzle::Cube7x7x7,
        Event::Cube3x3x3Blindfolded => Puzzle::Cube3x3x3,
        Event::Cube3x3x3FewestMoves => Puzzle::Cube3x3x3,
        Event::Cube3x3x3OneHanded => Puzzle::Cube3x3x3,
        Event::ClockSpeedsolving => Puzzle::Clock,
        Event::MegaminxSpeedsolving => Puzzle::Megaminx,
        Event::PyraminxSpeedsolving => Puzzle::Pyraminx,
        Event::SkewbSpeedsolving => Puzzle::Skewb,
        Event::Square1Speedsolving => Puzzle::Square1,
        Event::Cube4x4x4Blindfolded => Puzzle::Cube4x4x4,
        Event::Cube5x5x5Blindfolded => Puzzle::Cube5x5x5,
        Event::Cube3x3x3MultiBlind => Puzzle::Cube3x3x3,
        Event::FTOSpeedsolving => Puzzle::FTO,
        Event::MasterTetraminxSpeedsolving => Puzzle::MasterTetraminx,
        Event::KilominxSpeedsolving => Puzzle::Kilominx,
        Event::RediCubeSpeedsolving => Puzzle::RediCube,
        Event::BabyFTOSpeedsolving => Puzzle::BabyFTO,
    }
}

/// The display name of each event.
pub open spec fn event_display_name(e: Event) -> Seq<char> {
    match e {
        Event::Cube3x3x3Speedsolving => "3x3x3 Cube"@,
        Event::Cube2x2x2Speedsolving => "2x2x2 Cube"@,
        Event::Cube4x4x4Speedsolving => "4x4x4 Cube"@,
        Event::Cube5x5x5Speedsolving => "5x5x5 Cube"@,
        Event::Cube6x6x6Speedsolving => "6x6x6 Cube"@,
        Event::Cube7x7x7Speedsolving => "7x7x7 Cube"@,
        Event::Cube3x3x3Blindfolded => "3x3x3 Blindfolded"@,
        Event::Cube3x3x3FewestMoves => "3x3x3 Fewest Moves"@,
        Event::Cube3x3x3OneHanded => "3x3x3 One-Handed"@,
        Event::ClockSpeedsolving => "Clock"@,
        Event::MegaminxSpeedsolving => "Megaminx"@,
        Event::PyraminxSpeedsolving => "Pyraminx"@,
        Event::SkewbSpeedsolving => "Skewb"@,
        Event::Square1Speedsolving => "Square-1"@,
        Event::Cube4x4x4Blindfolded => "4x4x4 Blindfolded"@,
        Event::Cube5x5x5Blindfolded => "5x5x5 Blindfolded"@,
        Event::Cube3x3x3MultiBlind => "3x3x3 Multi-Blind"@,
        Event::FTOSpeedsolving => "Face-Turning Octahedron"@,
        Event::MasterTetraminxSpeedsolving => "Master Tetraminx"@,
        Event::KilominxSpeedsolving => "Kilominx"@,
        Event::RediCubeSpeedsolving => "Redi Cube"@,
        Event::BabyFTOSpeedsolving => "Baby FTO"@,
    }
}

impl Event {
    /// The event with the given ID, or an error that names the unknown ID.
    pub fn try_from(event_str: &str) -> (r: Result<Self, EventError>)
        ensures
            match r {
                Ok(e) => event_with_id(event_str@) == Some(e),
                Err(err) => event_with_id(event_str@) is None && err.description@
                    == "Unknown event ID: "@ + event_str@,
            },
    {
        if str_equals(event_str, "333") {
            Ok(Self::Cube3x3x3Speedsolving)
        } else if str_equals(event_str, "222") {
            Ok(Self::Cube2x2x2Speedsolving)
        } else if str_equals(event_str, "444") {
            Ok(Self::Cube4x4x4Speedsolving)
        } else if str_equals(event_str, "555") {
            Ok(Self::Cube5x5x5Speedsolving)
        } else if str_equals(event_str, "666") {
            Ok(Self::Cube6x6x6Speedsolving)
        } else if str_equals(event_str, "777") {
            Ok(Self::Cube7x7x7Speedsolving)
        } else if str_equals(event_str, "333bf") {
            Ok(Self::Cube3x3x3Blindfolded)
        } else if str_equals(event_str, "333fm") {
            Ok(Self::Cube3x3x3FewestMoves)
        } else if str_equals(event_str, "333oh") {
            Ok(Self::Cube3x3x3OneHanded)
        } else if str_equals(event_str, "clock") {
            Ok(Self::ClockSpeedsolving)
        } else if str_equals(event_str, "minx") {
            Ok(Self::MegaminxSpeedsolving)
        } else if str_equals(event_str, "pyram") {
            Ok(Self::PyraminxSpeedsolving)
        } else if str_equals(event_str, "skewb") {
            Ok(Self::SkewbSpeedsolving)
        } else if str_equals(event_str, "sq1") {
            Ok(Self::Square1Speedsolving)
        } else if str_equals(event_str, "444bf") {
            Ok(Self::Cube4x4x4Blindfolded)
        } else if str_equals(event_str, "555bf") {
            Ok(Self::Cube5x5x5Blindfolded)
        } else if str_equals(event_str, "333mbf") {
            Ok(Self::Cube3x3x3MultiBlind)
        } else if str_equals(event_str, "fto") {
            Ok(Self::FTOSpeedsolving)
        } else if str_equals(event_str, "master_tetraminx") {
            Ok(Self::MasterTetraminxSpeedsolving)
        } else if str_equals(event_str, "kilominx") {
            Ok(Self::KilominxSpeedsolving)
        } else if str_equals(event_str, "redi_cube") {
            Ok(Self::RediCubeSpeedsolving)
        } else if str_equals(event_str, "baby_fto") {
            Ok(Self::BabyFTOSpeedsolving)
        } else {
            Err(EventError { description: concat_strs("Unknown event ID: ", event_str) })
        }
    }

    /// The event's ID.
    pub fn id(&self) -> (r: &'static str)
        ensures
            r@ == event_id(*self),
    {
        match self {
            Self::Cube3x3x3Speedsolving => "333",
            Self::Cube2x2x2Speedsolving => "222",
            Self::Cube4x4x4Speedsolving => "444",
            Self::Cube5x5x5Speedsolving => "555",
            Self::Cube6x6x6Speedsolving => "666",
            Self::Cube7x7x7Speedsolving => "777",
            Self::Cube3x3x3Blindfolded => "333bf",
            Self::Cube3x3x3FewestMoves => "333fm",
            Self::Cube3x3x3OneHanded => "333oh",
            Self::ClockSpeedsolving => "clock",
            Self::MegaminxSpeedsolving => "minx",
            Self::PyraminxSpeedsolving => "pyram",
            Self::SkewbSpeedsolving => "skewb",
            Self::Square1Speedsolving => "sq1",
            Self::Cube4x4x4Blindfolded => "444bf",
            Self::Cube5x5x5Blindfolded => "555bf",
            Self::Cube3x3x3MultiBlind => "333mbf",
            Self::FTOSpeedsolving => "fto",
            Self::MasterTetraminxSpeedsolving => "master_tetraminx",
            Self::KilominxSpeedsolving => "kilominx",
            Self::RediCubeSpeedsolving => "redi_cube",
            Self::BabyFTOSpeedsolving => "baby_fto",
        }
    }

    /// The puzzle that the event is held on.
    pub fn puzzle(&self) -> (r: Puzzle)
        ensures
            r == event_puzzle(*self),
    {
        match self {
            Self::Cube3x3x3Speedsolving => Puzzle::Cube3x3x3,
            Self::Cube2x2x2Speedsolving => Puzzle::Cube2x2x2,
            Self::Cube4x4x4Speedsolving => Puzzle::Cube4x4x4,
            Self::Cube5x5x5Speedsolving => Puzzle::Cube5x5x5,
            Self::Cube6x6x6Speedsolving => Puzzle::Cube6x6x6,
            Self::Cube7x7x7Speedsolving => Puzzle::Cube7x7x7,
            Self::Cube3x3x3Blindfolded => Puzzle::Cube3x3x3,
            Self::Cube3x3x3FewestMoves => Puzzle::Cube3x3x3,
            Self::Cube3x3x3OneHanded => Puzzle::Cube3x3x3,
            Self::ClockSpeedsolving => Puzzle::Clock,
            Self::MegaminxSpeedsolving => Puzzle::Megaminx,
            Self::PyraminxSpeedsolving => Puzzle::Pyraminx,
            Self::SkewbSpeedsolving => Puzzle::Skewb,
            Self::Square1Speedsolving => Puzzle::Square1,
            Self::Cube4x4x4Blindfolded => Puzzle::Cube4x4x4,
            Self::Cube5x5x5Blindfolded => Puzzle::Cube5x5x5,
            Self::Cube3x3x3MultiBlind => Puzzle::Cube3x3x3,
            Self::FTOSpeedsolving => Puzzle::FTO,
            Self::MasterTetraminxSpeedsolving => Puzzle::MasterTetraminx,
            Self::KilominxSpeedsolving => Puzzle::Kilominx,
            Self::RediCubeSpeedsolving => Puzzle::RediCube,
            Self::BabyFTOSpeedsolving => Puzzle::BabyFTO,
        }
    }

    /// The event's display name.
    pub fn event_name(&self) -> (r: &'static str)
        ensures
            r@ == event_display_name(*self),
    {
        match self {
            Self::Cube3x3x3Speedsolving => "3x3x3 Cube",
            Self::Cube2x2x2Speedsolving => "2x2x2 Cube",
            Self::Cube4x4x4Speedsolving => "4x4x4 Cube",
            Self::Cube5x5x5Speedsolving => "5x5x5 Cube",
            Self::Cube6x6x6Speedsolving => "6x6x6 Cube",
            Self::Cube7x7x7Speedsolving => "7x7x7 Cube",
            Self::Cube3x3x3Blindfolded => "3x3x3 Blindfolded",
            Self::Cube3x3x3FewestMoves => "3x3x3 Fewest Moves",
            Self::Cube3x3x3OneHanded => "3x3x3 One-Handed",
            Self::ClockSpeedsolving => "Clock",
            Self::MegaminxSpeedsolving => "Megaminx",
            Self::PyraminxSpeedsolving => "Pyraminx",
            Self::SkewbSpeedsolving => "Skewb",
            Self::Square1Speedsolving => "Square-1",
            Self::Cube4x4x4Blindfolded => "4x4x4 Blindfolded",
            Self::Cube5x5x5Blindfolded => "5x5x5 Blindfolded",
            Self::Cube3x3x3MultiBlind => "3x3x3 Multi-Blind",
            Self::FTOSpeedsolving => "Face-Turning Octahedron",
            Self::MasterTetraminxSpeedsolving => "Master Tetraminx",
            Self::KilominxSpeedsolving => "Kilominx",
            Self::RediCubeSpeedsolving => "Redi Cube",
            Self::BabyFTOSpeedsolving => "Baby FTO",
        }
    }


    /// The event as text: its ID.
    pub fn to_string(&self) -> (r: String)
        ensures
            r@ == event_id(*self),
    {
        self.id().to_owned()
    }
}

/// Every event is found again from its ID.
pub proof fn lemma_event_id_round_trip(e: Event)
    ensures
        event_with_id(event_id(e)) == Some(e),
{
    match e {
        Event::Cube3x3x3Speedsolving => {
            reveal_strlit("333");
        },
        Event::Cube2x2x2Speedsolving => {
            reveal_strlit("222");
            reveal_strlit("333");
            assert("222"@[0] != "333"@[0]);
            assert("222"@ != "333"@);
        },
        Event::Cube4x4x4Speedsolving => {
            reveal_strlit("444");
            reveal_strlit("333");
            assert("444"@[0] != "333"@[0]);
            assert("444"@ != "333"@);
            reveal_strlit("222");
            assert("444"@[0] != "222"@[0]);
            assert("444"@ != "222"@);
        },
        Event::Cube5x5x5Speedsolving => {
            reveal_strlit("555");
            reveal_strlit("333");
            assert("555"@[0] != "333"@[0]);
            assert("555"@ != "333"@);
            reveal_strlit("222");
            assert("555"@[0] != "222"@[0]);
            assert("555"@ != "222"@);
            reveal_strlit("444");
            assert("555"@[0] != "444"@[0]);
            assert("555"@ != "444"@);
        },
        Event::Cube6x6x6Speedsolving => {
            reveal_strlit("666");
            reveal_strlit("333");
            assert("666"@[0] != "333"@[0]);
            assert("666"@ != "333"@);
            reveal_strlit("222");
            assert("666"@[0] != "222"@[0]);
            assert("666"@ != "222"@);
            reveal_strlit("444");
            assert("666"@[0] != "444"@[0]);
            assert("666"@ != "444"@);
            reveal_strlit("555");
            assert("666"@[0] != "555"@[0]);
            assert("666"@ != "555"@);
        },
        Event::Cube7x7x7Speedsolving => {
            reveal_strlit("777");
            reveal_strlit("333");
            assert("777"@[0] != "333"@[0]);
            assert("777"@ != "333"@);
            reveal_strlit("222");
            assert("777"@[0] != "222"@[0]);
            assert("777"@ != "222"@);
            reveal_strlit("444");
            assert("777"@[0] != "444"@[0]);
            assert("777"@ != "444"@);
            reveal_strlit("555");
            assert("777"@[0] != "555"@[0]);
            assert("777"@ != "555"@);
            reveal_strlit("666");
            assert("777"@[0] != "666"@[0]);
            assert("777"@ != "666"@);
        },
        Event::Cube3x3x3Blindfolded => {
            reveal_strlit("333bf");
            reveal_strlit("333");
            assert("333bf"@.len() != "333"@.len());
            assert("333bf"@ != "333"@);
            reveal_strlit("222");
            assert("333bf"@.len() != "222"@.len());
            assert("333bf"@ != "222"@);
            reveal_strlit("444");
            assert("333bf"@.len() != "444"@.len());
            assert("333bf"@ != "444"@);
            reveal_strlit("555");
            assert("333bf"@.len() != "555"@.len());
            assert("333bf"@ != "555"@);
            reveal_strlit("666");
            assert("333bf"@.len() != "666"@.len());
            assert("333bf"@ != "666"@);
            reveal_strlit("777");
            assert("333bf"@.len() != "777"@.len());
            assert("333bf"@ != "777"@);
        },
        Event::Cube3x3x3FewestMoves => {
            reveal_strlit("333fm");
            reveal_strlit("333");
            assert("333fm"@.len() != "333"@.len());
            assert("333fm"@ != "333"@);
            reveal_strlit("222");
            assert("333fm"@.len() != "222"@.len());
            assert("333fm"@ != "222"@);
            reveal_strlit("444");
            assert("333fm"@.len() != "444"@.len());
            assert("333fm"@ != "444"@);
            reveal_strlit("555");
            assert("333fm"@.len() != "555"@.len());
            assert("333fm"@ != "555"@);
            reveal_strlit("666");
            assert("333fm"@.len() != "666"@.len());
            assert("333fm"@ != "666"@);
            reveal_strlit("777");
            assert("333fm"@.len() != "777"@.len());
            assert("333fm"@ != "777"@);
            reveal_strlit("333bf");
            assert("333fm"@[3] != "333bf"@[3]);
            assert("333fm"@ != "333bf"@);
        },
        Event::Cube3x3x3OneHanded => {
            reveal_strlit("333oh");
            reveal_strlit("333");
            assert("333oh"@.len() != "333"@.len());
            assert("333oh"@ != "333"@);
            reveal_strlit("222");
            assert("333oh"@.len() != "222"@.len());
            assert("333oh"@ != "222"@);
            reveal_strlit("444");
            assert("333oh"@.len() != "444"@.len());
            assert("333oh"@ != "444"@);
            reveal_strlit("555");
            assert("333oh"@.len() != "555"@.len());
            assert("333oh"@ != "555"@);
            reveal_strlit("666");
            assert("333oh"@.len() != "666"@.len());
            assert("333oh"@ != "666"@);
            reveal_strlit("777");
            assert("333oh"@.len() != "777"@.len());
            assert("333oh"@ != "777"@);
            reveal_strlit("333bf");
            assert("333oh"@[3] != "333bf"@[3]);
            assert("333oh"@ != "333bf"@);
            reveal_strlit("333fm");
            assert("333oh"@[3] != "333fm"@[3]);
            assert("333oh"@ != "333fm"@);
        },
        Event::ClockSpeedsolving => {
            reveal_strlit("clock");
            reveal_strlit("333");
            assert("clock"@.len() != "333"@.len());
            assert("clock"@ != "333"@);
            reveal_strlit("222");
            assert("clock"@.len() != "222"@.len());
            assert("clock"@ != "222"@);
            reveal_strlit("444");
            assert("clock"@.len() != "444"@.len());
            assert("clock"@ != "444"@);
            reveal_strlit("555");
            assert("clock"@.len() != "555"@.len());
            assert("clock"@ != "555"@);
            reveal_strlit("666");
            assert("clock"@.len() != "666"@.len());
            assert("clock"@ != "666"@);
            reveal_strlit("777");
            assert("clock"@.len() != "777"@.len());
            assert("clock"@ != "777"@);
            reveal_strlit("333bf");
            assert("clock"@[0] != "333bf"@[0]);
            assert("clock"@ != "333bf"@);
            reveal_strlit("333fm");
            assert("clock"@[0] != "333fm"@[0]);
            assert("clock"@ != "333fm"@);
            reveal_strlit("333oh");
            assert("clock"@[0] != "333oh"@[0]);
            assert("clock"@ != "333oh"@);
        },
        Event::MegaminxSpeedsolving => {
            reveal_strlit("minx");
            reveal_strlit("333");
            assert("minx"@.len() != "333"@.len());
            assert("minx"@ != "333"@);
            reveal_strlit("222");
            assert("minx"@.len() != "222"@.len());
            assert("minx"@ != "222"@);
            reveal_strlit("444");
            assert("minx"@.len() != "444"@.len());
            assert("minx"@ != "444"@);
            reveal_strlit("555");
            assert("minx"@.len() != "555"@.len());
            assert("minx"@ != "555"@);
            reveal_strlit("666");
            assert("minx"@.len() != "666"@.len());
            assert("minx"@ != "666"@);
            reveal_strlit("777");
            assert("minx"@.len() != "777"@.len());
            assert("minx"@ != "777"@);
            reveal_strlit("333bf");
            assert("minx"@.len() != "333bf"@.len());
            assert("minx"@ != "333bf"@);
            reveal_strlit("333fm");
            assert("minx"@.len() != "333fm"@.len());
            assert("minx"@ != "333fm"@);
            reveal_strlit("333oh");
            assert("minx"@.len() != "333oh"@.len());
            assert("minx"@ != "333oh"@);
            reveal_strlit("clock");
            assert("minx"@.len() != "clock"@.len());
            assert("minx"@ != "clock"@);
        },
        Event::PyraminxSpeedsolving => {
            reveal_strlit("pyram");
            reveal_strlit("333");
            assert("pyram"@.len() != "333"@.len());
            assert("pyram"@ != "333"@);
            reveal_strlit("222");
            assert("pyram"@.len() != "222"@.len());
            assert("pyram"@ != "222"@);
            reveal_strlit("444");
            assert("pyram"@.len() != "444"@.len());
            assert("pyram"@ != "444"@);
            reveal_strlit("555");
            assert("pyram"@.len() != "555"@.len());
            assert("pyram"@ != "555"@);
            reveal_strlit("666");
            assert("pyram"@.len() != "666"@.len());
            assert("pyram"@ != "666"@);
            reveal_strlit("777");
            assert("pyram"@.len() != "777"@.len());
            assert("pyram"@ != "777"@);
            reveal_strlit("333bf");
            assert("pyram"@[0] != "333bf"@[0]);
            assert("pyram"@ != "333bf"@);
            reveal_strlit("333fm");
            assert("pyram"@[0] != "333fm"@[0]);
            assert("pyram"@ != "333fm"@);
            reveal_strlit("333oh");
            assert("pyram"@[0] != "333oh"@[0]);
            assert("pyram"@ != "333oh"@);
            reveal_strlit("clock");
            assert("pyram"@[0] != "clock"@[0]);
            assert("pyram"@ != "clock"@);
            reveal_strlit("minx");
            assert("pyram"@.len() != "minx"@.len());
            assert("pyram"@ != "minx"@);
        },
        Event::SkewbSpeedsolving => {
            reveal_strlit("skewb");
            reveal_strlit("333");
            assert("skewb"@.len() != "333"@.len());
            assert("skewb"@ != "333"@);
            reveal_strlit("222");
            assert("skewb"@.len() != "222"@.len());
            assert("skewb"@ != "222"@);
            reveal_strlit("444");
            assert("skewb"@.len() != "444"@.len());
            assert("skewb"@ != "444"@);
            reveal_strlit("555");
            assert("skewb"@.len() != "555"@.len());
            assert("skewb"@ != "555"@);
            reveal_strlit("666");
            assert("skewb"@.len() != "666"@.len());
            assert("skewb"@ != "666"@);
            reveal_strlit("777");
            assert("skewb"@.len() != "777"@.len());
            assert("skewb"@ != "777"@);
            reveal_strlit("333bf");
            assert("skewb"@[0] != "333bf"@[0]);
            assert("skewb"@ != "333bf"@);
            reveal_strlit("333fm");
            assert("skewb"@[0] != "333fm"@[0]);
            assert("skewb"@ != "333fm"@);
            reveal_strlit("333oh");
            assert("skewb"@[0] != "333oh"@[0]);
            assert("skewb"@ != "333oh"@);
            reveal_strlit("clock");
            assert("skewb"@[0] != "clock"@[0]);
            assert("skewb"@ != "clock"@);
            reveal_strlit("minx");
            assert("skewb"@.len() != "minx"@.len());
            assert("skewb"@ != "minx"@);
            reveal_strlit("pyram");
            assert("skewb"@[0] != "pyram"@[0]);
            assert("skewb"@ != "pyram"@);
        },
        Event::Square1Speedsolving => {
            reveal_strlit("sq1");
            reveal_strlit("333");
            assert("sq1"@[0] != "333"@[0]);
            assert("sq1"@ != "333"@);
            reveal_strlit("222");
            assert("sq1"@[0] != "222"@[0]);
            assert("sq1"@ != "222"@);
            reveal_strlit("444");
            assert("sq1"@[0] != "444"@[0]);
            assert("sq1"@ != "444"@);
            reveal_strlit("555");
            assert("sq1"@[0] != "555"@[0]);
            assert("sq1"@ != "555"@);
            reveal_strlit("666");
            assert("sq1"@[0] != "666"@[0]);
            assert("sq1"@ != "666"@);
            reveal_strlit("777");
            assert("sq1"@[0] != "777"@[0]);
            assert("sq1"@ != "777"@);
            reveal_strlit("333bf");
            assert("sq1"@.len() != "333bf"@.len());
            assert("sq1"@ != "333bf"@);
            reveal_strlit("333fm");
            assert("sq1"@.len() != "333fm"@.len());
            assert("sq1"@ != "333fm"@);
            reveal_strlit("333oh");
            assert("sq1"@.len() != "333oh"@.len());
            assert("sq1"@ != "333oh"@);
            reveal_strlit("clock");
            assert("sq1"@.len() != "clock"@.len());
            assert("sq1"@ != "clock"@);
            reveal_strlit("minx");
            assert("sq1"@.len() != "minx"@.len());
            assert("sq1"@ != "minx"@);
            reveal_strlit("pyram");
            assert("sq1"@.len() != "pyram"@.len());
            assert("sq1"@ != "pyram"@);
            reveal_strlit("skewb");
            assert("sq1"@.len() != "skewb"@.len());
            assert("sq1"@ != "skewb"@);
        },
        Event::Cube4x4x4Blindfolded => {
            reveal_strlit("444bf");
            reveal_strlit("333");
            assert("444bf"@.len() != "333"@.len());
            assert("444bf"@ != "333"@);
            reveal_strlit("222");
            assert("444bf"@.len() != "222"@.len());
            assert("444bf"@ != "222"@);
            reveal_strlit("444");
            assert("444bf"@.len() != "444"@.len());
            assert("444bf"@ != "444"@);
            reveal_strlit("555");
            assert("444bf"@.len() != "555"@.len());
            assert("444bf"@ != "555"@);
            reveal_strlit("666");
            assert("444bf"@.len() != "666"@.len());
            assert("444bf"@ != "666"@);
            reveal_strlit("777");
            assert("444bf"@.len() != "777"@.len());
            assert("444bf"@ != "777"@);
            reveal_strlit("333bf");
            assert("444bf"@[0] != "333bf"@[0]);
            assert("444bf"@ != "333bf"@);
            reveal_strlit("333fm");
            assert("444bf"@[0] != "333fm"@[0]);
            assert("444bf"@ != "333fm"@);
            reveal_strlit("333oh");
            assert("444bf"@[0] != "333oh"@[0]);
            assert("444bf"@ != "333oh"@);
            reveal_strlit("clock");
            assert("444bf"@[0] != "clock"@[0]);
            assert("444bf"@ != "clock"@);
            reveal_strlit("minx");
            assert("444bf"@.len() != "minx"@.len());
            assert("444bf"@ != "minx"@);
            reveal_strlit("pyram");
            assert("444bf"@[0] != "pyram"@[0]);
            assert("444bf"@ != "pyram"@);
            reveal_strlit("skewb");
            assert("444bf"@[0] != "skewb"@[0]);
            assert("444bf"@ != "skewb"@);
            reveal_strlit("sq1");
            assert("444bf"@.len() != "sq1"@.len());
            assert("444bf"@ != "sq1"@);
        },
        Event::Cube5x5x5Blindfolded => {
            reveal_strlit("555bf");
            reveal_strlit("333");
            assert("555bf"@.len() != "333"@.len());
            assert("555bf"@ != "333"@);
            reveal_strlit("222");
            assert("555bf"@.len() != "222"@.len());
            assert("555bf"@ != "222"@);
            reveal_strlit("444");
            assert("555bf"@.len() != "444"@.len());
            assert("555bf"@ != "444"@);
            reveal_strlit("555");
            assert("555bf"@.len() != "555"@.len());
            assert("555bf"@ != "555"@);
            reveal_strlit("666");
            assert("555bf"@.len() != "666"@.len());
            assert("555bf"@ != "666"@);
            reveal_strlit("777");
            assert("555bf"@.len() != "777"@.len());
            assert("555bf"@ != "777"@);
            reveal_strlit("333bf");
            assert("555bf"@[0] != "333bf"@[0]);
            assert("555bf"@ != "333bf"@);
            reveal_strlit("333fm");
            assert("555bf"@[0] != "333fm"@[0]);
            assert("555bf"@ != "333fm"@);
            reveal_strlit("333oh");
            assert("555bf"@[0] != "333oh"@[0]);
            assert("555bf"@ != "333oh"@);
            reveal_strlit("clock");
            assert("555bf"@[0] != "clock"@[0]);
            assert("555bf"@ != "clock"@);
            reveal_strlit("minx");
            assert("555bf"@.len() != "minx"@.len());
            assert("555bf"@ != "minx"@);
            reveal_strlit("pyram");
            assert("555bf"@[0] != "pyram"@[0]);
            assert("555bf"@ != "pyram"@);
            reveal_strlit("skewb");
            assert("555bf"@[0] != "skewb"@[0]);
            assert("555bf"@ != "skewb"@);
            reveal_strlit("sq1");
            assert("555bf"@.len() != "sq1"@.len());
            assert("555bf"@ != "sq1"@);
            reveal_strlit("444bf");
            assert("555bf"@[0] != "444bf"@[0]);
            assert("555bf"@ != "444bf"@);
        },
        Event::Cube3x3x3MultiBlind => {
            reveal_strlit("333mbf");
            reveal_strlit("333");
            assert("333mbf"@.len() != "333"@.len());
            assert("333mbf"@ != "333"@);
            reveal_strlit("222");
            assert("333mbf"@.len() != "222"@.len());
            assert("333mbf"@ != "222"@);
            reveal_strlit("444");
            assert("333mbf"@.len() != "444"@.len());
            assert("333mbf"@ != "444"@);
            reveal_strlit("555");
            assert("333mbf"@.len() != "555"@.len());
            assert("333mbf"@ != "555"@);
            reveal_strlit("666");
            assert("333mbf"@.len() != "666"@.len());
            assert("333mbf"@ != "666"@);
            reveal_strlit("777");
            assert("333mbf"@.len() != "777"@.len());
            assert("333mbf"@ != "777"@);
            reveal_strlit("333bf");
            assert("333mbf"@.len() != "333bf"@.len());
            assert("333mbf"@ != "333bf"@);
            reveal_strlit("333fm");
            assert("333mbf"@.len() != "333fm"@.len());
            assert("333mbf"@ != "333fm"@);
            reveal_strlit("333oh");
            assert("333mbf"@.len() != "333oh"@.len());
            assert("333mbf"@ != "333oh"@);
            reveal_strlit("clock");
            assert("333mbf"@.len() != "clock"@.len());
            assert("333mbf"@ != "clock"@);
            reveal_strlit("minx");
            assert("333mbf"@.len() != "minx"@.len());
            assert("333mbf"@ != "minx"@);
            reveal_strlit("pyram");
            assert("333mbf"@.len() != "pyram"@.len());
            assert("333mbf"@ != "pyram"@);
            reveal_strlit("skewb");
            assert("333mbf"@.len() != "skewb"@.len());
            assert("333mbf"@ != "skewb"@);
            reveal_strlit("sq1");
            assert("333mbf"@.len() != "sq1"@.len());
            assert("333mbf"@ != "sq1"@);
            reveal_strlit("444bf");
            assert("333mbf"@.len() != "444bf"@.len());
            assert("333mbf"@ != "444bf"@);
            reveal_strlit("555bf");
            assert("333mbf"@.len() != "555bf"@.len());
            assert("333mbf"@ != "555bf"@);
        },
        Event::FTOSpeedsolving => {
            reveal_strlit("fto");
            reveal_strlit("333");
            assert("fto"@[0] != "333"@[0]);
            assert("fto"@ != "333"@);
            reveal_strlit("222");
            assert("fto"@[0] != "222"@[0]);
            assert("fto"@ != "222"@);
            reveal_strlit("444");
            assert("fto"@[0] != "444"@[0]);
            assert("fto"@ != "444"@);
            reveal_strlit("555");
            assert("fto"@[0] != "555"@[0]);
            assert("fto"@ != "555"@);
            reveal_strlit("666");
            assert("fto"@[0] != "666"@[0]);
            assert("fto"@ != "666"@);
            reveal_strlit("777");
            assert("fto"@[0] != "777"@[0]);
            assert("fto"@ != "777"@);
            reveal_strlit("333bf");
            assert("fto"@.len() != "333bf"@.len());
            assert("fto"@ != "333bf"@);
            reveal_strlit("333fm");
            assert("fto"@.len() != "333fm"@.len());
            assert("fto"@ != "333fm"@);
            reveal_strlit("333oh");
            assert("fto"@.len() != "333oh"@.len());
            assert("fto"@ != "333oh"@);
            reveal_strlit("clock");
            assert("fto"@.len() != "clock"@.len());
            assert("fto"@ != "clock"@);
            reveal_strlit("minx");
            assert("fto"@.len() != "minx"@.len());
            assert("fto"@ != "minx"@);
            reveal_strlit("pyram");
            assert("fto"@.len() != "pyram"@.len());
            assert("fto"@ != "pyram"@);
            reveal_strlit("skewb");
            assert("fto"@.len() != "skewb"@.len());
            assert("fto"@ != "skewb"@);
            reveal_strlit("sq1");
            assert("fto"@[0] != "sq1"@[0]);
            assert("fto"@ != "sq1"@);
            reveal_strlit("444bf");
            assert("fto"@.len() != "444bf"@.len());
            assert("fto"@ != "444bf"@);
            reveal_strlit("555bf");
            assert("fto"@.len() != "555bf"@.len());
            assert("fto"@ != "555bf"@);
            reveal_strlit("333mbf");
            assert("fto"@.len() != "333mbf"@.len());
            assert("fto"@ != "333mbf"@);
        },
        Event::MasterTetraminxSpeedsolving => {
            reveal_strlit("master_tetraminx");
            reveal_strlit("333");
            assert("master_tetraminx"@.len() != "333"@.len());
            assert("master_tetraminx"@ != "333"@);
            reveal_strlit("222");
            assert("master_tetraminx"@.len() != "222"@.len());
            assert("master_tetraminx"@ != "222"@);
            reveal_strlit("444");
            assert("master_tetraminx"@.len() != "444"@.len());
            assert("master_tetraminx"@ != "444"@);
            reveal_strlit("555");
            assert("master_tetraminx"@.len() != "555"@.len());
            assert("master_tetraminx"@ != "555"@);
            reveal_strlit("666");
            assert("master_tetraminx"@.len() != "666"@.len());
            assert("master_tetraminx"@ != "666"@);
            reveal_strlit("777");
            assert("master_tetraminx"@.len() != "777"@.len());
            assert("master_tetraminx"@ != "777"@);
            reveal_strlit("333bf");
            assert("master_tetraminx"@.len() != "333bf"@.len());
            assert("master_tetraminx"@ != "333bf"@);
            reveal_strlit("333fm");
            assert("master_tetraminx"@.len() != "333fm"@.len());
            assert("master_tetraminx"@ != "333fm"@);
            reveal_strlit("333oh");
            assert("master_tetraminx"@.len() != "333oh"@.len());
            assert("master_tetraminx"@ != "333oh"@);
            reveal_strlit("clock");
            assert("master_tetraminx"@.len() != "clock"@.len());
            assert("master_tetraminx"@ != "clock"@);
            reveal_strlit("minx");
            assert("master_tetraminx"@.len() != "minx"@.len());
            assert("master_tetraminx"@ != "minx"@);
            reveal_strlit("pyram");
            assert("master_tetraminx"@.len() != "pyram"@.len());
            assert("master_tetraminx"@ != "pyram"@);
            reveal_strlit("skewb");
            assert("master_tetraminx"@.len() != "skewb"@.len());
            assert("master_tetraminx"@ != "skewb"@);
            reveal_strlit("sq1");
            assert("master_tetraminx"@.len() != "sq1"@.len());
            assert("master_tetraminx"@ != "sq1"@);
            reveal_strlit("444bf");
            assert("master_tetraminx"@.len() != "444bf"@.len());
            assert("master_tetraminx"@ != "444bf"@);
            reveal_strlit("555bf");
            assert("master_tetraminx"@.len() != "555bf"@.len());
            assert("master_tetraminx"@ != "555bf"@);
            reveal_strlit("333mbf");
            assert("master_tetraminx"@.len() != "333mbf"@.len());
            assert("master_tetraminx"@ != "333mbf"@);
            reveal_strlit("fto");
            assert("master_tetraminx"@.len() != "fto"@.len());
            assert("master_tetraminx"@ != "fto"@);
        },
        Event::KilominxSpeedsolving => {
            reveal_strlit("kilominx");
            reveal_strlit("333");
            assert("kilominx"@.len() != "333"@.len());
            assert("kilominx"@ != "333"@);
            reveal_strlit("222");
            assert("kilominx"@.len() != "222"@.len());
            assert("kilominx"@ != "222"@);
            reveal_strlit("444");
            assert("kilominx"@.len() != "444"@.len());
            assert("kilominx"@ != "444"@);
            reveal_strlit("555");
            assert("kilominx"@.len() != "555"@.len());
            assert("kilominx"@ != "555"@);
            reveal_strlit("666");
            assert("kilominx"@.len() != "666"@.len());
            assert("kilominx"@ != "666"@);
            reveal_strlit("777");
            assert("kilominx"@.len() != "777"@.len());
            assert("kilominx"@ != "777"@);
            reveal_strlit("333bf");
            assert("kilominx"@.len() != "333bf"@.len());
            assert("kilominx"@ != "333bf"@);
            reveal_strlit("333fm");
            assert("kilominx"@.len() != "333fm"@.len());
            assert("kilominx"@ != "333fm"@);
            reveal_strlit("333oh");
            assert("kilominx"@.len() != "333oh"@.len());
            assert("kilominx"@ != "333oh"@);
            reveal_strlit("clock");
            assert("kilominx"@.len() != "clock"@.len());
            assert("kilominx"@ != "clock"@);
            reveal_strlit("minx");
            assert("kilominx"@.len() != "minx"@.len());
            assert("kilominx"@ != "minx"@);
            reveal_strlit("pyram");
            assert("kilominx"@.len() != "pyram"@.len());
            assert("kilominx"@ != "pyram"@);
            reveal_strlit("skewb");
            assert("kilominx"@.len() != "skewb"@.len());
            assert("kilominx"@ != "skewb"@);
            reveal_strlit("sq1");
            assert("kilominx"@.len() != "sq1"@.len());
            assert("kilominx"@ != "sq1"@);
            reveal_strlit("444bf");
            assert("kilominx"@.len() != "444bf"@.len());
            assert("kilominx"@ != "444bf"@);
            reveal_strlit("555bf");
            assert("kilominx"@.len() != "555bf"@.len());
            assert("kilominx"@ != "555bf"@);
            reveal_strlit("333mbf");
            assert("kilominx"@.len() != "333mbf"@.len());
            assert("kilominx"@ != "333mbf"@);
            reveal_strlit("fto");
            assert("kilominx"@.len() != "fto"@.len());
            assert("kilominx"@ != "fto"@);
            reveal_strlit("master_tetraminx");
            assert("kilominx"@.len() != "master_tetraminx"@.len());
            assert("kilominx"@ != "master_tetraminx"@);
        },
        Event::RediCubeSpeedsolving => {
            reveal_strlit("redi_cube");
            reveal_strlit("333");
            assert("redi_cube"@.len() != "333"@.len());
            assert("redi_cube"@ != "333"@);
            reveal_strlit("222");
            assert("redi_cube"@.len() != "222"@.len());
            assert("redi_cube"@ != "222"@);
            reveal_strlit("444");
            assert("redi_cube"@.len() != "444"@.len());
            assert("redi_cube"@ != "444"@);
            reveal_strlit("555");
            assert("redi_cube"@.len() != "555"@.len());
            assert("redi_cube"@ != "555"@);
            reveal_strlit("666");
            assert("redi_cube"@.len() != "666"@.len());
            assert("redi_cube"@ != "666"@);
            reveal_strlit("777");
            assert("redi_cube"@.len() != "777"@.len());
            assert("redi_cube"@ != "777"@);
            reveal_strlit("333bf");
            assert("redi_cube"@.len() != "333bf"@.len());
            assert("redi_cube"@ != "333bf"@);
            reveal_strlit("333fm");
            assert("redi_cube"@.len() != "333fm"@.len());
            assert("redi_cube"@ != "333fm"@);
            reveal_strlit("333oh");
            assert("redi_cube"@.len() != "333oh"@.len());
            assert("redi_cube"@ != "333oh"@);
            reveal_strlit("clock");
            assert("redi_cube"@.len() != "clock"@.len());
            assert("redi_cube"@ != "clock"@);
            reveal_strlit("minx");
            assert("redi_cube"@.len() != "minx"@.len());
            assert("redi_cube"@ != "minx"@);
            reveal_strlit("pyram");
            assert("redi_cube"@.len() != "pyram"@.len());
            assert("redi_cube"@ != "pyram"@);
            reveal_strlit("skewb");
            assert("redi_cube"@.len() != "skewb"@.len());
            assert("redi_cube"@ != "skewb"@);
            reveal_strlit("sq1");
            assert("redi_cube"@.len() != "sq1"@.len());
            assert("redi_cube"@ != "sq1"@);
            reveal_strlit("444bf");
            assert("redi_cube"@.len() != "444bf"@.len());
            assert("redi_cube"@ != "444bf"@);
            reveal_strlit("555bf");
            assert("redi_cube"@.len() != "555bf"@.len());
            assert("redi_cube"@ != "555bf"@);
            reveal_strlit("333mbf");
            assert("redi_cube"@.len() != "333mbf"@.len());
            assert("redi_cube"@ != "333mbf"@);
            reveal_strlit("fto");
            assert("redi_cube"@.len() != "fto"@.len());
            assert("redi_cube"@ != "fto"@);
            reveal_strlit("master_tetraminx");
            assert("redi_cube"@.len() != "master_tetraminx"@.len());
            assert("redi_cube"@ != "master_tetraminx"@);
            reveal_strlit("kilominx");
            assert("redi_cube"@.len() != "kilominx"@.len());
            assert("redi_cube"@ != "kilominx"@);
        },
        Event::BabyFTOSpeedsolving => {
            reveal_strlit("baby_fto");
            reveal_strlit("333");
            assert("baby_fto"@.len() != "333"@.len());
            assert("baby_fto"@ != "333"@);
            reveal_strlit("222");
            assert("baby_fto"@.len() != "222"@.len());
            assert("baby_fto"@ != "222"@);
            reveal_strlit("444");
            assert("baby_fto"@.len() != "444"@.len());
            assert("baby_fto"@ != "444"@);
            reveal_strlit("555");
            assert("baby_fto"@.len() != "555"@.len());
            assert("baby_fto"@ != "555"@);
            reveal_strlit("666");
            assert("baby_fto"@.len() != "666"@.len());
            assert("baby_fto"@ != "666"@);
            reveal_strlit("777");
            assert("baby_fto"@.len() != "777"@.len());
            assert("baby_fto"@ != "777"@);
            reveal_strlit("333bf");
            assert("baby_fto"@.len() != "333bf"@.len());
            assert("baby_fto"@ != "333bf"@);
            reveal_strlit("333fm");
            assert("baby_fto"@.len() != "333fm"@.len());
            assert("baby_fto"@ != "333fm"@);
            reveal_strlit("333oh");
            assert("baby_fto"@.len() != "333oh"@.len());
            assert("baby_fto"@ != "333oh"@);
            reveal_strlit("clock");
            assert("baby_fto"@.len() != "clock"@.len());
            assert("baby_fto"@ != "clock"@);
            reveal_strlit("minx");
            assert("baby_fto"@.len() != "minx"@.len());
            assert("baby_fto"@ != "minx"@);
            reveal_strlit("pyram");
            assert("baby_fto"@.len() != "pyram"@.len());
            assert("baby_fto"@ != "pyram"@);
            reveal_strlit("skewb");
            assert("baby_fto"@.len() != "skewb"@.len());
            assert("baby_fto"@ != "skewb"@);
            reveal_strlit("sq1");
            assert("baby_fto"@.len() != "sq1"@.len());
            assert("baby_fto"@ != "sq1"@);
            reveal_strlit("444bf");
            assert("baby_fto"@.len() != "444bf"@.len());
            assert("baby_fto"@ != "444bf"@);
            reveal_strlit("555bf");
            assert("baby_fto"@.len() != "555bf"@.len());
            assert("baby_fto"@ != "555bf"@);
            reveal_strlit("333mbf");
            assert("baby_fto"@.len() != "333mbf"@.len());
            assert("baby_fto"@ != "333mbf"@);
            reveal_strlit("fto");
            assert("baby_fto"@.len() != "fto"@.len());
            assert("baby_fto"@ != "fto"@);
            reveal_strlit("master_tetraminx");
            assert("baby_fto"@.len() != "master_tetraminx"@.len());
            assert("baby_fto"@ != "master_tetraminx"@);
            reveal_strlit("kilominx");
            assert("baby_fto"@[0] != "kilominx"@[0]);
            assert("baby_fto"@ != "kilominx"@);
            reveal_strlit("redi_cube");
            assert("baby_fto"@.len() != "redi_cube"@.len());
            assert("baby_fto"@ != "redi_cube"@);
        },
    }
}

/// The speedsolving event of a puzzle is held on that puzzle.
pub proof fn lemma_speedsolving_event_puzzle(p: Puzzle)
    ensures
        event_puzzle(puzzle_speedsolving_event(p)) == p,
{
}

/// Every event is held on the puzzle whose speedsolving event its ID extends: `444bf` on the
/// 4x4x4 (`444`), `333mbf` on the 3x3x3 (`333`), `sq1` on the Square-1 (`sq1`), and so on.
pub proof fn lemma_event_id_extends_its_puzzle_event_id(e: Event)
    ensures
        event_id(puzzle_speedsolving_event(event_puzzle(e))).is_prefix_of(event_id(e)),
{
    match e {
        Event::Cube3x3x3Speedsolving => {
            reveal_strlit("333");
            assert("333"@ =~= "333"@.subrange(0, 3));
        },
        Event::Cube2x2x2Speedsolving => {
            reveal_strlit("222");
            assert("222"@ =~= "222"@.subrange(0, 3));
        },
        Event::Cube4x4x4Speedsolving => {
            reveal_strlit("444");
            assert("444"@ =~= "444"@.subrange(0, 3));
        },
        Event::Cube5x5x5Speedsolving => {
            reveal_strlit("555");
            assert("555"@ =~= "555"@.subrange(0, 3));
        },
        Event::Cube6x6x6Speedsolving => {
            reveal_strlit("666");
            assert("666"@ =~= "666"@.subrange(0, 3));
        },
        Event::Cube7x7x7Speedsolving => {
            reveal_strlit("777");
            assert("777"@ =~= "777"@.subrange(0, 3));
        },
        Event::Cube3x3x3Blindfolded => {
            reveal_strlit("333");
            reveal_strlit("333bf");
            assert("333"@ =~= "333bf"@.subrange(0, 3));
        },
        Event::Cube3x3x3FewestMoves => {
            reveal_strlit("333");
            reveal_strlit("333fm");
            assert("333"@ =~= "333fm"@.subrange(0, 3));
        },
        Event::Cube3x3x3OneHanded => {
            reveal_strlit("333");
            reveal_strlit("333oh");
            assert("333"@ =~= "333oh"@.subrange(0, 3));
        },
        Event::ClockSpeedsolving => {
            reveal_strlit("clock");
            assert("clock"@ =~= "clock"@.subrange(0, 5));
        },
        Event::MegaminxSpeedsolving => {
            reveal_strlit("minx");
            assert("minx"@ =~= "minx"@.subrange(0, 4));
        },
        Event::PyraminxSpeedsolving => {
            reveal_strlit("pyram");
            assert("pyram"@ =~= "pyram"@.subrange(0, 5));
        },
        Event::SkewbSpeedsolving => {
            reveal_strlit("skewb");
            assert("skewb"@ =~= "skewb"@.subrange(0, 5));
        },
        Event::Square1Speedsolving => {
            reveal_strlit("sq1");
            assert("sq1"@ =~= "sq1"@.subrange(0, 3));
        },
        Event::Cube4x4x4Blindfolded => {
            reveal_strlit("444");
            reveal_strlit("444bf");
            assert("444"@ =~= "444bf"@.subrange(0, 3));
        },
        Event::Cube5x5x5Blindfolded => {
            reveal_strlit("555");
            reveal_strlit("555bf");
            assert("555"@ =~= "555bf"@.subrange(0, 3));
        },
        Event::Cube3x3x3MultiBlind => {
            reveal_strlit("333");
            reveal_strlit("333mbf");
            assert("333"@ =~= "333mbf"@.subrange(0, 3));
        },
        Event::FTOSpeedsolving => {
            reveal_strlit("fto");
            assert("fto"@ =~= "fto"@.subrange(0, 3));
        },
        Event::MasterTetraminxSpeedsolving => {
            reveal_strlit("master_tetraminx");
            assert("master_tetraminx"@ =~= "master_tetraminx"@.subrange(0, 16));
        },
        Event::KilominxSpeedsolving => {
            reveal_strlit("kilominx");
            assert("kilominx"@ =~= "kilominx"@.subrange(0, 8));
        },
        Event::RediCubeSpeedsolving => {
            reveal_strlit("redi_cube");
            assert("redi_cube"@ =~= "redi_cube"@.subrange(0, 9));
        },
        Event::BabyFTOSpeedsolving => {
            reveal_strlit("baby_fto");
            assert("baby_fto"@ =~= "baby_fto"@.subrange(0, 8));
        },
    }
}

/// Whether the puzzle is one of the N x N x N cubes.
pub open spec fn is_cube_puzzle(p: Puzzle) -> bool {
    ||| p == Puzzle::Cube2x2x2
    ||| p == Puzzle::Cube3x3x3
    ||| p == Puzzle::Cube4x4x4
    ||| p == Puzzle::Cube5x5x5
    ||| p == Puzzle::Cube6x6x6
    ||| p == Puzzle::Cube7x7x7
}

/// The display name of an event held on an N x N x N cube starts with that cube's puzzle ID
/// and a space: `4x4x4 Blindfolded` is held on the `4x4x4`.
pub proof fn lemma_cube_event_names_start_with_their_puzzle_id(e: Event)
    requires
        is_cube_puzzle(event_puzzle(e)),
    ensures
        (puzzle_id(event_puzzle(e)) + " "@).is_prefix_of(event_display_name(e)),
{
    match e {
        Event::Cube3x3x3Speedsolving => {
            reveal_strlit(" ");
            reveal_strlit("3x3x3");
            reveal_strlit("3x3x3 Cube");
            assert("3x3x3"@ + " "@ =~= "3x3x3 Cube"@.subrange(0, 6));
        },
        Event::Cube2x2x2Speedsolving => {
            reveal_strlit(" ");
            reveal_strlit("2x2x2");
            reveal_strlit("2x2x2 Cube");
            assert("2x2x2"@ + " "@ =~= "2x2x2 Cube"@.subrange(0, 6));
        },
        Event::Cube4x4x4Speedsolving => {
            reveal_strlit(" ");
            reveal_strlit("4x4x4");
            reveal_strlit("4x4x4 Cube");
            assert("4x4x4"@ + " "@ =~= "4x4x4 Cube"@.subrange(0, 6));
        },
        Event::Cube5x5x5Speedsolving => {
            reveal_strlit(" ");
            reveal_strlit("5x5x5");
            reveal_strlit("5x5x5 Cube");
            assert("5x5x5"@ + " "@ =~= "5x5x5 Cube"@.subrange(0, 6));
        },
        Event::Cube6x6x6Speedsolving => {
            reveal_strlit(" ");
            reveal_strlit("6x6x6");
            reveal_strlit("6x6x6 Cube");
            assert("6x6x6"@ + " "@ =~= "6x6x6 Cube"@.subrange(0, 6));
        },
        Event::Cube7x7x7Speedsolving => {
            reveal_strlit(" ");
            reveal_strlit("7x7x7");
            reveal_strlit("7x7x7 Cube");
            assert("7x7x7"@ + " "@ =~= "7x7x7 Cube"@.subrange(0, 6));
        },
        Event::Cube3x3x3Blindfolded => {
            reveal_strlit(" ");
            reveal_strlit("3x3x3");
            reveal_strlit("3x3x3 Blindfolded");
            assert("3x3x3"@ + " "@ =~= "3x3x3 Blindfolded"@.subrange(0, 6));
        },
        Event::Cube3x3x3FewestMoves => {
            reveal_strlit(" ");
            reveal_strlit("3x3x3");
            reveal_strlit("3x3x3 Fewest Moves");
            assert("3x3x3"@ + " "@ =~= "3x3x3 Fewest Moves"@.subrange(0, 6));
        },
        Event::Cube3x3x3OneHanded => {
            reveal_strlit(" ");
            reveal_strlit("3x3x3");
            reveal_strlit("3x3x3 One-Handed");
            assert("3x3x3"@ + " "@ =~= "3x3x3 One-Handed"@.subrange(0, 6));
        },
        Event::ClockSpeedsolving => {},
        Event::MegaminxSpeedsolving => {},
        Event::PyraminxSpeedsolving => {},
        Event::SkewbSpeedsolving => {},
        Event::Square1Speedsolving => {},
        Event::Cube4x4x4Blindfolded => {
            reveal_strlit(" ");
            reveal_strlit("4x4x4");
            reveal_strlit("4x4x4 Blindfolded");
            assert("4x4x4"@ + " "@ =~= "4x4x4 Blindfolded"@.subrange(0, 6));
        },
        Event::Cube5x5x5Blindfolded => {
            reveal_strlit(" ");
            reveal_strlit("5x5x5");
            reveal_strlit("5x5x5 Blindfolded");
            assert("5x5x5"@ + " "@ =~= "5x5x5 Blindfolded"@.subrange(0, 6));
        },
        Event::Cube3x3x3MultiBlind => {
            reveal_strlit(" ");
            reveal_strlit("3x3x3");
            reveal_strlit("3x3x3 Multi-Blind");
            assert("3x3x3"@ + " "@ =~= "3x3x3 Multi-Blind"@.subrange(0, 6));
        },
        Event::FTOSpeedsolving => {},
        Event::MasterTetraminxSpeedsolving => {},
        Event::KilominxSpeedsolving => {},
        Event::RediCubeSpeedsolving => {},
        Event::BabyFTOSpeedsolving => {},
    }
}

/// An N x N x N cube's puzzle ID is `NxNxN` and its speedsolving event's ID is `NNN`, with the
/// same digit throughout.
pub proof fn lemma_cube_puzzle_and_event_ids_agree(p: Puzzle)
    requires
        is_cube_puzzle(p),
    ensures
        puzzle_id(p).len() == 5,
        puzzle_id(p)[1] == 'x' && puzzle_id(p)[3] == 'x',
        puzzle_id(p)[2] == puzzle_id(p)[0] && puzzle_id(p)[4] == puzzle_id(p)[0],
        event_id(puzzle_speedsolving_event(p)).len() == 3,
        forall|i: int| 0 <= i < 3 ==> #[trigger] event_id(puzzle_speedsolving_event(p))[i] == puzzle_id(p)[0],
{
    match p {
        Puzzle::Cube2x2x2 => {
            reveal_strlit("2x2x2");
            reveal_strlit("222");
        },
        Puzzle::Cube3x3x3 => {
            reveal_strlit("3x3x3");
            reveal_strlit("333");
        },
        Puzzle::Cube4x4x4 => {
            reveal_strlit("4x4x4");
            reveal_strlit("444");
        },
        Puzzle::Cube5x5x5 => {
            reveal_strlit("5x5x5");
            reveal_strlit("555");
        },
        Puzzle::Cube6x6x6 => {
            reveal_strlit("6x6x6");
            reveal_strlit("666");
        },
        Puzzle::Cube7x7x7 => {
            reveal_strlit("7x7x7");
            reveal_strlit("777");
        },
        _ => {},
    }
}

} // verus!
