//! The data model: difficulty, state, the record of one map, and the place
//! where a map's file lives.

use vstd::prelude::*;
use vstd::string::*;

verus! {

/// How hard a map is. It also names the directory of a published map.
#[derive(Clone, Copy, Debug, PartialEq, Eq, Structural)]
pub enum Difficulty {
    Easy,
    Main,
    Hard,
    Insane,
}

/// Where a map stands in moderation.
#[derive(Clone, Copy, Debug, PartialEq, Eq, Structural)]
pub enum State {
    New,
    Declined,
    Approved,
    Published,
}

/// The directory that holds a map's file.
#[derive(Clone, Copy, Debug, PartialEq, Eq, Structural)]
pub enum Location {
    /// The one directory shared by all maps that are not published.
    Staging,
    /// The directory of one difficulty under the published root.
    Published(Difficulty),
}

/// Why a text is no difficulty.
#[derive(Debug, PartialEq, Eq)]
pub struct UnknownDifficulty {
    /// The text that was rejected.
    pub input: String,
}

impl Difficulty {
    /// The name shown to people: `Easy`, `Main`, `Hard`, `Insane`.
    pub open spec fn label(self) -> Seq<char> {
        match self {
            Difficulty::Easy => "Easy"@,
            Difficulty::Main => "Main"@,
            Difficulty::Hard => "Hard"@,
            Difficulty::Insane => "Insane"@,
        }
    }

    /// The lower-case name, used as a directory name and as the written form
    /// that `from_str` reads.
    pub open spec fn segment(self) -> Seq<char> {
        match self {
            Difficulty::Easy => "easy"@,
            Difficulty::Main => "main"@,
            Difficulty::Hard => "hard"@,
            Difficulty::Insane => "insane"@,
        }
    }

    /// The difficulty that a text names, if any.
    pub open spec fn parse(text: Seq<char>) -> Option<Difficulty> {
        if text == "easy"@ {
            Some(Difficulty::Easy)
        } else if text == "main"@ {
            Some(Difficulty::Main)
        } else if text == "hard"@ {
            Some(Difficulty::Hard)
        } else if text == "insane"@ {
            Some(Difficulty::Insane)
        } else {
            None
        }
    }

    pub fn as_str(self) -> (r: &'static str)
        ensures
            r@ == self.label(),
    {
        match self {
            Difficulty::Easy => "Easy",
            Difficulty::Main => "Main",
            Difficulty::Hard => "Hard",
            Difficulty::Insane => "Insane",
        }
    }

    /// The name of this difficulty's directory under the published root.
    pub fn path_segment(self) -> (r: &'static str)
        ensures
            r@ == self.segment(),
    {
        match self {
            Difficulty::Easy => "easy",
            Difficulty::Main => "main",
            Difficulty::Hard => "hard",
            Difficulty::Insane => "insane",
        }
    }

    /// Reads a difficulty from its lower-case name. Any other text is
    /// rejected, and the error carries it.
    pub fn from_str(text: &str) -> (r: Result<Difficulty, UnknownDifficulty>)
        ensures
            match r {
                Ok(d) => Difficulty::parse(text@) == Some(d),
                Err(e) => Difficulty::parse(text@) is None && e.input@ == text@,
            },
    {
        let owned = String::from_str(text);
        if owned == String::from_str("easy") {
            Ok(Difficulty::Easy)
        } else if owned == String::from_str("main") {
            Ok(Difficulty::Main)
        } else if owned == String::from_str("hard") {
            Ok(Difficulty::Hard)
        } else if owned == String::from_str("insane") {
            Ok(Difficulty::Insane)
        } else {
            Err(UnknownDifficulty { input: owned })
        }
    }

    /// Every difficulty is read back from its own directory name.
    pub proof fn parse_inverts_segment(d: Difficulty)
        ensures
            Difficulty::parse(d.segment()) == Some(d),
    {
        reveal_strlit("easy");
        reveal_strlit("main");
        reveal_strlit("hard");
        reveal_strlit("insane");
        assert("main"@[0] == 'm');
        assert("hard"@[0] == 'h');
        assert("insane"@[0] == 'i');
        assert("easy"@[0] == 'e');
    }
}

impl State {
    /// The state's name as it appears in messages.
    pub open spec fn label(self) -> Seq<char> {
        match self {
            State::New => "New"@,
            State::Declined => "Declined"@,
            State::Approved => "Approved"@,
            State::Published => "Published"@,
        }
    }

    pub fn as_str(self) -> (r: &'static str)
        ensures
            r@ == self.label(),
    {
        match self {
            State::New => "New",
            State::Declined => "Declined",
            State::Approved => "Approved",
            State::Published => "Published",
        }
    }
}

/// The place that a map of the given state and difficulty must have: staging
/// unless it is published.
pub open spec fn home(state: State, difficulty: Difficulty) -> Location {
    if state == State::Published {
        Location::Published(difficulty)
    } else {
        Location::Staging
    }
}

/// The record of one map.
#[derive(Debug, PartialEq, Eq)]
pub struct MapRecord {
    /// Lower-case and unique: the key by which a map is found.
    pub name: String,
    pub difficulty: Difficulty,
    pub state: State,
    /// Seconds since the epoch at the first submission; never changed.
    pub created_at: u64,
    /// Seconds since the epoch at the last transition.
    pub last_changed: u64,
}

/// What a record says, as plain mathematical values.
pub struct RecordModel {
    pub name: Seq<char>,
    pub difficulty: Difficulty,
    pub state: State,
    pub created_at: u64,
    pub last_changed: u64,
}

impl RecordModel {
    /// The place where this record's file must be.
    pub open spec fn home(self) -> Location {
        home(self.state, self.difficulty)
    }
}

impl View for MapRecord {
    type V = RecordModel;

    open spec fn view(&self) -> RecordModel {
        RecordModel {
            name: self.name@,
            difficulty: self.difficulty,
            state: self.state,
            created_at: self.created_at,
            last_changed: self.last_changed,
        }
    }
}

impl Clone for MapRecord {
    fn clone(&self) -> (r: MapRecord)
        ensures
            r@ == self@,
    {
        MapRecord {
            name: self.name.clone(),
            difficulty: self.difficulty,
            state: self.state,
            created_at: self.created_at,
            last_changed: self.last_changed,
        }
    }
}

impl MapRecord {
    pub fn created_at(&self) -> (r: u64)
        ensures
            r == self.created_at,
    {
        self.created_at
    }

    /// The directory that must hold this map's file.
    pub fn location(&self) -> (r: Location)
        ensures
            r == self@.home(),
    {
        match self.state {
            State::Published => Location::Published(self.difficulty),
            _ => Location::Staging,
        }
    }
}

/// The views of a list of records, in order.
pub open spec fn models(records: Seq<MapRecord>) -> Seq<RecordModel> {
    records.map_values(|r: MapRecord| r@)
}

} // verus!
