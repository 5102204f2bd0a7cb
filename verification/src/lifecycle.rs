//! The state machine of a map: which operation is allowed from which state,
//! what it makes of the record, and which step on the map's file goes with it.
//!
//! Nothing here touches a store or a disk. Each function takes the record as
//! the store has it (or `None`) and the current time, and returns the record
//! to commit together with the file step to perform, or the error that says
//! why nothing is to be done.

use vstd::prelude::*;
use vstd::string::*;
use crate::data::{Difficulty, Location, MapRecord, RecordModel, State};
use crate::errors::{ErrorModel, LifecycleError};
use crate::text::{file_name_of, file_stem, lookup_key, lowercase_of, map_file_name, without_map_suffix};

verus! {

/// A transition of a map that already has a record.
#[derive(Clone, Copy, Debug, PartialEq, Eq, Structural)]
pub enum Operation {
    Approve,
    Decline,
    Publish,
    Recall,
    Reclassify(Difficulty),
}

/// What is to be done to a map's file.
#[derive(Clone, Copy, Debug, PartialEq, Eq, Structural)]
pub enum FileStep {
    /// The file stays where it is.
    Keep,
    /// The file goes from one directory to another.
    Move { from: Location, to: Location },
    /// The submitted content is written into a directory, over any file of
    /// the same name.
    Write { to: Location },
}

/// The outcome of an allowed operation: the record to commit, and the file
/// step that has to be done before the commit.
#[derive(Debug, PartialEq, Eq)]
pub struct Transition {
    pub record: MapRecord,
    pub file_name: String,
    pub file: FileStep,
}

/// A transition as plain mathematical values.
pub struct TransitionModel {
    pub record: RecordModel,
    pub file_name: Seq<char>,
    pub file: FileStep,
}

impl View for Transition {
    type V = TransitionModel;

    open spec fn view(&self) -> TransitionModel {
        TransitionModel { record: self.record@, file_name: self.file_name@, file: self.file }
    }
}

impl Operation {
    /// Whether the operation may start from the given state.
    pub open spec fn allowed_from(self, current: State) -> bool {
        match self {
            Operation::Approve => current == State::New || current == State::Declined,
            Operation::Decline => current == State::New || current == State::Approved,
            Operation::Publish => current == State::Approved,
            Operation::Recall => current == State::Published,
            Operation::Reclassify(_) => true,
        }
    }

    /// The state that the operation leads to.
    pub open spec fn target(self, current: State) -> State {
        match self {
            Operation::Approve => State::Approved,
            Operation::Decline => State::Declined,
            Operation::Publish => State::Published,
            Operation::Recall => State::New,
            Operation::Reclassify(_) => current,
        }
    }

    /// The difficulty that the operation leads to.
    pub open spec fn difficulty_after(self, current: Difficulty) -> Difficulty {
        match self {
            Operation::Reclassify(d) => d,
            _ => current,
        }
    }

    pub fn is_allowed_from(self, current: State) -> (r: bool)
        ensures
            r == self.allowed_from(current),
    {
        match self {
            Operation::Approve => current == State::New || current == State::Declined,
            Operation::Decline => current == State::New || current == State::Approved,
            Operation::Publish => current == State::Approved,
            Operation::Recall => current == State::Published,
            Operation::Reclassify(_) => true,
        }
    }

    pub fn target_state(self, current: State) -> (r: State)
        ensures
            r == self.target(current),
    {
        match self {
            Operation::Approve => State::Approved,
            Operation::Decline => State::Declined,
            Operation::Publish => State::Published,
            Operation::Recall => State::New,
            Operation::Reclassify(_) => current,
        }
    }
}

/// The file step that takes a file from its old home to its new one.
pub open spec fn relocation(from: Location, to: Location) -> FileStep {
    if from == to {
        FileStep::Keep
    } else {
        FileStep::Move { from, to }
    }
}

/// The record after an allowed operation at time `now`: state and difficulty
/// as the operation says, `last_changed` refreshed, the rest kept.
pub open spec fn record_after(op: Operation, r: RecordModel, now: u64) -> RecordModel {
    RecordModel {
        name: r.name,
        difficulty: op.difficulty_after(r.difficulty),
        state: op.target(r.state),
        created_at: r.created_at,
        last_changed: now,
    }
}

/// What an operation at time `now` makes of the record that the store holds
/// under a name (`None`: it holds none).
pub open spec fn outcome(op: Operation, existing: Option<RecordModel>, now: u64) -> Result<
    TransitionModel,
    ErrorModel,
> {
    match existing {
        None => Err(ErrorModel::NotFound),
        Some(r) => if op.allowed_from(r.state) {
            Ok(
                TransitionModel {
                    record: record_after(op, r, now),
                    file_name: file_name_of(r.name),
                    file: relocation(r.home(), record_after(op, r, now).home()),
                },
            )
        } else {
            Err(ErrorModel::ConflictingState { current: r.state, attempted: op.target(r.state) })
        },
    }
}

/// The record after a submission under the key `key`, given the record that
/// the store holds under it: a new record in state `New`, or the existing
/// one with the new difficulty and `last_changed`, its state and
/// `created_at` kept.
pub open spec fn submission(
    existing: Option<RecordModel>,
    key: Seq<char>,
    difficulty: Difficulty,
    now: u64,
) -> RecordModel {
    match existing {
        None => RecordModel {
            name: key,
            difficulty,
            state: State::New,
            created_at: now,
            last_changed: now,
        },
        Some(r) => RecordModel {
            name: r.name,
            difficulty,
            state: r.state,
            created_at: r.created_at,
            last_changed: now,
        },
    }
}

/// The view of a decision: of the transition, or of the error.
pub open spec fn decided(r: Result<Transition, LifecycleError>) -> Result<
    TransitionModel,
    ErrorModel,
> {
    match r {
        Ok(t) => Ok(t@),
        Err(e) => Err(e@),
    }
}

/// The view of an optional record.
pub open spec fn model_of(existing: Option<MapRecord>) -> Option<RecordModel> {
    match existing {
        None => None,
        Some(r) => Some(r@),
    }
}

fn step_between(from: Location, to: Location) -> (r: FileStep)
    ensures
        r == relocation(from, to),
{
    if from == to {
        FileStep::Keep
    } else {
        FileStep::Move { from, to }
    }
}

/// Decides one operation on the record that the store holds (`None`: there
/// is none). On success the result holds the record to commit and the file
/// step to perform first; the store is left to the caller.
pub fn transition(op: Operation, existing: Option<MapRecord>, now: u64) -> (r: Result<
    Transition,
    LifecycleError,
>)
    ensures
        decided(r) == outcome(op, model_of(existing), now),
{
    match existing {
        None => Err(LifecycleError::NotFound),
        Some(record) => {
            if op.is_allowed_from(record.state) {
                let from = record.location();
                let file_name = map_file_name(record.name.as_str());
                let next = MapRecord {
                    name: record.name,
                    difficulty: match op {
                        Operation::Reclassify(d) => d,
                        _ => record.difficulty,
                    },
                    state: op.target_state(record.state),
                    created_at: record.created_at,
                    last_changed: now,
                };
                let to = next.location();
                Ok(Transition { record: next, file_name, file: step_between(from, to) })
            } else {
                Err(
                    LifecycleError::ConflictingState {
                        current: record.state,
                        attempted: op.target_state(record.state),
                    },
                )
            }
        },
    }
}

/// Approves a map that is new or declined.
pub fn approve_map(existing: Option<MapRecord>, now: u64) -> (r: Result<Transition, LifecycleError>)
    ensures
        decided(r) == outcome(Operation::Approve, model_of(existing), now),
{
    transition(Operation::Approve, existing, now)
}

/// Declines a map that is new or approved.
pub fn decline_map(existing: Option<MapRecord>, now: u64) -> (r: Result<Transition, LifecycleError>)
    ensures
        decided(r) == outcome(Operation::Decline, model_of(existing), now),
{
    transition(Operation::Decline, existing, now)
}

/// Publishes an approved map: its file goes from staging to the directory of
/// its difficulty.
pub fn publish_map(existing: Option<MapRecord>, now: u64) -> (r: Result<Transition, LifecycleError>)
    ensures
        decided(r) == outcome(Operation::Publish, model_of(existing), now),
{
    transition(Operation::Publish, existing, now)
}

/// Recalls a published map: it is new again, and its file goes back to
/// staging.
pub fn recall_map(existing: Option<MapRecord>, now: u64) -> (r: Result<Transition, LifecycleError>)
    ensures
        decided(r) == outcome(Operation::Recall, model_of(existing), now),
{
    transition(Operation::Recall, existing, now)
}

/// What a request to change a map's difficulty to the one that `difficulty`
/// names comes to: a rejected text is a validation error, whatever the store
/// holds; a readable one is a reclassification.
pub open spec fn reclassification(
    existing: Option<RecordModel>,
    difficulty: Seq<char>,
    now: u64,
) -> Result<TransitionModel, ErrorModel> {
    match Difficulty::parse(difficulty) {
        None => Err(ErrorModel::ValidationError { input: difficulty }),
        Some(d) => outcome(Operation::Reclassify(d), existing, now),
    }
}

/// Changes a map's difficulty to the one that the text names. The file of a
/// published map moves to the directory of the new difficulty.
pub fn change_map_difficulty(existing: Option<MapRecord>, difficulty: &str, now: u64) -> (r: Result<
    Transition,
    LifecycleError,
>)
    ensures
        decided(r) == reclassification(model_of(existing), difficulty@, now),
{
    match Difficulty::from_str(difficulty) {
        Err(e) => Err(LifecycleError::from_unknown_difficulty(e)),
        Ok(d) => transition(Operation::Reclassify(d), existing, now),
    }
}

/// Records a submission under the key `key`: a record in state `New` where
/// the store holds none under the key, and else the existing record but for
/// its difficulty and `last_changed`. The submitted content belongs into
/// staging, in the file named after the record.
pub fn submit(existing: Option<MapRecord>, key: String, difficulty: Difficulty, now: u64) -> (r:
    Transition)
    ensures
        r@.record == submission(model_of(existing), key@, difficulty, now),
        r@.file_name == file_name_of(r@.record.name),
        r@.file == (FileStep::Write { to: Location::Staging }),
{
    let record = match existing {
        None => MapRecord {
            name: key,
            difficulty,
            state: State::New,
            created_at: now,
            last_changed: now,
        },
        Some(old) => MapRecord {
            name: old.name,
            difficulty,
            state: old.state,
            created_at: old.created_at,
            last_changed: now,
        },
    };
    let file_name = map_file_name(record.name.as_str());
    Transition { record, file_name, file: FileStep::Write { to: Location::Staging } }
}

/// Records a submission under `name`, whose key is the name in lower case:
/// inserts a record where the store holds none under the key, and else
/// updates the existing one, as `submit` says.
pub fn add_or_update_map(
    existing: Option<MapRecord>,
    name: &str,
    difficulty: Difficulty,
    now: u64,
) -> (r: Transition)
    ensures
        r@.record == submission(model_of(existing), lowercase_of(name@), difficulty, now),
        r@.file_name == file_name_of(r@.record.name),
        r@.file == (FileStep::Write { to: Location::Staging }),
{
    submit(existing, lookup_key(name), difficulty, now)
}

/// The stem under which a submission named `name` is filed: lower case,
/// without an ending `.map`. The store is asked for the record under the key
/// of this stem before `create_map` is called.
pub open spec fn submitted_stem(name: Seq<char>) -> Seq<char> {
    without_map_suffix(lowercase_of(name))
}

/// What a submission of `name` with the difficulty that `difficulty` names
/// comes to.
pub open spec fn creation(
    existing: Option<RecordModel>,
    name: Seq<char>,
    difficulty: Seq<char>,
    now: u64,
) -> Result<TransitionModel, ErrorModel> {
    match Difficulty::parse(difficulty) {
        None => Err(ErrorModel::ValidationError { input: difficulty }),
        Some(d) => Ok(
            TransitionModel {
                record: submission(existing, lowercase_of(submitted_stem(name)), d, now),
                file_name: file_name_of(
                    submission(existing, lowercase_of(submitted_stem(name)), d, now).name,
                ),
                file: FileStep::Write { to: Location::Staging },
            },
        ),
    }
}

/// Takes a submission: reads the difficulty, files the map under its stem,
/// and records it as `add_or_update_map` does.
pub fn create_map(existing: Option<MapRecord>, name: &str, difficulty: &str, now: u64) -> (r:
    Result<Transition, LifecycleError>)
    ensures
        decided(r) == creation(model_of(existing), name@, difficulty@, now),
{
    match Difficulty::from_str(difficulty) {
        Err(e) => Err(LifecycleError::from_unknown_difficulty(e)),
        Ok(d) => {
            let stem = file_stem(name);
            Ok(add_or_update_map(existing, stem.as_str(), d, now))
        },
    }
}

} // verus!
