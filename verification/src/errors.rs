//! The errors of the lifecycle, and the answer that each one becomes.

use vstd::prelude::*;
use vstd::string::*;
use crate::data::{Location, State, UnknownDifficulty};

verus! {

/// Why an operation on a map did not take place, or took place in part.
#[derive(Debug, PartialEq, Eq)]
pub enum LifecycleError {
    /// No record exists under the name.
    NotFound,
    /// The operation is not allowed from the map's current state.
    ConflictingState { current: State, attempted: State },
    /// An input was malformed; `input` is the rejected text.
    ValidationError { input: String },
    /// The record store failed; the map and its file are where they were.
    StoreError,
    /// The file step failed; the record is untouched.
    IoError,
    /// The file step was done, the record could not be committed, and the
    /// file could not be brought back: the file of map `name` now lies at
    /// `to` while its record still belongs to `from`.
    PartialFailure { name: String, from: Location, to: Location },
}

/// A lifecycle error as plain mathematical values.
pub enum ErrorModel {
    NotFound,
    ConflictingState { current: State, attempted: State },
    ValidationError { input: Seq<char> },
    StoreError,
    IoError,
    PartialFailure { name: Seq<char>, from: Location, to: Location },
}

impl View for LifecycleError {
    type V = ErrorModel;

    open spec fn view(&self) -> ErrorModel {
        match *self {
            LifecycleError::NotFound => ErrorModel::NotFound,
            LifecycleError::ConflictingState { current, attempted } => ErrorModel::ConflictingState {
                current,
                attempted,
            },
            LifecycleError::ValidationError { input } => ErrorModel::ValidationError {
                input: input@,
            },
            LifecycleError::StoreError => ErrorModel::StoreError,
            LifecycleError::IoError => ErrorModel::IoError,
            LifecycleError::PartialFailure { name, from, to } => ErrorModel::PartialFailure {
                name: name@,
                from,
                to,
            },
        }
    }
}

/// The answer sent for a failed request: a message and an HTTP status code.
#[derive(Debug, PartialEq, Eq)]
pub struct CustomError {
    pub msg: String,
    pub code: u16,
}

/// What is said of a map that already is in the state asked for.
pub open spec fn already_message(state: State) -> Seq<char> {
    match state {
        State::New => "This map is already new!"@,
        State::Declined => "This map is already declined!"@,
        State::Approved => "This map is already Approved!"@,
        State::Published => "This map is already published!"@,
    }
}

/// What is said of a transition that the current state does not allow.
pub open spec fn conflict_message(current: State, attempted: State) -> Seq<char> {
    if current == attempted {
        already_message(current)
    } else {
        "Cannot go from state "@ + current.label() + " to "@ + attempted.label() + "!"@
    }
}

impl ErrorModel {
    /// The HTTP status code of the answer.
    pub open spec fn status(self) -> u16 {
        match self {
            ErrorModel::NotFound => 404,
            ErrorModel::ConflictingState { .. } => 400,
            ErrorModel::ValidationError { .. } => 400,
            ErrorModel::StoreError => 500,
            ErrorModel::IoError => 500,
            ErrorModel::PartialFailure { .. } => 500,
        }
    }

    /// The message of the answer.
    pub open spec fn message(self) -> Seq<char> {
        match self {
            ErrorModel::NotFound => "Map not found!"@,
            ErrorModel::ConflictingState { current, attempted } => conflict_message(
                current,
                attempted,
            ),
            ErrorModel::ValidationError { .. } => "Something went wrong on client side!"@,
            ErrorModel::StoreError => "Something went wrong on server side!"@,
            ErrorModel::IoError => "Something went wrong on server side!"@,
            ErrorModel::PartialFailure { .. } => "Something went wrong on server side!"@,
        }
    }
}

/// The answer for a request that asked for something malformed.
pub fn to_bad_request() -> (r: CustomError)
    ensures
        r.code == 400,
        r.msg@ == "Something went wrong on client side!"@,
{
    CustomError { msg: String::from_str("Something went wrong on client side!"), code: 400 }
}

/// The answer for a request that was refused for the given reason.
pub fn to_custom_bad_request(msg: String) -> (r: CustomError)
    ensures
        r.code == 400,
        r.msg@ == msg@,
{
    CustomError { msg, code: 400 }
}

/// The answer for a request that failed on the server's side.
pub fn to_internal_server_error() -> (r: CustomError)
    ensures
        r.code == 500,
        r.msg@ == "Something went wrong on server side!"@,
{
    CustomError { msg: String::from_str("Something went wrong on server side!"), code: 500 }
}

/// The answer for a request that names a map without a record.
pub fn to_map_not_found_error() -> (r: CustomError)
    ensures
        r.code == 404,
        r.msg@ == "Map not found!"@,
{
    CustomError { msg: String::from_str("Map not found!"), code: 404 }
}

/// The message for a transition from `current` to `attempted` that the
/// current state does not allow.
pub fn conflict_text(current: State, attempted: State) -> (r: String)
    ensures
        r@ == conflict_message(current, attempted),
{
    if current == attempted {
        match current {
            State::New => String::from_str("This map is already new!"),
            State::Declined => String::from_str("This map is already declined!"),
            State::Approved => String::from_str("This map is already Approved!"),
            State::Published => String::from_str("This map is already published!"),
        }
    } else {
        let mut r = String::from_str("Cannot go from state ");
        r.append(current.as_str());
        r.append(" to ");
        r.append(attempted.as_str());
        r.append("!");
        r
    }
}

impl LifecycleError {
    /// The answer that this error becomes: its status code and its message.
    pub fn to_custom_status(&self) -> (r: CustomError)
        ensures
            r.code == self@.status(),
            r.msg@ == self@.message(),
    {
        match self {
            LifecycleError::NotFound => to_map_not_found_error(),
            LifecycleError::ConflictingState { current, attempted } => to_custom_bad_request(
                conflict_text(*current, *attempted),
            ),
            LifecycleError::ValidationError { .. } => to_bad_request(),
            LifecycleError::StoreError => to_internal_server_error(),
            LifecycleError::IoError => to_internal_server_error(),
            LifecycleError::PartialFailure { .. } => to_internal_server_error(),
        }
    }

    /// The error for a difficulty that could not be read.
    pub fn from_unknown_difficulty(e: UnknownDifficulty) -> (r: LifecycleError)
        ensures
            r@ == (ErrorModel::ValidationError { input: e.input@ }),
    {
        LifecycleError::ValidationError { input: e.input }
    }
}

} // verus!
