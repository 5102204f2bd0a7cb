//! Moderation lifecycle of user-submitted game maps.
//!
//! A map is tracked by a record (name, difficulty, state, two timestamps) and
//! by one file on disk. The record decides where the file lives: in the shared
//! staging directory, or, once published, in the directory of its difficulty.
//! This library holds the rules: which transitions are allowed, which file
//! step belongs to each, in which order the file step and the commit of the
//! record go, and what the vote lists derived from the records look like.
//! It performs no input or output itself.

pub mod data;
pub mod errors;
pub mod text;
pub mod lifecycle;
pub mod consistency;
pub mod protocol;
pub mod ordering;
pub mod votes;
pub mod common;
pub mod options;
pub mod config;
pub mod apikey;
pub mod txn;
pub mod query;
