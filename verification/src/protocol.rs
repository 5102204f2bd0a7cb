//! The order in which a transition's effects take place.
//!
//! A transition has up to two effects outside this library: a step on the
//! map's file and the commit of the new record. The file step goes first.
//! Only when it has succeeded is the record committed. When the commit fails
//! after a move, the move is reversed; when that fails too, or when the file
//! step was a write, which nothing can take back, the run ends as diverged.
//! After a commit the vote lists are refreshed; a failure there is a warning.
//!
//! The caller performs each action and reports whether it succeeded; the
//! protocol says what comes next. It keeps account of the two effects, so
//! that every verdict can be held against what was done.

use vstd::prelude::*;
use crate::errors::{ErrorModel, LifecycleError};
use crate::lifecycle::{FileStep, Transition};

verus! {

/// How a run ended.
#[derive(Clone, Copy, Debug, PartialEq, Eq, Structural)]
pub enum Verdict {
    /// File step done, record committed, vote lists refreshed.
    Done,
    /// File step done and record committed; the vote lists could not be
    /// refreshed and lag behind.
    DoneStale,
    /// The file step failed; nothing has changed.
    FileFailed,
    /// The commit failed; the file is where it was.
    StoreFailed,
    /// The file step is done and stays, the record is not committed.
    Diverged,
}

/// What the caller is to do next.
#[derive(Clone, Copy, Debug, PartialEq, Eq, Structural)]
pub enum Action {
    /// Perform this step on the map's file.
    Perform(FileStep),
    /// Commit the new record in one transaction.
    Commit,
    /// Take the move back: perform this step, the reverse of the first.
    Restore(FileStep),
    /// Regenerate and write the vote lists.
    Refresh,
    /// Nothing more: the run has ended with this verdict.
    Finish(Verdict),
}

/// Where a run stands.
#[derive(Clone, Copy, Debug, PartialEq, Eq, Structural)]
pub enum Phase {
    Relocating,
    Committing,
    Restoring,
    Refreshing,
    Finished(Verdict),
}

/// One run of a transition's effects.
#[derive(Clone, Copy, Debug, PartialEq, Eq, Structural)]
pub struct Protocol {
    /// The transition's file step.
    pub file: FileStep,
    pub phase: Phase,
    /// Whether the file step has been performed and not taken back.
    pub file_done: bool,
    /// Whether the new record has been committed.
    pub committed: bool,
}

/// The step that takes a move back; a step that is no move has none.
pub open spec fn reverse_of(step: FileStep) -> FileStep {
    match step {
        FileStep::Move { from, to } => FileStep::Move { from: to, to: from },
        _ => FileStep::Keep,
    }
}

impl Protocol {
    /// The run before anything is done.
    pub open spec fn initial(file: FileStep) -> Protocol {
        Protocol {
            file,
            phase: if file is Keep {
                Phase::Committing
            } else {
                Phase::Relocating
            },
            file_done: false,
            committed: false,
        }
    }

    /// The action that the current phase asks for.
    pub open spec fn pending(self) -> Action {
        match self.phase {
            Phase::Relocating => Action::Perform(self.file),
            Phase::Committing => Action::Commit,
            Phase::Restoring => Action::Restore(reverse_of(self.file)),
            Phase::Refreshing => Action::Refresh,
            Phase::Finished(v) => Action::Finish(v),
        }
    }

    /// The run after the pending action has succeeded or failed.
    pub open spec fn after(self, succeeded: bool) -> Protocol {
        match self.phase {
            Phase::Relocating => if succeeded {
                Protocol { phase: Phase::Committing, file_done: true, ..self }
            } else {
                Protocol { phase: Phase::Finished(Verdict::FileFailed), ..self }
            },
            Phase::Committing => if succeeded {
                Protocol { phase: Phase::Refreshing, committed: true, ..self }
            } else if !self.file_done {
                Protocol { phase: Phase::Finished(Verdict::StoreFailed), ..self }
            } else if self.file is Move {
                Protocol { phase: Phase::Restoring, ..self }
            } else {
                Protocol { phase: Phase::Finished(Verdict::Diverged), ..self }
            },
            Phase::Restoring => if succeeded {
                Protocol { phase: Phase::Finished(Verdict::StoreFailed), file_done: false, ..self }
            } else {
                Protocol { phase: Phase::Finished(Verdict::Diverged), ..self }
            },
            Phase::Refreshing => if succeeded {
                Protocol { phase: Phase::Finished(Verdict::Done), ..self }
            } else {
                Protocol { phase: Phase::Finished(Verdict::DoneStale), ..self }
            },
            Phase::Finished(_) => self,
        }
    }

    /// What holds of every run that was begun and advanced by this
    /// library: the account of the two effects fits the phase.
    pub open spec fn well_formed(self) -> bool {
        match self.phase {
            Phase::Relocating => !self.file_done && !self.committed && !(self.file is Keep),
            Phase::Committing => !self.committed && (self.file_done <==> !(self.file is Keep)),
            Phase::Restoring => !self.committed && self.file_done && self.file is Move,
            Phase::Refreshing => self.committed && (self.file_done <==> !(self.file is Keep)),
            Phase::Finished(Verdict::Done) | Phase::Finished(Verdict::DoneStale) => self.committed
                && (self.file_done <==> !(self.file is Keep)),
            Phase::Finished(Verdict::FileFailed) => !self.committed && !self.file_done && !(
            self.file is Keep),
            Phase::Finished(Verdict::StoreFailed) => !self.committed && !self.file_done,
            Phase::Finished(Verdict::Diverged) => !self.committed && self.file_done && !(
            self.file is Keep),
        }
    }

    /// Record and file tell the same story: both effects have taken place,
    /// or neither has.
    pub open spec fn in_agreement(self) -> bool {
        if self.committed {
            self.file_done || self.file is Keep
        } else {
            !self.file_done
        }
    }

    /// Begins the run of a transition with the given file step.
    pub fn begin(file: FileStep) -> (r: Protocol)
        ensures
            r == Protocol::initial(file),
            r.well_formed(),
    {
        let phase = match file {
            FileStep::Keep => Phase::Committing,
            _ => Phase::Relocating,
        };
        Protocol { file, phase, file_done: false, committed: false }
    }

    /// The action to perform now.
    pub fn action(&self) -> (r: Action)
        ensures
            r == self.pending(),
    {
        match self.phase {
            Phase::Relocating => Action::Perform(self.file),
            Phase::Committing => Action::Commit,
            Phase::Restoring => {
                let back = match self.file {
                    FileStep::Move { from, to } => FileStep::Move { from: to, to: from },
                    _ => FileStep::Keep,
                };
                Action::Restore(back)
            },
            Phase::Refreshing => Action::Refresh,
            Phase::Finished(v) => Action::Finish(v),
        }
    }

    /// Takes the report on the pending action and moves on.
    pub fn advance(self, succeeded: bool) -> (r: Protocol)
        ensures
            r == self.after(succeeded),
            self.well_formed() ==> r.well_formed(),
    {
        let is_move = match self.file {
            FileStep::Move { .. } => true,
            _ => false,
        };
        match self.phase {
            Phase::Relocating => if succeeded {
                Protocol {
                    file: self.file,
                    phase: Phase::Committing,
                    file_done: true,
                    committed: self.committed,
                }
            } else {
                Protocol {
                    file: self.file,
                    phase: Phase::Finished(Verdict::FileFailed),
                    file_done: self.file_done,
                    committed: self.committed,
                }
            },
            Phase::Committing => {
                let phase = if succeeded {
                    Phase::Refreshing
                } else if !self.file_done {
                    Phase::Finished(Verdict::StoreFailed)
                } else if is_move {
                    Phase::Restoring
                } else {
                    Phase::Finished(Verdict::Diverged)
                };
                Protocol {
                    file: self.file,
                    phase,
                    file_done: self.file_done,
                    committed: succeeded || self.committed,
                }
            },
            Phase::Restoring => if succeeded {
                Protocol {
                    file: self.file,
                    phase: Phase::Finished(Verdict::StoreFailed),
                    file_done: false,
                    committed: self.committed,
                }
            } else {
                Protocol {
                    file: self.file,
                    phase: Phase::Finished(Verdict::Diverged),
                    file_done: self.file_done,
                    committed: self.committed,
                }
            },
            Phase::Refreshing => {
                let verdict = if succeeded {
                    Verdict::Done
                } else {
                    Verdict::DoneStale
                };
                Protocol {
                    file: self.file,
                    phase: Phase::Finished(verdict),
                    file_done: self.file_done,
                    committed: self.committed,
                }
            },
            Phase::Finished(_) => self,
        }
    }

    /// Whether the run has ended.
    pub fn is_finished(&self) -> (r: bool)
        ensures
            r == (self.phase is Finished),
    {
        match self.phase {
            Phase::Finished(_) => true,
            _ => false,
        }
    }
}

/// Whether the operation took place, and whether the vote lists followed.
#[derive(Clone, Copy, Debug, PartialEq, Eq, Structural)]
pub struct Completion {
    /// False where the lists could not be written: a warning, for the
    /// caller to retry the regeneration.
    pub lists_refreshed: bool,
}

/// The result that a verdict comes to for the transition of the map
/// `name` with the file step `file`.
pub open spec fn result_of(verdict: Verdict, name: Seq<char>, file: FileStep) -> Result<
    Completion,
    ErrorModel,
> {
    match verdict {
        Verdict::Done => Ok(Completion { lists_refreshed: true }),
        Verdict::DoneStale => Ok(Completion { lists_refreshed: false }),
        Verdict::FileFailed => Err(ErrorModel::IoError),
        Verdict::StoreFailed => Err(ErrorModel::StoreError),
        Verdict::Diverged => Err(
            match file {
                FileStep::Move { from, to } => ErrorModel::PartialFailure { name, from, to },
                FileStep::Write { to } => ErrorModel::PartialFailure { name, from: to, to },
                FileStep::Keep => ErrorModel::StoreError,
            },
        ),
    }
}

/// The view of a run's result.
pub open spec fn concluded(r: Result<Completion, LifecycleError>) -> Result<
    Completion,
    ErrorModel,
> {
    match r {
        Ok(c) => Ok(c),
        Err(e) => Err(e@),
    }
}

/// Turns the verdict of a transition's run into the result for the caller.
/// A diverged run becomes a partial failure that names the map and the two
/// directories of the file step (twice the same one for a write).
pub fn conclude(verdict: Verdict, transition: &Transition) -> (r: Result<
    Completion,
    LifecycleError,
>)
    ensures
        concluded(r) == result_of(verdict, transition@.record.name, transition@.file),
{
    match verdict {
        Verdict::Done => Ok(Completion { lists_refreshed: true }),
        Verdict::DoneStale => Ok(Completion { lists_refreshed: false }),
        Verdict::FileFailed => Err(LifecycleError::IoError),
        Verdict::StoreFailed => Err(LifecycleError::StoreError),
        Verdict::Diverged => match transition.file {
            FileStep::Move { from, to } => Err(
                LifecycleError::PartialFailure { name: transition.record.name.clone(), from, to },
            ),
            FileStep::Write { to } => Err(
                LifecycleError::PartialFailure {
                    name: transition.record.name.clone(),
                    from: to,
                    to,
                },
            ),
            FileStep::Keep => Err(LifecycleError::StoreError),
        },
    }
}

/// Every run ends after three reports at the latest, whatever they say.
pub proof fn run_ends_within_three_reports(file: FileStep, first: bool, second: bool, third: bool)
    ensures
        Protocol::initial(file).after(first).after(second).after(third).phase is Finished,
{
}

/// The record is never committed before the file step has succeeded, and a
/// run that ends without divergence leaves record and file in agreement:
/// both effects took place, or neither did. A run ends as diverged exactly
/// where they do not agree, so no mismatch goes unreported.
pub proof fn verdict_tells_agreement(run: Protocol)
    requires
        run.well_formed(),
    ensures
        run.committed ==> (run.file_done || run.file is Keep),
        run.phase is Finished ==> (run.in_agreement() <==> run.phase != Phase::Finished(
            Verdict::Diverged,
        )),
        run.phase is Finished ==> (run.committed <==> (run.phase == Phase::Finished(Verdict::Done)
            || run.phase == Phase::Finished(Verdict::DoneStale))),
{
}

/// A failed file step ends the run at once with nothing changed, and the
/// commit is never asked for after it.
pub proof fn failed_file_step_changes_nothing(file: FileStep)
    requires
        !(file is Keep),
    ensures
        Protocol::initial(file).pending() == Action::Perform(file),
        Protocol::initial(file).after(false).phase == Phase::Finished(Verdict::FileFailed),
        !Protocol::initial(file).after(false).committed,
        !Protocol::initial(file).after(false).file_done,
{
}

} // verus!
