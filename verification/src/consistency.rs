//! Records and files together: a model of the store and of the two kinds of
//! directory, and the proofs that the lifecycle keeps them in agreement.
//!
//! Everything here is specification and proof. The model says of each map
//! name which record the store holds and in which directories a file of that
//! map lies, with its content. The file of the map `name` is the one called
//! `name` followed by `.map`; different maps have different files.

use vstd::prelude::*;
use crate::data::{Difficulty, Location, RecordModel, State};
use crate::errors::ErrorModel;
use crate::lifecycle::{outcome, submission, FileStep, Operation, TransitionModel};
use crate::protocol::{reverse_of, Phase, Protocol, Verdict};

verus! {

/// The store: the record held under each key.
pub type Records = Map<Seq<char>, RecordModel>;

/// The disk: the content of the file of each map in each directory where
/// one lies.
pub type Files = Map<(Location, Seq<char>), Seq<u8>>;

/// The record that the store holds under a key, if any.
pub open spec fn lookup(records: Records, key: Seq<char>) -> Option<RecordModel> {
    if records.dom().contains(key) {
        Some(records[key])
    } else {
        None
    }
}

/// Store and disk agree: every record is stored under its own name, and a
/// map's file lies in a directory exactly if the map has a record and that
/// directory is the record's home. So each map with a record has its file in
/// exactly one place, the one that its state and difficulty name, and no
/// file is without a record.
pub open spec fn consistent(records: Records, files: Files) -> bool {
    &&& forall|key: Seq<char>| #[trigger]
        records.dom().contains(key) ==> records[key].name == key
    &&& forall|place: Location, name: Seq<char>| #[trigger]
        files.dom().contains((place, name)) <==> (records.dom().contains(name)
            && records[name].home() == place)
}

/// The disk after a file step on the file of map `name`; `content` is what a
/// write puts there.
pub open spec fn perform(files: Files, name: Seq<char>, step: FileStep, content: Seq<u8>) -> Files {
    match step {
        FileStep::Keep => files,
        FileStep::Move { from, to } => files.remove((from, name)).insert(
            (to, name),
            files[(from, name)],
        ),
        FileStep::Write { to } => files.insert((to, name), content),
    }
}

/// Every allowed transition keeps store and disk in agreement: where they
/// agree before, they agree again once the file step is performed and the
/// new record is committed.
pub proof fn transition_keeps_agreement(
    records: Records,
    files: Files,
    key: Seq<char>,
    op: Operation,
    now: u64,
    next: TransitionModel,
    content: Seq<u8>,
)
    requires
        consistent(records, files),
        outcome(op, lookup(records, key), now) == Ok::<TransitionModel, ErrorModel>(next),
    ensures
        next.record.name == key,
        !(next.file is Write),
        consistent(records.insert(key, next.record), perform(files, key, next.file, content)),
{
    let after_records = records.insert(key, next.record);
    let after_files = perform(files, key, next.file, content);
    assert forall|place: Location, name: Seq<char>| #[trigger]
        after_files.dom().contains((place, name)) <==> (after_records.dom().contains(name)
            && after_records[name].home() == place) by {
        assert(files.dom().contains((place, name)) <==> (records.dom().contains(name)
            && records[name].home() == place));
    }
}

/// Taking a move back leaves the disk as it was before the move.
pub proof fn restore_undoes_move(
    files: Files,
    name: Seq<char>,
    from: Location,
    to: Location,
    content: Seq<u8>,
)
    requires
        from != to,
        files.dom().contains((from, name)),
        !files.dom().contains((to, name)),
    ensures
        perform(
            perform(files, name, FileStep::Move { from, to }, content),
            name,
            reverse_of(FileStep::Move { from, to }),
            content,
        ) == files,
{
}

/// The store as a run of a transition's effects has left it: with the new
/// record exactly if the run committed it.
pub open spec fn records_after(
    run: Protocol,
    records: Records,
    key: Seq<char>,
    next: RecordModel,
) -> Records {
    if run.committed {
        records.insert(key, next)
    } else {
        records
    }
}

/// The disk as a run of a transition's effects has left it: with the file
/// step performed exactly if the run did it and did not take it back (a move
/// taken back leaves the disk as it was: `restore_undoes_move`).
pub open spec fn files_after(run: Protocol, files: Files, key: Seq<char>, content: Seq<u8>) -> Files {
    if run.file_done {
        perform(files, key, run.file, content)
    } else {
        files
    }
}

/// Where store and disk agree before a transition, they agree after every
/// run of its effects that ends without divergence, whether the transition
/// took place or failed; and after a run that ends as diverged they do not.
/// So a mismatch between a record and its file is always reported.
pub proof fn finished_run_tells_agreement(
    records: Records,
    files: Files,
    key: Seq<char>,
    op: Operation,
    now: u64,
    next: TransitionModel,
    run: Protocol,
    content: Seq<u8>,
)
    requires
        consistent(records, files),
        outcome(op, lookup(records, key), now) == Ok::<TransitionModel, ErrorModel>(next),
        run.well_formed(),
        run.file == next.file,
        run.phase is Finished,
    ensures
        consistent(
            records_after(run, records, key, next.record),
            files_after(run, files, key, content),
        ) <==> run.phase != Phase::Finished(Verdict::Diverged),
{
    transition_keeps_agreement(records, files, key, op, now, next, content);
    if run.phase == Phase::Finished(Verdict::Diverged) {
        // the file has left the home of the record that was not committed
        assert(!files_after(run, files, key, content).dom().contains((records[key].home(), key)));
    }
}

/// A rejected operation changes nothing, so it trivially keeps the
/// agreement; and it is rejected exactly where no record exists or the
/// current state does not allow it.
pub proof fn rejection_is_exact(op: Operation, existing: Option<RecordModel>, now: u64)
    ensures
        outcome(op, existing, now) is Err <==> (existing is None || !op.allowed_from(
            existing->0.state,
        )),
        existing is None ==> outcome(op, existing, now) == Err::<TransitionModel, ErrorModel>(
            ErrorModel::NotFound,
        ),
        existing is Some && !op.allowed_from(existing->0.state) ==> outcome(op, existing, now)
            == Err::<TransitionModel, ErrorModel>(
            ErrorModel::ConflictingState {
                current: existing->0.state,
                attempted: op.target(existing->0.state),
            },
        ),
{
}

/// The transition table, state by state: from where each operation is
/// allowed. Reclassification is allowed everywhere.
pub proof fn transition_table(difficulty: Difficulty)
    ensures
        Operation::Approve.allowed_from(State::New),
        Operation::Approve.allowed_from(State::Declined),
        !Operation::Approve.allowed_from(State::Approved),
        !Operation::Approve.allowed_from(State::Published),
        Operation::Decline.allowed_from(State::New),
        !Operation::Decline.allowed_from(State::Declined),
        Operation::Decline.allowed_from(State::Approved),
        !Operation::Decline.allowed_from(State::Published),
        !Operation::Publish.allowed_from(State::New),
        !Operation::Publish.allowed_from(State::Declined),
        Operation::Publish.allowed_from(State::Approved),
        !Operation::Publish.allowed_from(State::Published),
        !Operation::Recall.allowed_from(State::New),
        !Operation::Recall.allowed_from(State::Declined),
        !Operation::Recall.allowed_from(State::Approved),
        Operation::Recall.allowed_from(State::Published),
        forall|s: State| #[trigger] Operation::Reclassify(difficulty).allowed_from(s),
{
}

/// A submission keeps store and disk in agreement unless the map is
/// published: the content is written into staging, which is the home of a
/// new record and of every record that is not published.
pub proof fn submission_keeps_agreement(
    records: Records,
    files: Files,
    key: Seq<char>,
    difficulty: Difficulty,
    now: u64,
    content: Seq<u8>,
)
    requires
        consistent(records, files),
        lookup(records, key) is Some ==> lookup(records, key)->0.state != State::Published,
    ensures
        submission(lookup(records, key), key, difficulty, now).name == key,
        consistent(
            records.insert(key, submission(lookup(records, key), key, difficulty, now)),
            perform(files, key, FileStep::Write { to: Location::Staging }, content),
        ),
{
    let record = submission(lookup(records, key), key, difficulty, now);
    let after_records = records.insert(key, record);
    let after_files = perform(files, key, FileStep::Write { to: Location::Staging }, content);
    assert forall|place: Location, other: Seq<char>| #[trigger]
        after_files.dom().contains((place, other)) <==> (after_records.dom().contains(other)
            && after_records[other].home() == place) by {
        assert(files.dom().contains((place, other)) <==> (records.dom().contains(other)
            && records[other].home() == place));
    }
}

/// Submitting under a name that has a record changes the record's
/// difficulty and `last_changed` and nothing else: name, state and
/// `created_at` stay.
pub proof fn resubmission_keeps_identity(
    existing: RecordModel,
    key: Seq<char>,
    difficulty: Difficulty,
    now: u64,
)
    ensures
        submission(Some(existing), key, difficulty, now) == (RecordModel {
            difficulty,
            last_changed: now,
            ..existing
        }),
{
}

/// Publishing and then recalling a map leaves it in state `New` with its
/// file back in staging and nowhere else, holding the bytes that it held
/// before it was published.
pub proof fn publish_then_recall_restores_file(
    records: Records,
    files: Files,
    key: Seq<char>,
    published_at: u64,
    recalled_at: u64,
    published: TransitionModel,
)
    requires
        consistent(records, files),
        outcome(Operation::Publish, lookup(records, key), published_at) == Ok::<
            TransitionModel,
            ErrorModel,
        >(published),
    ensures
        outcome(Operation::Recall, Some(published.record), recalled_at) is Ok,
        ({
            let recalled = outcome(Operation::Recall, Some(published.record), recalled_at)->Ok_0;
            let between = perform(files, key, published.file, Seq::<u8>::empty());
            let after = perform(between, key, recalled.file, Seq::<u8>::empty());
            &&& recalled.record.state == State::New
            &&& recalled.record.name == key
            &&& recalled.record.difficulty == records[key].difficulty
            &&& recalled.record.created_at == records[key].created_at
            &&& files.dom().contains((Location::Staging, key))
            &&& after.dom().contains((Location::Staging, key))
            &&& after[(Location::Staging, key)] == files[(Location::Staging, key)]
            &&& forall|d: Difficulty| !after.dom().contains((Location::Published(d), key))
        }),
{
    assert forall|d: Difficulty| !files.dom().contains((Location::Published(d), key)) by {
        assert(files.dom().contains((Location::Published(d), key)) <==> (records.dom().contains(
            key,
        ) && records[key].home() == Location::Published(d)));
    }
}

/// An operation that has been carried out cannot be carried out again: after
/// a successful approve, decline, publish or recall, the same operation on
/// the resulting record is a conflict, whose two states are the same. So of
/// two requests to publish one map, taken one after the other, exactly the
/// first succeeds, and no file is moved twice.
pub proof fn repeated_operation_conflicts(
    op: Operation,
    existing: RecordModel,
    first_at: u64,
    second_at: u64,
)
    requires
        !(op is Reclassify),
        outcome(op, Some(existing), first_at) is Ok,
    ensures
        outcome(op, Some(outcome(op, Some(existing), first_at)->Ok_0.record), second_at) == Err::<
            TransitionModel,
            ErrorModel,
        >(
            ErrorModel::ConflictingState {
                current: op.target(existing.state),
                attempted: op.target(existing.state),
            },
        ),
{
}

/// A request that was served to its end.
pub enum Request {
    /// A transition of the map stored under `key`.
    Change { key: Seq<char>, op: Operation },
    /// A submission of `content` under `key`.
    Submit { key: Seq<char>, difficulty: Difficulty, content: Seq<u8> },
}

/// Store and disk together.
pub struct World {
    pub records: Records,
    pub files: Files,
}

/// The world before the first request: no record, no file.
pub open spec fn empty_world() -> World {
    World { records: Map::empty(), files: Map::empty() }
}

/// The world after a request at time `now` was served in `world`: an
/// allowed transition and a submission take place, file step and commit
/// both; a rejected transition changes nothing.
pub open spec fn served(world: World, request: Request, now: u64) -> World {
    match request {
        Request::Change { key, op } => match outcome(op, lookup(world.records, key), now) {
            Ok(next) => World {
                records: world.records.insert(key, next.record),
                files: perform(world.files, key, next.file, Seq::empty()),
            },
            Err(_) => world,
        },
        Request::Submit { key, difficulty, content } => World {
            records: world.records.insert(
                key,
                submission(lookup(world.records, key), key, difficulty, now),
            ),
            files: perform(world.files, key, FileStep::Write { to: Location::Staging }, content),
        },
    }
}

/// Whether a request submits under the key of a published map: the one
/// request that puts a file where its record does not point.
pub open spec fn submits_over_published(world: World, request: Request) -> bool {
    match request {
        Request::Change { .. } => false,
        Request::Submit { key, .. } => lookup(world.records, key) is Some && lookup(
            world.records,
            key,
        )->0.state == State::Published,
    }
}

/// The world after a list of requests, each with its time, served one after
/// the other from the empty world.
pub open spec fn history(requests: Seq<(Request, u64)>) -> World
    decreases requests.len(),
{
    if requests.len() == 0 {
        empty_world()
    } else {
        served(history(requests.drop_last()), requests.last().0, requests.last().1)
    }
}

/// Whether none of the requests submitted under the key of a map that was
/// published at that moment.
pub open spec fn spares_published(requests: Seq<(Request, u64)>) -> bool {
    forall|i: int|
        0 <= i < requests.len() ==> !submits_over_published(
            history(#[trigger] requests.take(i)),
            requests[i].0,
        )
}

/// At all times between requests, store and disk agree: every map with a
/// record has its file in exactly one place, the home of its record, and no
/// file is without a record. This holds of every history in which no
/// submission went under the key of a published map.
pub proof fn agreement_at_all_times(requests: Seq<(Request, u64)>)
    requires
        spares_published(requests),
    ensures
        consistent(history(requests).records, history(requests).files),
    decreases requests.len(),
{
    if requests.len() > 0 {
        let earlier = requests.drop_last();
        assert forall|i: int| 0 <= i < earlier.len() implies !submits_over_published(
            history(#[trigger] earlier.take(i)),
            earlier[i].0,
        ) by {
            assert(earlier.take(i) =~= requests.take(i));
        }
        agreement_at_all_times(earlier);
        let world = history(earlier);
        let now = requests.last().1;
        assert(!submits_over_published(
            history(requests.take(requests.len() - 1)),
            requests[requests.len() - 1].0,
        ));
        match requests.last().0 {
            Request::Change { key, op } => {
                if let Ok(next) = outcome(op, lookup(world.records, key), now) {
                    transition_keeps_agreement(
                        world.records,
                        world.files,
                        key,
                        op,
                        now,
                        next,
                        Seq::empty(),
                    );
                }
            },
            Request::Submit { key, difficulty, content } => {
                submission_keeps_agreement(
                    world.records,
                    world.files,
                    key,
                    difficulty,
                    now,
                    content,
                );
            },
        }
    }
}

} // verus!
