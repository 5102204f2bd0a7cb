//! Finding and listing records.

use vstd::prelude::*;
use vstd::string::*;
use crate::data::{models, Difficulty, MapRecord, RecordModel, State};
use crate::text::{lookup_key, lowercase_of, same_text, text_of};

verus! {

/// What a listing asks for; `None` asks for nothing.
pub struct Filter {
    /// The key that the record's name must equal.
    pub key: Option<Seq<char>>,
    pub state: Option<State>,
    pub difficulty: Option<Difficulty>,
}

impl Filter {
    /// Whether a record has everything that the listing asks for.
    pub open spec fn admits(self, r: RecordModel) -> bool {
        &&& self.key is Some ==> r.name == self.key->0
        &&& self.state is Some ==> r.state == self.state->0
        &&& self.difficulty is Some ==> r.difficulty == self.difficulty->0
    }
}

/// What a listing by name, state and difficulty asks for: names are looked
/// up in lower case.
pub open spec fn request(
    name: Option<Seq<char>>,
    state: Option<State>,
    difficulty: Option<Difficulty>,
) -> Filter {
    Filter {
        key: match name {
            Some(n) => Some(lowercase_of(n)),
            None => None,
        },
        state,
        difficulty,
    }
}

/// The records of a list that a filter admits, in the list's order.
pub open spec fn listed(records: Seq<RecordModel>, filter: Filter) -> Seq<RecordModel> {
    records.filter(|r: RecordModel| filter.admits(r))
}

/// The first position of a list at which a record is stored under `key`, or
/// the length of the list if there is none.
pub open spec fn first_under(records: Seq<RecordModel>, key: Seq<char>) -> int
    decreases records.len(),
{
    if records.len() == 0 {
        0
    } else if records[0].name == key {
        0
    } else {
        1 + first_under(records.drop_first(), key)
    }
}

/// Where `first_under` points: at the first record under the key, before
/// which no record is stored under it.
pub proof fn first_under_is_first(records: Seq<RecordModel>, key: Seq<char>)
    ensures
        0 <= first_under(records, key) <= records.len(),
        first_under(records, key) < records.len() ==> records[first_under(records, key)].name
            == key,
        forall|j: int| 0 <= j < first_under(records, key) ==> (#[trigger] records[j]).name != key,
    decreases records.len(),
{
    if records.len() > 0 && records[0].name != key {
        let rest = records.drop_first();
        first_under_is_first(rest, key);
        assert forall|j: int| 0 <= j < first_under(records, key) implies (
        #[trigger] records[j]).name != key by {
            if j > 0 {
                assert(records[j] == rest[j - 1]);
            }
        }
    }
}

/// Finds the first record stored under `key`, with its position.
pub fn find_by_key(records: &Vec<MapRecord>, key: &str) -> (r: Option<(usize, MapRecord)>)
    ensures
        match r {
            Some((at, found)) => at == first_under(models(records@), key@) && at < records@.len()
                && found@ == records@[at as int]@,
            None => first_under(models(records@), key@) == records@.len(),
        },
{
    let ghost all = models(records@);
    let mut i: usize = 0;
    proof {
        assert(all.skip(0) =~= all);
    }
    while i < records.len()
        invariant
            i <= records.len(),
            all == models(records@),
            first_under(all, key@) == i + first_under(all.skip(i as int), key@),
        decreases records.len() - i,
    {
        if same_text(records[i].name.as_str(), key) {
            return Some((i, records[i].clone()));
        }
        proof {
            assert(all.skip(i as int).drop_first() =~= all.skip(i + 1));
        }
        i += 1;
    }
    None
}

/// Finds the record of the map `name`: the first one stored under the
/// name's key, which is the name in lower case.
pub fn find_map(records: &Vec<MapRecord>, name: &str) -> (r: Option<(usize, MapRecord)>)
    ensures
        match r {
            Some((at, found)) => at == first_under(models(records@), lowercase_of(name@)) && at
                < records@.len() && found@ == records@[at as int]@,
            None => first_under(models(records@), lowercase_of(name@)) == records@.len(),
        },
{
    let key = lookup_key(name);
    find_by_key(records, key.as_str())
}

/// Lists the records that have what is asked for: the key, the state and
/// the difficulty, each where it is given. The records keep their order.
pub fn list_matching(
    records: &Vec<MapRecord>,
    key: Option<&str>,
    state: Option<State>,
    difficulty: Option<Difficulty>,
) -> (out: Vec<MapRecord>)
    ensures
        models(out@) == listed(
            models(records@),
            Filter { key: text_of(key), state, difficulty },
        ),
{
    let ghost filter = Filter { key: text_of(key), state, difficulty };
    let ghost wanted = |r: RecordModel| filter.admits(r);
    let mut out: Vec<MapRecord> = Vec::new();
    let mut i: usize = 0;
    while i < records.len()
        invariant
            i <= records.len(),
            wanted == (|r: RecordModel| filter.admits(r)),
            filter == (Filter { key: text_of(key), state, difficulty }),
            models(out@) == models(records@).take(i as int).filter(wanted),
        decreases records.len() - i,
    {
        let ghost seen = models(records@).take(i as int);
        let record = &records[i];
        let name_fits = match key {
            Some(k) => same_text(record.name.as_str(), k),
            None => true,
        };
        let state_fits = match state {
            Some(s) => record.state == s,
            None => true,
        };
        let difficulty_fits = match difficulty {
            Some(d) => record.difficulty == d,
            None => true,
        };
        if name_fits && state_fits && difficulty_fits {
            out.push(record.clone());
        }
        proof {
            seen.lemma_filter_push(records@[i as int]@, wanted);
            assert(models(records@).take(i + 1) =~= seen.push(records@[i as int]@));
        }
        i += 1;
    }
    proof {
        assert(models(records@).take(records.len() as int) =~= models(records@));
    }
    out
}

/// Lists the records that have what is asked for: the name `name`, looked
/// up in lower case, the state and the difficulty, each where it is given.
/// The records keep their order.
pub fn list_maps(
    records: &Vec<MapRecord>,
    name: Option<&str>,
    state: Option<State>,
    difficulty: Option<Difficulty>,
) -> (out: Vec<MapRecord>)
    ensures
        models(out@) == listed(models(records@), request(text_of(name), state, difficulty)),
{
    match name {
        Some(n) => {
            let key = lookup_key(n);
            list_matching(records, Some(key.as_str()), state, difficulty)
        },
        None => list_matching(records, None, state, difficulty),
    }
}

} // verus!
