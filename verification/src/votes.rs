//! The vote lists: one text per directory, derived from the records, which a
//! game server reads to offer the maps of that directory for a vote.
//!
//! The staging list holds every map that is not published, the oldest
//! first. The list of a difficulty holds the published maps of that
//! difficulty: under a heading the six newest, the newest first, and after
//! a separator the others by name.

use vstd::prelude::*;
use vstd::string::*;
use crate::data::{models, Difficulty, Location, MapRecord, RecordModel, State};
use crate::ordering::Order;
use crate::text::texts;

verus! {

/// The mark that shows a map's state in the staging list.
pub open spec fn state_glyph(state: State) -> Seq<char> {
    match state {
        State::Approved => "☑"@,
        State::Declined => "☒"@,
        _ => "🆕"@,
    }
}

/// The difficulty in brackets, filled with blanks to the width of its
/// column.
pub open spec fn difficulty_column(difficulty: Difficulty) -> Seq<char> {
    match difficulty {
        Difficulty::Easy => "[Easy]   "@,
        Difficulty::Main => "[Main]   "@,
        Difficulty::Hard => "[Hard]   "@,
        Difficulty::Insane => "[Insane]"@,
    }
}

/// The line of a map in the staging list.
pub open spec fn test_vote_line(r: RecordModel) -> Seq<char> {
    "add_vote \""@ + state_glyph(r.state) + " "@ + difficulty_column(r.difficulty) + " "@ + r.name
        + "\" \"change_map \\\""@ + r.name + "\\\"\""@
}

/// The line of a map in the list of its difficulty.
pub open spec fn vote_line(r: RecordModel) -> Seq<char> {
    "add_vote \""@ + r.name + "\" \"change_map \\\""@ + r.difficulty.segment() + "/"@ + r.name
        + "\\\"\""@
}

/// The heading over the newest maps of a difficulty.
pub open spec fn new_maps_heading() -> Seq<char> {
    "add_vote \"─── NEW MAPS ───\" \"info\""@
}

/// The line between the newest maps and the others.
pub open spec fn separator_line() -> Seq<char> {
    "add_vote \"────────────────\" \"info\""@
}

/// How many maps stand under the heading at most.
pub const NEW_MAPS: usize = 6;

/// Lines put together, a line feed between each two.
pub open spec fn joined(lines: Seq<Seq<char>>) -> Seq<char>
    decreases lines.len(),
{
    if lines.len() == 0 {
        Seq::empty()
    } else if lines.len() == 1 {
        lines[0]
    } else {
        joined(lines.drop_last()) + seq!['\n'] + lines.last()
    }
}

/// The staging lines of a list of records, in its order.
pub open spec fn test_vote_lines(maps: Seq<RecordModel>) -> Seq<Seq<char>> {
    Seq::new(maps.len(), |i: int| test_vote_line(maps[i]))
}

/// The published lines of a list of records, in its order.
pub open spec fn vote_lines(maps: Seq<RecordModel>) -> Seq<Seq<char>> {
    Seq::new(maps.len(), |i: int| vote_line(maps[i]))
}

/// The staging list of the given records, in their order.
pub open spec fn test_votes(maps: Seq<RecordModel>) -> Seq<char> {
    joined(test_vote_lines(maps))
}

/// How many of `n` maps stand under the heading.
pub open spec fn heading_count(n: nat) -> int {
    if n < NEW_MAPS {
        n as int
    } else {
        NEW_MAPS as int
    }
}

/// The lines of a difficulty's list, made of its maps with the newest
/// first: the heading, the first six maps as they come, the separator, the
/// other maps by name.
pub open spec fn published_lines(maps: Seq<RecordModel>) -> Seq<Seq<char>> {
    seq![new_maps_heading()] + vote_lines(maps.take(heading_count(maps.len()))) + seq![
        separator_line(),
    ] + vote_lines(Order::ByName.arranged(maps.skip(heading_count(maps.len()))))
}

/// The list of a difficulty, made of its maps with the newest first.
pub open spec fn published_votes(maps: Seq<RecordModel>) -> Seq<char> {
    joined(published_lines(maps))
}

/// The records whose file belongs into the given directory, in the order of
/// the list.
pub open spec fn bucket(records: Seq<RecordModel>, place: Location) -> Seq<RecordModel> {
    records.filter(|r: RecordModel| r.home() == place)
}

/// The vote list of a directory, derived from all records: the staging list
/// with the oldest map first, or the list of a difficulty.
pub open spec fn vote_list(records: Seq<RecordModel>, place: Location) -> Seq<char> {
    match place {
        Location::Staging => test_votes(Order::OldestFirst.arranged(bucket(records, place))),
        Location::Published(_) => published_votes(
            Order::NewestFirst.arranged(bucket(records, place)),
        ),
    }
}

/// The five vote lists.
#[derive(Debug, PartialEq, Eq)]
pub struct VoteLists {
    /// The list of the staging directory.
    pub test: String,
    pub easy: String,
    pub main: String,
    pub hard: String,
    pub insane: String,
}

/// The five vote lists as texts.
pub struct Listings {
    pub test: Seq<char>,
    pub easy: Seq<char>,
    pub main: Seq<char>,
    pub hard: Seq<char>,
    pub insane: Seq<char>,
}

impl View for VoteLists {
    type V = Listings;

    open spec fn view(&self) -> Listings {
        Listings {
            test: self.test@,
            easy: self.easy@,
            main: self.main@,
            hard: self.hard@,
            insane: self.insane@,
        }
    }
}

/// The vote lists that belong to a set of records.
pub open spec fn listings(records: Seq<RecordModel>) -> Listings {
    Listings {
        test: vote_list(records, Location::Staging),
        easy: vote_list(records, Location::Published(Difficulty::Easy)),
        main: vote_list(records, Location::Published(Difficulty::Main)),
        hard: vote_list(records, Location::Published(Difficulty::Hard)),
        insane: vote_list(records, Location::Published(Difficulty::Insane)),
    }
}

impl Listings {
    /// The list of a directory.
    pub open spec fn at(self, place: Location) -> Seq<char> {
        match place {
            Location::Staging => self.test,
            Location::Published(Difficulty::Easy) => self.easy,
            Location::Published(Difficulty::Main) => self.main,
            Location::Published(Difficulty::Hard) => self.hard,
            Location::Published(Difficulty::Insane) => self.insane,
        }
    }
}

impl VoteLists {
    /// The list that belongs into the given directory.
    pub fn list_for(&self, place: Location) -> (r: &str)
        ensures
            r@ == self@.at(place),
    {
        match place {
            Location::Staging => self.test.as_str(),
            Location::Published(Difficulty::Easy) => self.easy.as_str(),
            Location::Published(Difficulty::Main) => self.main.as_str(),
            Location::Published(Difficulty::Hard) => self.hard.as_str(),
            Location::Published(Difficulty::Insane) => self.insane.as_str(),
        }
    }
}

/// Each directory gets the list that is derived for it.
pub proof fn listings_by_place(records: Seq<RecordModel>, place: Location)
    ensures
        listings(records).at(place) == vote_list(records, place),
{
}

/// Regenerating the vote lists twice from the same records gives the same
/// lists, character by character: what is written depends on the records
/// alone, not on what was written before.
pub proof fn regeneration_is_idempotent(
    records: Seq<RecordModel>,
    first: Listings,
    second: Listings,
)
    requires
        first == listings(records),
        second == listings(records),
    ensures
        first == second,
        forall|place: Location| first.at(place) == second.at(place),
{
}

/// A difficulty with six published maps or fewer lists them all under the
/// heading, and nothing follows the separator.
pub proof fn short_list_has_no_tail(maps: Seq<RecordModel>)
    requires
        maps.len() <= NEW_MAPS,
    ensures
        published_lines(maps) == seq![new_maps_heading()] + vote_lines(maps) + seq![
            separator_line(),
        ],
{
    let cut = heading_count(maps.len());
    assert(published_lines(maps) =~= seq![new_maps_heading()] + vote_lines(maps) + seq![
        separator_line(),
    ]);
}

/// Every list holds the maps of its directory and no others: a record
/// stands in the arranged bucket of a place as often as the records hold it
/// with that place as its home.
pub proof fn list_holds_its_directory(records: Seq<RecordModel>, place: Location, order: Order)
    ensures
        order.arranged(bucket(records, place)).to_multiset() == bucket(
            records,
            place,
        ).to_multiset(),
        forall|r: RecordModel|
            order.arranged(bucket(records, place)).contains(r) <==> (records.contains(r)
                && r.home() == place),
{
    broadcast use vstd::seq_lib::to_multiset_contains;

    let chosen = bucket(records, place);
    let wanted = |r: RecordModel| r.home() == place;
    order.arranged_is_stable_sort(chosen);
    assert forall|r: RecordModel|
        order.arranged(chosen).contains(r) <==> (records.contains(r) && r.home()
            == place) by {
        assert(order.arranged(chosen).contains(r) <==> chosen.contains(r)) by {
            assert(order.arranged(chosen).to_multiset().count(r) == chosen.to_multiset().count(r));
        }
        if chosen.contains(r) {
            let i = choose|i: int| 0 <= i < chosen.len() && chosen[i] == r;
            records.lemma_filter_pred(wanted, i);
            records.lemma_filter_contains_rev(wanted, r);
        }
        if records.contains(r) && r.home() == place {
            let i = choose|i: int| 0 <= i < records.len() && records[i] == r;
            records.lemma_filter_contains(wanted, i);
        }
    }
}

/// The line of a map in the staging list: its state's mark, its difficulty
/// and its name, and the command that changes to it.
pub fn map_to_test_vote_string(map: &MapRecord) -> (r: String)
    ensures
        r@ == test_vote_line(map@),
{
    let approved: &str = match map.state {
        State::Approved => "☑",
        State::Declined => "☒",
        _ => "🆕",
    };
    let difficulty: &str = match map.difficulty {
        Difficulty::Easy => "[Easy]   ",
        Difficulty::Main => "[Main]   ",
        Difficulty::Hard => "[Hard]   ",
        Difficulty::Insane => "[Insane]",
    };
    let mut line = String::from_str("add_vote \"");
    line.append(approved);
    line.append(" ");
    line.append(difficulty);
    line.append(" ");
    line.append(map.name.as_str());
    line.append("\" \"change_map \\\"");
    line.append(map.name.as_str());
    line.append("\\\"\"");
    line
}

/// The line of a published map: its name, and the command that changes to
/// it in the directory of its difficulty.
pub fn map_to_vote_string(map: &MapRecord) -> (r: String)
    ensures
        r@ == vote_line(map@),
{
    let mut line = String::from_str("add_vote \"");
    line.append(map.name.as_str());
    line.append("\" \"change_map \\\"");
    line.append(map.difficulty.path_segment());
    line.append("/");
    line.append(map.name.as_str());
    line.append("\\\"\"");
    line
}

/// Puts lines together, a line feed between each two.
pub fn join_lines(lines: &Vec<String>) -> (r: String)
    ensures
        r@ == joined(texts(lines@)),
{
    let mut text = String::new();
    let mut i: usize = 0;
    while i < lines.len()
        invariant
            i <= lines.len(),
            text@ == joined(texts(lines@).take(i as int)),
        decreases lines.len() - i,
    {
        if i > 0 {
            text.append("\n");
        }
        text.append(lines[i].as_str());
        proof {
            reveal_strlit("\n");
            assert(texts(lines@).take(i + 1).drop_last() =~= texts(lines@).take(i as int));
        }
        i += 1;
    }
    proof {
        assert(texts(lines@).take(lines.len() as int) =~= texts(lines@));
    }
    text
}

/// The staging list of the given maps, in their order.
pub fn generate_test_votes(maps: &Vec<MapRecord>) -> (r: String)
    ensures
        r@ == test_votes(models(maps@)),
{
    let mut lines: Vec<String> = Vec::new();
    let mut i: usize = 0;
    while i < maps.len()
        invariant
            i <= maps.len(),
            texts(lines@) == test_vote_lines(models(maps@).take(i as int)),
        decreases maps.len() - i,
    {
        let ghost before = texts(lines@);
        lines.push(map_to_test_vote_string(&maps[i]));
        proof {
            assert(texts(lines@) =~= before.push(test_vote_line(maps@[i as int]@)));
        }
        i += 1;
    }
    proof {
        assert(models(maps@).take(maps.len() as int) =~= models(maps@));
    }
    join_lines(&lines)
}

/// The list of a difficulty. The maps come with the newest first: the first
/// six stay so under the heading, the others follow the separator by name.
pub fn generate_published_votes(maps: &Vec<MapRecord>) -> (r: String)
    ensures
        r@ == published_votes(models(maps@)),
{
    let cut: usize = if maps.len() < NEW_MAPS {
        maps.len()
    } else {
        NEW_MAPS
    };
    let mut lines: Vec<String> = Vec::new();
    lines.push(String::from_str("add_vote \"─── NEW MAPS ───\" \"info\""));
    let mut i: usize = 0;
    while i < cut
        invariant
            i <= cut <= maps.len(),
            texts(lines@) == seq![new_maps_heading()] + vote_lines(models(maps@).take(i as int)),
        decreases cut - i,
    {
        let ghost before = texts(lines@);
        lines.push(map_to_vote_string(&maps[i]));
        proof {
            assert(texts(lines@) =~= before.push(vote_line(maps@[i as int]@)));
            assert(texts(lines@) =~= seq![new_maps_heading()] + vote_lines(
                models(maps@).take(i + 1),
            ));
        }
        i += 1;
    }
    let ghost top = texts(lines@);
    lines.push(String::from_str("add_vote \"────────────────\" \"info\""));
    assert(texts(lines@) =~= top + seq![separator_line()]);
    let mut others: Vec<MapRecord> = Vec::new();
    let mut j: usize = cut;
    while j < maps.len()
        invariant
            cut <= j <= maps.len(),
            models(others@) == models(maps@).subrange(cut as int, j as int),
        decreases maps.len() - j,
    {
        let ghost before = models(others@);
        others.push(maps[j].clone());
        proof {
            assert(models(others@) =~= before.push(maps@[j as int]@));
        }
        j += 1;
    }
    let sorted = Order::ByName.sort(&others);
    let ghost upper = texts(lines@);
    let mut k: usize = 0;
    while k < sorted.len()
        invariant
            k <= sorted.len(),
            texts(lines@) == upper + vote_lines(models(sorted@).take(k as int)),
        decreases sorted.len() - k,
    {
        let ghost before = texts(lines@);
        lines.push(map_to_vote_string(&sorted[k]));
        proof {
            assert(texts(lines@) =~= before.push(vote_line(sorted@[k as int]@)));
        }
        k += 1;
    }
    proof {
        assert(models(sorted@).take(sorted.len() as int) =~= models(sorted@));
    }
    join_lines(&lines)
}

/// The records whose file belongs into `place`, in the order of the list.
pub fn select(records: &Vec<MapRecord>, place: Location) -> (out: Vec<MapRecord>)
    ensures
        models(out@) == bucket(models(records@), place),
{
    let mut out: Vec<MapRecord> = Vec::new();
    let mut i: usize = 0;
    let ghost wanted = |r: RecordModel| r.home() == place;
    while i < records.len()
        invariant
            i <= records.len(),
            wanted == (|r: RecordModel| r.home() == place),
            models(out@) == models(records@).take(i as int).filter(wanted),
        decreases records.len() - i,
    {
        let ghost seen = models(records@).take(i as int);
        if records[i].location() == place {
            out.push(records[i].clone());
        }
        proof {
            seen.lemma_filter_push(records@[i as int]@, wanted);
            assert(models(records@).take(i + 1) =~= seen.push(records@[i as int]@));
        }
        i += 1;
    }
    proof {
        assert(models(records@).take(records.len() as int) =~= models(records@));
    }
    out
}

/// Derives the five vote lists from all records, in the order in which the
/// store hands them out. The result depends on the records alone.
pub fn update_votes(records: &Vec<MapRecord>) -> (r: VoteLists)
    ensures
        r@ == listings(models(records@)),
{
    let test = Order::OldestFirst.sort(&select(records, Location::Staging));
    let easy = Order::NewestFirst.sort(&select(records, Location::Published(Difficulty::Easy)));
    let main = Order::NewestFirst.sort(&select(records, Location::Published(Difficulty::Main)));
    let hard = Order::NewestFirst.sort(&select(records, Location::Published(Difficulty::Hard)));
    let insane = Order::NewestFirst.sort(
        &select(records, Location::Published(Difficulty::Insane)),
    );
    VoteLists {
        test: generate_test_votes(&test),
        easy: generate_published_votes(&easy),
        main: generate_published_votes(&main),
        hard: generate_published_votes(&hard),
        insane: generate_published_votes(&insane),
    }
}

} // verus!
