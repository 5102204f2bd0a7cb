use map_lifecycle::data::{Difficulty, Location, MapRecord, State};
use map_lifecycle::ordering::{name_precedes, Order};
use map_lifecycle::votes::{
    generate_published_votes, generate_test_votes, join_lines, map_to_test_vote_string,
    map_to_vote_string, select, update_votes,
};

fn rec(name: &str, difficulty: Difficulty, state: State, created: u64) -> MapRecord {
    MapRecord {
        name: name.to_string(),
        difficulty,
        state,
        created_at: created,
        last_changed: created,
    }
}

const HEADING: &str = "add_vote \"─── NEW MAPS ───\" \"info\"";
const SEPARATOR: &str = "add_vote \"────────────────\" \"info\"";

fn published_line(name: &str, dir: &str) -> String {
    format!("add_vote \"{}\" \"change_map \\\"{}/{}\\\"\"", name, dir, name)
}

#[test]
fn staging_line_has_mark_column_and_name() {
    assert_eq!(
        map_to_test_vote_string(&rec("dune", Difficulty::Easy, State::Approved, 1)),
        "add_vote \"☑ [Easy]    dune\" \"change_map \\\"dune\\\"\""
    );
    assert_eq!(
        map_to_test_vote_string(&rec("dune", Difficulty::Main, State::Declined, 1)),
        "add_vote \"☒ [Main]    dune\" \"change_map \\\"dune\\\"\""
    );
    assert_eq!(
        map_to_test_vote_string(&rec("dune", Difficulty::Hard, State::New, 1)),
        "add_vote \"🆕 [Hard]    dune\" \"change_map \\\"dune\\\"\""
    );
    assert_eq!(
        map_to_test_vote_string(&rec("dune", Difficulty::Insane, State::New, 1)),
        "add_vote \"🆕 [Insane] dune\" \"change_map \\\"dune\\\"\""
    );
}

#[test]
fn staging_line_matches_the_padded_format() {
    for (d, width) in [
        (Difficulty::Easy, 9usize),
        (Difficulty::Main, 9),
        (Difficulty::Hard, 9),
        (Difficulty::Insane, 8),
    ] {
        let column = format!("{: <w$}", format!("[{}]", d.as_str()), w = width);
        let expected =
            format!("add_vote \"{} {} {}\" \"change_map \\\"{}\\\"\"", "☑", column, "x", "x");
        assert_eq!(map_to_test_vote_string(&rec("x", d, State::Approved, 1)), expected);
    }
}

#[test]
fn published_line_names_the_directory() {
    assert_eq!(
        map_to_vote_string(&rec("dune", Difficulty::Insane, State::Published, 1)),
        "add_vote \"dune\" \"change_map \\\"insane/dune\\\"\""
    );
    assert_eq!(
        map_to_vote_string(&rec("a b", Difficulty::Easy, State::Published, 1)),
        published_line("a b", "easy")
    );
}

#[test]
fn lines_are_joined_by_line_feeds() {
    assert_eq!(join_lines(&vec![]), "");
    assert_eq!(join_lines(&vec!["a".to_string()]), "a");
    assert_eq!(join_lines(&vec!["a".to_string(), "".to_string(), "c".to_string()]), "a\n\nc");
}

#[test]
fn empty_lists() {
    let lists = update_votes(&vec![]);
    assert_eq!(lists.test, "");
    let empty = format!("{}\n{}", HEADING, SEPARATOR);
    assert_eq!(lists.easy, empty);
    assert_eq!(lists.main, empty);
    assert_eq!(lists.hard, empty);
    assert_eq!(lists.insane, empty);
}

#[test]
fn three_records_make_two_lists() {
    let records = vec![
        rec("a", Difficulty::Main, State::New, 10),
        rec("b", Difficulty::Easy, State::Published, 5),
        rec("c", Difficulty::Easy, State::Published, 20),
    ];
    let lists = update_votes(&records);
    assert_eq!(lists.test, "add_vote \"🆕 [Main]    a\" \"change_map \\\"a\\\"\"");
    assert_eq!(
        lists.easy,
        format!(
            "{}\n{}\n{}\n{}",
            HEADING,
            published_line("c", "easy"),
            published_line("b", "easy"),
            SEPARATOR
        )
    );
    let empty = format!("{}\n{}", HEADING, SEPARATOR);
    assert_eq!(lists.main, empty);
    assert_eq!(lists.hard, empty);
    assert_eq!(lists.insane, empty);
}

#[test]
fn staging_list_is_oldest_first() {
    let records = vec![
        rec("late", Difficulty::Easy, State::Approved, 30),
        rec("early", Difficulty::Hard, State::Declined, 10),
        rec("gone", Difficulty::Hard, State::Published, 1),
        rec("mid", Difficulty::Insane, State::New, 20),
    ];
    let lists = update_votes(&records);
    assert_eq!(
        lists.test,
        [
            "add_vote \"☒ [Hard]    early\" \"change_map \\\"early\\\"\"",
            "add_vote \"🆕 [Insane] mid\" \"change_map \\\"mid\\\"\"",
            "add_vote \"☑ [Easy]    late\" \"change_map \\\"late\\\"\"",
        ]
        .join("\n")
    );
}

#[test]
fn six_newest_under_the_heading_then_the_rest_by_name() {
    let names = ["h", "b", "g", "a", "f", "c", "e", "d"];
    let records: Vec<MapRecord> = names
        .iter()
        .enumerate()
        .map(|(i, n)| rec(n, Difficulty::Hard, State::Published, 100 + i as u64))
        .collect();
    let lists = update_votes(&records);
    // newest first: d(107) e(106) c(105) f(104) a(103) g(102) | b(101) h(100) by name
    let mut expected = vec![HEADING.to_string()];
    for n in ["d", "e", "c", "f", "a", "g"] {
        expected.push(published_line(n, "hard"));
    }
    expected.push(SEPARATOR.to_string());
    for n in ["b", "h"] {
        expected.push(published_line(n, "hard"));
    }
    assert_eq!(lists.hard, expected.join("\n"));
}

#[test]
fn exactly_six_published_leave_the_tail_empty() {
    let records: Vec<MapRecord> = (0..6u64)
        .map(|i| rec(&format!("m{}", i), Difficulty::Main, State::Published, i))
        .collect();
    let lists = update_votes(&records);
    let mut expected = vec![HEADING.to_string()];
    for i in (0..6u64).rev() {
        expected.push(published_line(&format!("m{}", i), "main"));
    }
    expected.push(SEPARATOR.to_string());
    assert_eq!(lists.main, expected.join("\n"));
}

#[test]
fn published_list_keeps_the_given_order_of_its_first_six() {
    let maps = vec![
        rec("z", Difficulty::Easy, State::Published, 1),
        rec("y", Difficulty::Easy, State::Published, 2),
        rec("x", Difficulty::Easy, State::Published, 3),
        rec("w", Difficulty::Easy, State::Published, 4),
        rec("v", Difficulty::Easy, State::Published, 5),
        rec("u", Difficulty::Easy, State::Published, 6),
        rec("t", Difficulty::Easy, State::Published, 7),
        rec("s", Difficulty::Easy, State::Published, 8),
        rec("sa", Difficulty::Easy, State::Published, 9),
    ];
    let mut expected = vec![HEADING.to_string()];
    for n in ["z", "y", "x", "w", "v", "u"] {
        expected.push(published_line(n, "easy"));
    }
    expected.push(SEPARATOR.to_string());
    for n in ["s", "sa", "t"] {
        expected.push(published_line(n, "easy"));
    }
    assert_eq!(generate_published_votes(&maps), expected.join("\n"));
}

#[test]
fn test_votes_keep_the_given_order() {
    let maps = vec![
        rec("b", Difficulty::Easy, State::New, 2),
        rec("a", Difficulty::Easy, State::New, 1),
    ];
    assert_eq!(
        generate_test_votes(&maps),
        "add_vote \"🆕 [Easy]    b\" \"change_map \\\"b\\\"\"\nadd_vote \"🆕 [Easy]    a\" \"change_map \\\"a\\\"\""
    );
    assert_eq!(generate_test_votes(&vec![]), "");
}

#[test]
fn regeneration_twice_gives_the_same_lists() {
    let records = vec![
        rec("a", Difficulty::Main, State::New, 10),
        rec("b", Difficulty::Easy, State::Published, 5),
        rec("c", Difficulty::Easy, State::Published, 20),
        rec("d", Difficulty::Insane, State::Declined, 10),
    ];
    let first = update_votes(&records);
    let second = update_votes(&records);
    assert_eq!(first, second);
    assert_eq!(first.test.as_bytes(), second.test.as_bytes());
    assert_eq!(first.easy.as_bytes(), second.easy.as_bytes());
}

#[test]
fn select_keeps_order_and_place() {
    let records = vec![
        rec("a", Difficulty::Main, State::Published, 10),
        rec("b", Difficulty::Easy, State::Published, 5),
        rec("c", Difficulty::Main, State::Approved, 20),
        rec("d", Difficulty::Main, State::Published, 1),
    ];
    let main = select(&records, Location::Published(Difficulty::Main));
    assert_eq!(main, vec![records[0].clone(), records[3].clone()]);
    let staging = select(&records, Location::Staging);
    assert_eq!(staging, vec![records[2].clone()]);
    assert_eq!(select(&records, Location::Published(Difficulty::Insane)), vec![]);
}

#[test]
fn sort_is_stable() {
    let records = vec![
        rec("first", Difficulty::Easy, State::New, 5),
        rec("second", Difficulty::Easy, State::New, 3),
        rec("third", Difficulty::Easy, State::New, 5),
        rec("fourth", Difficulty::Easy, State::New, 3),
        rec("fifth", Difficulty::Easy, State::New, 4),
    ];
    let names = |v: &Vec<MapRecord>| v.iter().map(|r| r.name.clone()).collect::<Vec<_>>();
    assert_eq!(
        names(&Order::OldestFirst.sort(&records)),
        vec!["second", "fourth", "fifth", "first", "third"]
    );
    assert_eq!(
        names(&Order::NewestFirst.sort(&records)),
        vec!["first", "third", "fifth", "second", "fourth"]
    );
    assert_eq!(
        names(&Order::ByName.sort(&records)),
        vec!["fifth", "first", "fourth", "second", "third"]
    );
    assert_eq!(Order::ByName.sort(&vec![]), vec![]);
}

#[test]
fn sort_agrees_with_the_standard_sort() {
    let mut seed: u64 = 12345;
    let mut records = Vec::new();
    for i in 0..40u64 {
        seed = seed.wrapping_mul(6364136223846793005).wrapping_add(1442695040888963407);
        let created = (seed >> 33) % 7;
        let name = format!("{}{}", ["é", "a", "Z", "zz", ""][(seed >> 20) as usize % 5], i % 11);
        records.push(rec(&name, Difficulty::Easy, State::New, created));
    }
    let mut by_time = records.clone();
    by_time.sort_by_key(|r| r.created_at);
    assert_eq!(Order::OldestFirst.sort(&records), by_time);
    let mut newest = records.clone();
    newest.sort_by_key(|r| std::cmp::Reverse(r.created_at));
    assert_eq!(Order::NewestFirst.sort(&records), newest);
    let mut by_name = records.clone();
    by_name.sort_by_key(|r| r.name.clone());
    assert_eq!(Order::ByName.sort(&records), by_name);
}

#[test]
fn names_compare_as_strings_do() {
    let samples = ["", "a", "ab", "b", "B", "é", "e", "zz", "z", "🆕", "a🆕", "ab "];
    for a in samples {
        for b in samples {
            assert_eq!(name_precedes(a, b), a <= b, "{:?} {:?}", a, b);
        }
    }
}

#[test]
fn stands_before_follows_the_order() {
    let old = rec("b", Difficulty::Easy, State::New, 1);
    let new = rec("a", Difficulty::Easy, State::New, 2);
    assert!(Order::OldestFirst.stands_before(&old, &new));
    assert!(!Order::OldestFirst.stands_before(&new, &old));
    assert!(Order::NewestFirst.stands_before(&new, &old));
    assert!(!Order::NewestFirst.stands_before(&old, &new));
    assert!(Order::ByName.stands_before(&new, &old));
    assert!(!Order::ByName.stands_before(&old, &new));
    assert!(Order::ByName.stands_before(&old, &old));
}
