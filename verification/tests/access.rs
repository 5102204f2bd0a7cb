use map_lifecycle::apikey::{ApiKey, ApiKeyError};
use map_lifecycle::common::{bad_request, unauthorized, MyError};
use map_lifecycle::config::Config;
use map_lifecycle::data::{Difficulty, MapRecord, State};
use map_lifecycle::errors::{
    conflict_text, to_bad_request, to_custom_bad_request, to_internal_server_error,
    to_map_not_found_error, CustomError,
};
use map_lifecycle::options::Options;
use map_lifecycle::query::{find_by_key, find_map, list_maps, list_matching};
use map_lifecycle::text::{
    ends_with_map_suffix, file_stem, lines, lookup_key, map_file_name, same_text,
    strip_map_suffix,
};
use map_lifecycle::txn::TxnErrorType;
use std::path::PathBuf;

fn config(dev: bool) -> Config {
    Config::new(
        Options {
            test_maps: PathBuf::from("./maps/test"),
            published_maps: PathBuf::from("./maps"),
            apikeys: PathBuf::from("./apikeys"),
            dev,
        },
        "alpha\r\nbeta\n\ngamma delta",
    )
}

fn rec(name: &str, difficulty: Difficulty, state: State, created: u64) -> MapRecord {
    MapRecord {
        name: name.to_string(),
        difficulty,
        state,
        created_at: created,
        last_changed: created,
    }
}

#[test]
fn config_takes_over_the_options() {
    let c = config(true);
    assert_eq!(c.test_map_folder, PathBuf::from("./maps/test"));
    assert_eq!(c.public_map_folder, PathBuf::from("./maps"));
    assert!(c.dev);
    assert_eq!(c.apikeys, vec!["alpha", "beta", "", "gamma delta"]);
    assert!(!config(false).dev);
}

#[test]
fn configured_keys_are_found() {
    let c = config(false);
    assert!(c.has_key("alpha"));
    assert!(c.has_key("beta"));
    assert!(c.has_key(""));
    assert!(!c.has_key("Alpha"));
    assert!(!c.has_key("alph"));
    assert!(c.has_key("gamma delta"));
    assert!(!c.has_key("gamma"));
    assert!(!c.has_key("alpha\r"));
}

#[test]
fn developer_mode_admits_everyone_with_the_empty_key() {
    let c = config(true);
    assert_eq!(ApiKey::from_request(&c, None), Ok(ApiKey(String::new())));
    assert_eq!(ApiKey::from_request(&c, Some("nonsense")), Ok(ApiKey(String::new())));
    assert_eq!(ApiKey::from_request(&c, Some("alpha")).unwrap().as_str(), "");
}

#[test]
fn a_configured_key_is_admitted() {
    let c = config(false);
    let key = ApiKey::from_request(&c, Some("beta")).unwrap();
    assert_eq!(key.as_str(), "beta");
}

#[test]
fn an_unknown_key_is_invalid() {
    let c = config(false);
    let e = ApiKey::from_request(&c, Some("gamma")).unwrap_err();
    assert_eq!(e, ApiKeyError::Invalid);
    assert_eq!(e.status(), 401);
    assert_eq!(e.message(), "Api key is invalid.");
}

#[test]
fn a_missing_header_is_a_bad_request() {
    let c = config(false);
    let e = ApiKey::from_request(&c, None).unwrap_err();
    assert_eq!(e, ApiKeyError::Missing);
    assert_eq!(e.status(), 400);
    assert_eq!(e.message(), "Missing `x-api-key` header.");
}

#[test]
fn catcher_answers() {
    assert_eq!(
        bad_request(),
        MyError {
            err: "Bad Request".to_string(),
            msg: Some("The request given is wrongly formatted or data was missing.".to_string()),
            http_status_code: 400,
        }
    );
    assert_eq!(
        unauthorized(),
        MyError {
            err: "Unauthorized".to_string(),
            msg: Some("The authentication given was incorrect or insufficient.".to_string()),
            http_status_code: 401,
        }
    );
}

#[test]
fn plain_answers() {
    assert_eq!(
        to_bad_request(),
        CustomError { msg: "Something went wrong on client side!".to_string(), code: 400 }
    );
    assert_eq!(
        to_custom_bad_request("no".to_string()),
        CustomError { msg: "no".to_string(), code: 400 }
    );
    assert_eq!(
        to_internal_server_error(),
        CustomError { msg: "Something went wrong on server side!".to_string(), code: 500 }
    );
    assert_eq!(
        to_map_not_found_error(),
        CustomError { msg: "Map not found!".to_string(), code: 404 }
    );
    assert_eq!(
        conflict_text(State::Declined, State::Published),
        "Cannot go from state Declined to Published!"
    );
}

#[test]
fn transaction_errors_describe_themselves() {
    assert_eq!(TxnErrorType::Retry.message(), "Retry mechanism triggered");
    assert_eq!(TxnErrorType::Abort.message(), "Abort triggered");
}

#[test]
fn keys_are_lower_case() {
    assert_eq!(lookup_key("ABC"), "abc");
    assert_eq!(lookup_key("MiXed_09.Map"), "mixed_09.map");
    assert_eq!(lookup_key("ÄÖ"), "äö");
    assert_eq!(lookup_key("already"), "already");
}

#[test]
fn stems_lose_the_ending() {
    assert_eq!(file_stem("Dune.map"), "dune");
    assert_eq!(file_stem("DUNE.MAP"), "dune");
    assert_eq!(file_stem("dune"), "dune");
    assert_eq!(file_stem(".map"), "");
    assert_eq!(file_stem("map"), "map");
    assert_eq!(file_stem("a.map.map"), "a.map");
    assert_eq!(file_stem("é.map"), "é");
    assert_eq!(file_stem("x.mapp"), "x.mapp");
    assert!(ends_with_map_suffix("a.map"));
    assert!(!ends_with_map_suffix("a.Map"));
    assert!(!ends_with_map_suffix("map"));
    assert!(!ends_with_map_suffix(""));
}

#[test]
fn file_names_end_in_map() {
    assert_eq!(map_file_name("dune"), "dune.map");
    assert_eq!(map_file_name(""), ".map");
    assert!(same_text("a", "a"));
    assert!(!same_text("a", "A"));
}

#[test]
fn find_map_looks_up_in_lower_case() {
    let records = vec![
        rec("dune", Difficulty::Easy, State::New, 1),
        rec("sky", Difficulty::Hard, State::Published, 2),
        rec("dune", Difficulty::Insane, State::Approved, 3),
    ];
    assert_eq!(find_map(&records, "DUNE"), Some((0, records[0].clone())));
    assert_eq!(find_map(&records, "Sky"), Some((1, records[1].clone())));
    assert_eq!(find_map(&records, "sea"), None);
    assert_eq!(find_map(&vec![], "dune"), None);
}

#[test]
fn list_maps_filters_by_what_is_given() {
    let records = vec![
        rec("a", Difficulty::Easy, State::New, 1),
        rec("b", Difficulty::Hard, State::Published, 2),
        rec("c", Difficulty::Easy, State::Published, 3),
        rec("d", Difficulty::Easy, State::New, 4),
    ];
    assert_eq!(list_maps(&records, None, None, None), records);
    assert_eq!(
        list_maps(&records, None, Some(State::Published), None),
        vec![records[1].clone(), records[2].clone()]
    );
    assert_eq!(
        list_maps(&records, None, None, Some(Difficulty::Easy)),
        vec![records[0].clone(), records[2].clone(), records[3].clone()]
    );
    assert_eq!(
        list_maps(&records, None, Some(State::New), Some(Difficulty::Easy)),
        vec![records[0].clone(), records[3].clone()]
    );
    assert_eq!(list_maps(&records, Some("C"), None, None), vec![records[2].clone()]);
    assert_eq!(list_maps(&records, Some("c"), Some(State::New), None), vec![]);
    assert_eq!(list_maps(&records, Some("zz"), None, None), vec![]);
}

#[test]
fn lines_split_as_the_standard_library_does() {
    let samples = [
        "",
        "\n",
        "a",
        "a\n",
        "a\nb",
        "a\r\nb\r\n",
        "a\rb\n",
        "tail\r",
        "\r\n",
        "\r",
        "\n\n",
        "x\n\ny\n\n",
        "é🆕\r\nz",
        "a\r\r\nb",
        "one\ntwo\n\r",
    ];
    for text in samples {
        let expected: Vec<String> = text.lines().map(ToString::to_string).collect();
        assert_eq!(lines(text), expected, "{:?}", text);
    }
    assert_eq!(lines("k1\nk2\r\n"), vec!["k1", "k2"]);
}

#[test]
fn a_missing_key_file_configures_no_keys() {
    let c = Config::new(
        Options {
            test_maps: PathBuf::from("t"),
            published_maps: PathBuf::from("p"),
            apikeys: PathBuf::from("k"),
            dev: false,
        },
        "",
    );
    assert!(c.apikeys.is_empty());
    assert!(!c.has_key(""));
    assert_eq!(ApiKey::from_request(&c, Some("")), Err(ApiKeyError::Invalid));
}

#[test]
fn strip_map_suffix_cuts_only_the_exact_ending() {
    assert_eq!(strip_map_suffix("Dune.map"), "Dune");
    assert_eq!(strip_map_suffix("Dune.MAP"), "Dune.MAP");
    assert_eq!(strip_map_suffix(".map"), "");
    assert_eq!(strip_map_suffix("map"), "map");
    assert_eq!(strip_map_suffix(""), "");
    assert_eq!(strip_map_suffix("🆕.map"), "🆕");
}

#[test]
fn find_by_key_is_exact() {
    let records = vec![
        rec("Dune", Difficulty::Easy, State::New, 1),
        rec("dune", Difficulty::Hard, State::Published, 2),
        rec("dune", Difficulty::Main, State::Published, 3),
    ];
    assert_eq!(find_by_key(&records, "dune"), Some((1, records[1].clone())));
    assert_eq!(find_by_key(&records, "Dune"), Some((0, records[0].clone())));
    assert_eq!(find_by_key(&records, "DUNE"), None);
}

#[test]
fn list_matching_takes_the_key_as_it_is() {
    let records = vec![
        rec("a", Difficulty::Easy, State::New, 1),
        rec("A", Difficulty::Easy, State::New, 2),
    ];
    assert_eq!(list_matching(&records, Some("A"), None, None), vec![records[1].clone()]);
    assert_eq!(list_maps(&records, Some("A"), None, None), vec![records[0].clone()]);
    assert_eq!(
        list_matching(&records, None, Some(State::New), Some(Difficulty::Easy)),
        records
    );
}
