use json_editor::app::{
    App, CurrentScreen, CurrentlyEditing, CurrentlyLoading, LoadError, SerializeError,
};
use std::collections::HashMap;

fn text(s: &str) -> String {
    s.to_string()
}

fn commit(app: &mut App, key: &str, value: &str) {
    app.key_input = text(key);
    app.value_input = text(value);
    app.save_key_value();
}

fn sorted_entries(app: &App) -> Vec<(String, String)> {
    let mut entries = app.pairs.entries().clone();
    entries.sort();
    entries
}

fn parse_failure(content: &str) -> serde_json::Error {
    serde_json::from_str::<HashMap<String, String>>(content).unwrap_err()
}

#[test]
fn new_state_has_the_defaults() {
    let app = App::new();
    assert_eq!(app.key_input, "");
    assert_eq!(app.value_input, "");
    assert_eq!(app.pairs.len(), 0);
    assert_eq!(app.current_screen, CurrentScreen::Main);
    assert_eq!(app.currently_editing, None);
    assert_eq!(app.currently_loading, None);
    assert_eq!(app.print_json, "");
}

#[test]
fn screen_is_a_plain_field() {
    let mut app = App::new();
    app.current_screen = CurrentScreen::Editing;
    app.toggle_editing();
    app.toggle_loading();
    commit(&mut app, "a", "1");
    assert_eq!(app.current_screen, CurrentScreen::Editing);
    app.current_screen = CurrentScreen::Loading;
    assert!(app.load_from_json("{}").is_ok());
    assert_eq!(app.current_screen, CurrentScreen::Loading);
    app.current_screen = CurrentScreen::Exiting;
    assert!(app.print_json().is_ok());
    assert_eq!(app.current_screen, CurrentScreen::Exiting);
}

#[test]
fn toggle_editing_visits_key_value_key() {
    let mut app = App::new();
    assert_eq!(app.currently_editing, None);
    app.toggle_editing();
    assert_eq!(app.currently_editing, Some(CurrentlyEditing::Key));
    app.toggle_editing();
    assert_eq!(app.currently_editing, Some(CurrentlyEditing::Value));
    app.toggle_editing();
    assert_eq!(app.currently_editing, Some(CurrentlyEditing::Key));
}

#[test]
fn toggle_editing_leaves_the_rest_alone() {
    let mut app = App::new();
    app.key_input = text("k");
    app.value_input = text("v");
    app.toggle_editing();
    assert_eq!(app.key_input, "k");
    assert_eq!(app.value_input, "v");
    assert_eq!(app.pairs.len(), 0);
    assert_eq!(app.currently_loading, None);
}

#[test]
fn toggle_loading_goes_from_unset_to_done() {
    let mut app = App::new();
    app.toggle_loading();
    assert_eq!(app.currently_loading, Some(CurrentlyLoading::Done));
    app.toggle_loading();
    assert_eq!(app.currently_loading, Some(CurrentlyLoading::Done));
}

#[test]
fn toggle_loading_keeps_load() {
    let mut app = App::new();
    app.currently_loading = Some(CurrentlyLoading::Load);
    app.toggle_loading();
    assert_eq!(app.currently_loading, Some(CurrentlyLoading::Load));
    app.toggle_loading();
    assert_eq!(app.currently_loading, Some(CurrentlyLoading::Load));
    assert_eq!(app.currently_editing, None);
}

#[test]
fn save_key_value_commits_and_clears() {
    let mut app = App::new();
    app.toggle_editing();
    app.toggle_editing();
    app.key_input = text("name");
    app.value_input = text("value");
    app.save_key_value();
    assert_eq!(app.pairs.len(), 1);
    assert_eq!(app.pairs.get("name"), Some(&text("value")));
    assert_eq!(app.key_input, "");
    assert_eq!(app.value_input, "");
    assert_eq!(app.currently_editing, None);
}

#[test]
fn save_key_value_clears_from_every_focus() {
    let mut app = App::new();
    commit(&mut app, "a", "1");
    assert_eq!(app.currently_editing, None);
    app.toggle_editing();
    commit(&mut app, "b", "2");
    assert_eq!(app.currently_editing, None);
    assert_eq!(app.key_input, "");
    assert_eq!(app.value_input, "");
    assert_eq!(app.pairs.len(), 2);
}

#[test]
fn save_key_value_takes_an_empty_key() {
    let mut app = App::new();
    app.value_input = text("v");
    app.save_key_value();
    assert_eq!(app.pairs.len(), 1);
    assert_eq!(app.pairs.get(""), Some(&text("v")));
    app.save_key_value();
    assert_eq!(app.pairs.len(), 1);
    assert_eq!(app.pairs.get(""), Some(&text("")));
}

#[test]
fn last_commit_per_key_stays() {
    let mut app = App::new();
    commit(&mut app, "k1", "a");
    commit(&mut app, "k2", "b");
    commit(&mut app, "k1", "c");
    commit(&mut app, "k3", "d");
    commit(&mut app, "k2", "e");
    commit(&mut app, "k1", "f");
    assert_eq!(
        sorted_entries(&app),
        vec![(text("k1"), text("f")), (text("k2"), text("e")), (text("k3"), text("d"))]
    );
}

#[test]
fn load_merges_into_the_pairs() {
    let mut app = App::new();
    commit(&mut app, "b", "0");
    commit(&mut app, "c", "9");
    let result = app.load_from_json("{\"a\":\"1\",\"b\":\"2\"}");
    assert!(result.is_ok());
    assert_eq!(
        sorted_entries(&app),
        vec![(text("a"), text("1")), (text("b"), text("2")), (text("c"), text("9"))]
    );
}

#[test]
fn load_leaves_buffers_and_modes() {
    let mut app = App::new();
    app.key_input = text("k");
    app.value_input = text("v");
    app.toggle_editing();
    assert!(app.load_from_json("{\"a\": \"1\"}").is_ok());
    assert_eq!(app.key_input, "k");
    assert_eq!(app.value_input, "v");
    assert_eq!(app.currently_editing, Some(CurrentlyEditing::Key));
    assert_eq!(app.currently_loading, None);
    assert_eq!(app.print_json, "");
    assert_eq!(app.pairs.get("a"), Some(&text("1")));
}

#[test]
fn load_of_an_empty_object_changes_nothing() {
    let mut app = App::new();
    commit(&mut app, "a", "1");
    assert!(app.load_from_json(" { } ").is_ok());
    assert_eq!(sorted_entries(&app), vec![(text("a"), text("1"))]);
}

#[test]
fn load_takes_the_last_of_a_repeated_member() {
    let mut app = App::new();
    assert!(app.load_from_json("{\"a\":\"1\",\"a\":\"2\"}").is_ok());
    assert_eq!(sorted_entries(&app), vec![(text("a"), text("2"))]);
}

#[test]
fn load_reads_escapes() {
    let mut app = App::new();
    assert!(app.load_from_json("{\"a\\nb\":\"\\u00e9\\\"\"}").is_ok());
    assert_eq!(sorted_entries(&app), vec![(text("a\nb"), text("\u{e9}\""))]);
}

#[test]
fn load_of_malformed_json_changes_nothing() {
    let mut app = App::new();
    commit(&mut app, "b", "0");
    commit(&mut app, "c", "9");
    let result = app.load_from_json("{\"a\":\"1\",");
    assert!(matches!(result, Err(LoadError::Parse(_))));
    assert_eq!(sorted_entries(&app), vec![(text("b"), text("0")), (text("c"), text("9"))]);
}

#[test]
fn load_refuses_what_is_not_an_object_of_strings() {
    let cases = [
        "",
        "not json",
        "[\"a\",\"b\"]",
        "\"a\"",
        "7",
        "null",
        "{\"a\":1}",
        "{\"a\":true}",
        "{\"a\":null}",
        "{\"a\":[\"b\"]}",
        "{\"a\":{\"b\":\"c\"}}",
        "{\"a\":\"1\",\"b\":2}",
        "{\"a\":\"1\"} trailing",
        "{a:\"1\"}",
    ];
    for content in cases {
        let mut app = App::new();
        commit(&mut app, "kept", "yes");
        let result = app.load_from_json(content);
        assert!(matches!(result, Err(LoadError::Parse(_))), "accepted {:?}", content);
        assert_eq!(sorted_entries(&app), vec![(text("kept"), text("yes"))]);
    }
}

#[test]
fn load_applies_nothing_of_a_half_good_object() {
    let mut app = App::new();
    commit(&mut app, "a", "old");
    let result = app.load_from_json("{\"a\":\"new\",\"b\":\"2\",\"c\":3}");
    assert!(matches!(result, Err(LoadError::Parse(_))));
    assert_eq!(sorted_entries(&app), vec![(text("a"), text("old"))]);
}

#[test]
fn failed_read_is_an_io_error() {
    let mut app = App::new();
    commit(&mut app, "b", "0");
    let result = app.load_from_read(Err(text("Failed to open file: not found")));
    match result {
        Err(LoadError::Io(reason)) => assert_eq!(reason, "Failed to open file: not found"),
        other => panic!("expected an Io error, got {:?}", other),
    }
    assert_eq!(sorted_entries(&app), vec![(text("b"), text("0"))]);
}

#[test]
fn good_read_is_loaded() {
    let mut app = App::new();
    commit(&mut app, "b", "0");
    let result = app.load_from_read(Ok(text("{\"a\":\"1\",\"b\":\"2\"}")));
    assert!(result.is_ok());
    assert_eq!(sorted_entries(&app), vec![(text("a"), text("1")), (text("b"), text("2"))]);
}

#[test]
fn good_read_of_bad_content_is_a_parse_error() {
    let mut app = App::new();
    commit(&mut app, "b", "0");
    let result = app.load_from_read(Ok(text("{\"a\":")));
    assert!(matches!(result, Err(LoadError::Parse(_))));
    assert_eq!(sorted_entries(&app), vec![(text("b"), text("0"))]);
}

#[test]
fn merge_parsed_merges_entries() {
    let mut app = App::new();
    commit(&mut app, "b", "0");
    commit(&mut app, "c", "9");
    let result = app.merge_parsed(Ok(vec![(text("a"), text("1")), (text("b"), text("2"))]));
    assert!(result.is_ok());
    assert_eq!(
        sorted_entries(&app),
        vec![(text("a"), text("1")), (text("b"), text("2")), (text("c"), text("9"))]
    );
}

#[test]
fn merge_parsed_passes_the_error_on() {
    let mut app = App::new();
    commit(&mut app, "b", "0");
    let failure = parse_failure("{\"a\":1}");
    let message = failure.to_string();
    match app.merge_parsed(Err(failure)) {
        Err(LoadError::Parse(error)) => assert_eq!(error.to_string(), message),
        other => panic!("expected a Parse error, got {:?}", other),
    }
    assert_eq!(sorted_entries(&app), vec![(text("b"), text("0"))]);
}

#[test]
fn print_json_of_one_pair() {
    let mut app = App::new();
    commit(&mut app, "x", "y");
    let output = app.print_json().unwrap();
    assert_eq!(output, "{\"x\":\"y\"}");
    assert_eq!(app.print_json, "{\"x\":\"y\"}");
    assert_eq!(sorted_entries(&app), vec![(text("x"), text("y"))]);
}

#[test]
fn print_json_of_no_pairs() {
    let mut app = App::new();
    assert_eq!(app.print_json().unwrap(), "{}");
    assert_eq!(app.print_json, "{}");
}

#[test]
fn print_json_round_trips() {
    let mut app = App::new();
    commit(&mut app, "x", "y");
    let output = app.print_json().unwrap();
    let mut fresh = App::new();
    assert!(fresh.load_from_json(&output).is_ok());
    assert_eq!(sorted_entries(&fresh), vec![(text("x"), text("y"))]);
    assert!(app.load_from_json(&output).is_ok());
    assert_eq!(sorted_entries(&app), vec![(text("x"), text("y"))]);
}

#[test]
fn print_json_round_trips_many_pairs_and_escapes() {
    let mut app = App::new();
    commit(&mut app, "", "empty key");
    commit(&mut app, "quote\"back\\slash", "line\nbreak\ttab");
    commit(&mut app, "\u{1}\u{1f}\u{7f}", "\u{e9}\u{4e16}\u{1f600}");
    commit(&mut app, "{\"a\":\"b\"}", "[1,2]");
    commit(&mut app, "\u{2028}", "\u{0}");
    let expected = sorted_entries(&app);
    let output = app.print_json().unwrap();
    assert_eq!(app.print_json, output);
    let mut fresh = App::new();
    assert!(fresh.load_from_json(&output).is_ok());
    assert_eq!(sorted_entries(&fresh), expected);
    assert_eq!(sorted_entries(&app), expected);
}

#[test]
fn print_json_leaves_buffers_and_modes() {
    let mut app = App::new();
    commit(&mut app, "a", "1");
    app.key_input = text("k");
    app.value_input = text("v");
    app.toggle_editing();
    app.toggle_loading();
    assert!(app.print_json().is_ok());
    assert_eq!(app.key_input, "k");
    assert_eq!(app.value_input, "v");
    assert_eq!(app.currently_editing, Some(CurrentlyEditing::Key));
    assert_eq!(app.currently_loading, Some(CurrentlyLoading::Done));
}

#[test]
fn record_output_keeps_the_text() {
    let mut app = App::new();
    commit(&mut app, "a", "1");
    let result = app.record_output(Ok(text("{\"a\":\"1\"}")));
    assert_eq!(result.unwrap(), "{\"a\":\"1\"}");
    assert_eq!(app.print_json, "{\"a\":\"1\"}");
    assert_eq!(sorted_entries(&app), vec![(text("a"), text("1"))]);
}

#[test]
fn record_output_passes_the_error_on() {
    let mut app = App::new();
    commit(&mut app, "a", "1");
    app.print_json = text("before");
    let failure = parse_failure("nothing");
    let message = failure.to_string();
    match app.record_output(Err(failure)) {
        Err(SerializeError { source }) => assert_eq!(source.to_string(), message),
        other => panic!("expected an error, got {:?}", other),
    }
    assert_eq!(app.print_json, "before");
    assert_eq!(sorted_entries(&app), vec![(text("a"), text("1"))]);
}

#[test]
fn print_json_escapes_a_quote() {
    let mut app = App::new();
    commit(&mut app, "k", "a\"b");
    let output = app.print_json().unwrap();
    assert_eq!(output, "{\"k\":\"a\\\"b\"}");
    let mut fresh = App::new();
    assert!(fresh.load_from_json(&output).is_ok());
    assert_eq!(sorted_entries(&fresh), vec![(text("k"), text("a\"b"))]);
}
