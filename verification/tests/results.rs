use grf::domain::QueryResults;
use grf::query::normalize;
use grf::view::{cell_of, entry_of_value, get_results, render, render_entries, table_records};
use grf::view::{Cell, Entry, Field};
use serde_json::Value;

fn parse(text: &str) -> Value {
    serde_json::from_str(text).unwrap()
}

fn field(name: &str, value: Cell) -> Field {
    Field { name: name.to_string(), value }
}

fn strings(cells: &[&str]) -> Vec<String> {
    cells.iter().map(|c| c.to_string()).collect()
}

#[test]
fn table_has_header_of_first_row_and_empty_cell_for_missing_key() {
    let table = get_results(&parse(r#"[{"a":1,"b":"x"}, {"a":2}]"#)).unwrap();
    assert_eq!(table, " a | b \n---+---\n 1 | x \n 2 |   ");
}

#[test]
fn null_is_rendered_as_text() {
    let table = get_results(&parse(r#"[{"a":null}]"#)).unwrap();
    assert_eq!(table, " a    \n------\n null ");
}

#[test]
fn header_keeps_insertion_order() {
    let table = get_results(&parse(r#"[{"z":1,"a":2,"m":3}]"#)).unwrap();
    assert_eq!(table, " z | a | m \n---+---+---\n 1 | 2 | 3 ");
}

#[test]
fn keys_of_later_rows_are_dropped() {
    let table = get_results(&parse(r#"[{"a":1}, {"a":2,"b":3}]"#)).unwrap();
    assert_eq!(table, " a \n---\n 1 \n 2 ");
}

#[test]
fn results_member_of_an_object_is_used() {
    let table = get_results(&parse(r#"{"results":[{"n":"x"}], "other": 1}"#)).unwrap();
    assert_eq!(table, " n \n---\n x ");
}

#[test]
fn other_values_are_shown_by_their_json_text() {
    let table = get_results(&parse(r#"[{"a":true,"b":[1,"two"],"c":{"k":1.5}}]"#)).unwrap();
    assert_eq!(
        table,
        " a    | b         | c         \n------+-----------+-----------\n true | [1,\"two\"] | {\"k\":1.5} "
    );
}

#[test]
fn no_rows_give_no_table() {
    assert_eq!(get_results(&parse("[]")), None);
    assert_eq!(get_results(&parse(r#"{"results":[]}"#)), None);
    assert_eq!(get_results(&parse(r#"{"results":3}"#)), None);
    assert_eq!(get_results(&parse(r#"{"rows":[{"a":1}]}"#)), None);
    assert_eq!(get_results(&parse("3")), None);
    assert_eq!(get_results(&parse("null")), None);
    assert_eq!(get_results(&parse(r#""text""#)), None);
    assert_eq!(render(&QueryResults::Empty), None);
    assert_eq!(render(&QueryResults::NonEmpty(vec![])), None);
    assert_eq!(render_entries(&vec![]), None);
}

#[test]
fn first_element_that_is_no_object_gives_an_empty_table() {
    assert_eq!(get_results(&parse(r#"[1, {"a":2}]"#)), Some(String::new()));
    assert_eq!(table_records(&vec![Entry::Other]), Vec::<Vec<String>>::new());
}

#[test]
fn elements_that_are_no_objects_give_no_line() {
    let table = get_results(&parse(r#"[{"a":1}, 7, {"a":3}]"#)).unwrap();
    assert_eq!(table, " a \n---\n 1 \n 3 ");
}

#[test]
fn render_shows_the_rows_of_the_results() {
    let results = QueryResults::NonEmpty(vec![parse(r#"{"a":"x"}"#), parse(r#"{"a":"y"}"#)]);
    assert_eq!(render(&results), Some(" a \n---\n x \n y ".to_string()));
}

#[test]
fn normalize_takes_arrays_and_results_members() {
    assert_eq!(
        normalize(&parse(r#"[{"a":1}, {"a":2}]"#)),
        QueryResults::NonEmpty(vec![parse(r#"{"a":1}"#), parse(r#"{"a":2}"#)])
    );
    assert_eq!(
        normalize(&parse(r#"{"results":[{"a":1}]}"#)),
        QueryResults::NonEmpty(vec![parse(r#"{"a":1}"#)])
    );
    assert_eq!(normalize(&parse(r#"[3, "x"]"#)), QueryResults::NonEmpty(vec![parse("3"), parse(r#""x""#)]));
    assert_eq!(normalize(&parse("[]")), QueryResults::Empty);
    assert_eq!(normalize(&parse(r#"{"results":[]}"#)), QueryResults::Empty);
    assert_eq!(normalize(&parse(r#"{"results":{"a":1}}"#)), QueryResults::Empty);
    assert_eq!(normalize(&parse(r#"{"a":[1]}"#)), QueryResults::Empty);
    assert_eq!(normalize(&parse("42")), QueryResults::Empty);
    assert!(QueryResults::from_rows(vec![]).is_empty());
    assert!(!QueryResults::from_rows(vec![parse("1")]).is_empty());
}

#[test]
fn cells_tell_strings_null_and_other_values_apart() {
    assert_eq!(cell_of(&parse(r#""x""#)), Cell::Text("x".to_string()));
    assert_eq!(cell_of(&parse("null")), Cell::Null);
    assert_eq!(cell_of(&parse("12")), Cell::Other("12".to_string()));
    assert_eq!(cell_of(&parse(r#"{"a":[1,2]}"#)), Cell::Other(r#"{"a":[1,2]}"#.to_string()));
    assert_eq!(Cell::Null.text(), "null");
    assert_eq!(Cell::Text("null".to_string()).text(), "null");
    assert_eq!(Cell::Other("1".to_string()).text(), "1");
}

#[test]
fn entries_hold_the_members_in_order() {
    assert_eq!(
        entry_of_value(&parse(r#"{"b":"x","a":null,"c":3}"#)),
        Entry::Object(vec![
            field("b", Cell::Text("x".to_string())),
            field("a", Cell::Null),
            field("c", Cell::Other("3".to_string())),
        ])
    );
    assert_eq!(entry_of_value(&parse("[1]")), Entry::Other);
}

#[test]
fn table_records_follow_the_first_row() {
    let entries = vec![
        Entry::Object(vec![
            field("a", Cell::Other("1".to_string())),
            field("b", Cell::Text("x".to_string())),
        ]),
        Entry::Other,
        Entry::Object(vec![
            field("c", Cell::Null),
            field("b", Cell::Null),
            field("b", Cell::Text("second".to_string())),
        ]),
    ];
    assert_eq!(
        table_records(&entries),
        vec![strings(&["a", "b"]), strings(&["1", "x"]), strings(&["", "null"])]
    );
    assert_eq!(
        render_entries(&entries),
        Some(" a | b    \n---+------\n 1 | x    \n   | null ".to_string())
    );
}

#[test]
fn an_object_without_members_gives_an_empty_table() {
    assert_eq!(get_results(&parse("[{}]")), Some(String::new()));
}
