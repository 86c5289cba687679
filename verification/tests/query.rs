use windows_readout::query::{QueryRow, QueryValue};

#[test]
fn empty_row_has_no_field() {
    let row = QueryRow::new();
    assert_eq!(row.get("Caption"), None);
    assert_eq!(row.get(""), None);
}

#[test]
fn row_gives_back_what_was_inserted() {
    let mut row = QueryRow::new();
    row.insert(String::from("Caption"), QueryValue::Text(String::from("Windows")));
    row.insert(String::from("Build"), QueryValue::Other);
    assert_eq!(row.get("Caption"), Some(&QueryValue::Text(String::from("Windows"))));
    assert_eq!(row.get("Build"), Some(&QueryValue::Other));
    assert_eq!(row.get("Version"), None);
}

#[test]
fn later_insertion_replaces_the_earlier() {
    let mut row = QueryRow::new();
    row.insert(String::from("Caption"), QueryValue::Text(String::from("old")));
    row.insert(String::from("Other"), QueryValue::Other);
    row.insert(String::from("Caption"), QueryValue::Text(String::from("new")));
    assert_eq!(row.get("Caption"), Some(&QueryValue::Text(String::from("new"))));
    assert_eq!(row.get("Other"), Some(&QueryValue::Other));
}

#[test]
fn field_names_are_compared_exactly() {
    let mut row = QueryRow::new();
    row.insert(String::from("Caption"), QueryValue::Other);
    assert_eq!(row.get("caption"), None);
    assert_eq!(row.get("Caption "), None);
    assert_eq!(row.get("Captio"), None);
}
