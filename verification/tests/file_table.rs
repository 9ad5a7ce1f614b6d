use file_browser::error::Unavailable;
use file_browser::file_table::FileTable;

fn row(first: &str, second: &str) -> Vec<String> {
    vec![first.to_string(), second.to_string()]
}

fn table_of(names: &[&str]) -> FileTable {
    FileTable::from_dir(Ok(names.iter().map(|name| Some(name.to_string())).collect()))
}

#[test]
fn a_new_table_has_one_row() {
    let table = FileTable::new();
    assert_eq!(table.rows(), &vec![row("C1", "C2")]);
    assert_eq!(table.selected(), None);
}

#[test]
fn a_directory_table_starts_with_the_parent_row() {
    let table = table_of(&["b.txt", "a"]);
    assert_eq!(table.rows(), &vec![row("..", ""), row("b.txt", "0"), row("a", "0")]);
    assert_eq!(table.selected(), None);
}

#[test]
fn a_directory_table_skips_failed_items() {
    let table = FileTable::from_dir(Ok(vec![
        None,
        Some("x".to_string()),
        None,
        None,
        Some("y".to_string()),
    ]));
    assert_eq!(table.rows(), &vec![row("..", ""), row("x", "0"), row("y", "0")]);
}

#[test]
fn an_unreadable_directory_shows_the_parent_row_alone() {
    let table = FileTable::from_dir(Err(Unavailable::Missing));
    assert_eq!(table.rows(), &vec![row("..", "")]);
    assert_eq!(table.selected(), None);
    let empty = FileTable::from_dir(Ok(vec![]));
    assert_eq!(empty.rows(), &vec![row("..", "")]);
}

#[test]
fn table_next_wraps_after_the_last_row() {
    let mut table = table_of(&["a", "b"]);
    table.next();
    assert_eq!(table.selected(), Some(0));
    table.next();
    assert_eq!(table.selected(), Some(1));
    table.next();
    assert_eq!(table.selected(), Some(2));
    table.next();
    assert_eq!(table.selected(), Some(0));
}

#[test]
fn table_previous_wraps_before_the_first_row() {
    let mut table = table_of(&["a", "b"]);
    table.previous();
    assert_eq!(table.selected(), Some(0));
    table.previous();
    assert_eq!(table.selected(), Some(2));
    table.previous();
    assert_eq!(table.selected(), Some(1));
    table.previous();
    assert_eq!(table.selected(), Some(0));
}

#[test]
fn a_table_of_one_row_keeps_the_cursor() {
    let mut table = FileTable::new();
    table.next();
    assert_eq!(table.selected(), Some(0));
    table.next();
    assert_eq!(table.selected(), Some(0));
    table.previous();
    assert_eq!(table.selected(), Some(0));
}
