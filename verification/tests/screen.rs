use file_browser::browser::Entries;
use file_browser::entry::{DirRecord, Entry, EntryStyle, EntryType, Tint};
use file_browser::path::DirPath;
use file_browser::screen::Area;

fn path(parts: &[&str]) -> DirPath {
    DirPath::from_parts(parts.iter().map(|part| part.to_string()).collect())
}

fn found(name: &str, is_dir: bool, is_symlink: bool) -> DirRecord {
    DirRecord::Found { name: name.to_string(), is_dir, is_symlink }
}

fn browser() -> Entries {
    Entries::new(
        path(&["tmp", "root"]),
        Ok(vec![found("a", true, false), found("b.txt", false, false), found("l", false, true)]),
    )
    .unwrap()
}

#[test]
fn the_browser_takes_the_left_third() {
    let screen = Area { x: 0, y: 0, width: 100, height: 40 };
    assert_eq!(screen.left_third(), Area { x: 0, y: 0, width: 33, height: 40 });
    let shifted = Area { x: 7, y: 3, width: 90, height: 24 };
    assert_eq!(shifted.left_third(), Area { x: 7, y: 3, width: 30, height: 24 });
}

#[test]
fn a_narrow_screen_leaves_no_room() {
    assert_eq!(
        Area { x: 1, y: 2, width: 2, height: 5 }.left_third(),
        Area { x: 1, y: 2, width: 0, height: 5 }
    );
    assert_eq!(
        Area { x: 0, y: 0, width: u16::MAX, height: u16::MAX }.left_third(),
        Area { x: 0, y: 0, width: 21845, height: u16::MAX }
    );
}

#[test]
fn the_table_has_a_row_for_each_entry() {
    let rows = browser().as_table();
    assert_eq!(rows.len(), 3);
    let seen: Vec<(String, EntryType, EntryStyle)> = rows
        .iter()
        .map(|row| {
            assert_eq!(row.cells.len(), 1);
            (row.cells[0].text.clone(), row.cells[0].kind, row.cells[0].style)
        })
        .collect();
    assert_eq!(
        seen,
        vec![
            ("a".to_string(), EntryType::Dir, EntryStyle { color: Tint::LightBlue, bold: true }),
            ("b.txt".to_string(), EntryType::File, EntryStyle { color: Tint::Plain, bold: false }),
            ("l".to_string(), EntryType::Sym, EntryStyle { color: Tint::LightGreen, bold: false }),
        ]
    );
}

#[test]
fn the_table_of_an_empty_directory_has_no_row() {
    let entries = Entries::new(DirPath::root(), Ok(vec![])).unwrap();
    assert!(entries.as_table().is_empty());
}

#[test]
fn the_header_names_the_directory() {
    assert_eq!(browser().header(), vec!["File".to_string(), "/tmp/root".to_string()]);
    let at_root = Entries::new(DirPath::root(), Ok(vec![])).unwrap();
    assert_eq!(at_root.header(), vec!["File".to_string(), "/".to_string()]);
}

#[test]
fn the_view_shows_directory_rows_and_cursor() {
    let mut entries = browser();
    let before = entries.clone();
    let view = entries.current_view();
    assert_eq!(entries, before);
    assert_eq!(view.title, "/tmp/root");
    assert_eq!(view.rows, entries.as_table());
    assert_eq!(view.selected, None);

    entries.previous();
    let view = entries.current_view();
    assert_eq!(view.selected, Some(2));
    assert_eq!(view.rows[2].cells[0].text, "l");
    assert_eq!(view.selected, entries.get_state());
}

#[test]
fn the_view_follows_the_browser_into_a_directory() {
    let mut entries = browser();
    entries.next();
    entries.enter(Ok(vec![found("inner", false, false)])).unwrap();
    let view = entries.current_view();
    assert_eq!(view.title, "/tmp/root/a");
    assert_eq!(view.rows.len(), 1);
    assert_eq!(view.rows[0].cells[0].text, "inner");
    assert_eq!(view.selected, None);
}

#[test]
fn a_browser_made_of_entries_is_in_their_directory() {
    let dir = path(&["tmp", "root"]);
    let given = vec![
        Entry::new(&dir, &found("a", true, false)).unwrap(),
        Entry::new(&dir, &found("b.txt", false, false)).unwrap(),
    ];
    let entries = Entries::from_iter(given.clone());
    assert_eq!(entries.path(), &dir);
    assert_eq!(entries.listing().current_path(), &dir);
    assert_eq!(entries.listing().entries(), &given);
    assert_eq!(entries.get_state(), None);
    let read = Entries::new(dir, Ok(vec![found("a", true, false), found("b.txt", false, false)]));
    assert_eq!(Ok(entries), read);
}
