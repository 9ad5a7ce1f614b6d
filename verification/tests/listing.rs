use file_browser::entry::{DirRecord, Entry, EntryStyle, EntryType, Tint};
use file_browser::error::{BrowseError, Unavailable};
use file_browser::listing::Listing;
use file_browser::path::DirPath;

fn path(parts: &[&str]) -> DirPath {
    DirPath::from_parts(parts.iter().map(|part| part.to_string()).collect())
}

fn found(name: &str, is_dir: bool, is_symlink: bool) -> DirRecord {
    DirRecord::Found { name: name.to_string(), is_dir, is_symlink }
}

#[test]
fn root_has_no_component() {
    let root = DirPath::root();
    assert_eq!(root.depth(), 0);
    assert!(root.parts().is_empty());
    assert_eq!(root.file_name(), None);
    assert_eq!(root.parent(), None);
    assert_eq!(root, path(&[]));
}

#[test]
fn push_appends_a_component() {
    let mut dir = path(&["tmp"]);
    dir.push("root".to_string());
    assert_eq!(dir, path(&["tmp", "root"]));
    assert_eq!(dir.depth(), 2);
    assert_eq!(dir.parts(), &vec!["tmp".to_string(), "root".to_string()]);
}

#[test]
fn pop_removes_the_last_component() {
    let mut dir = path(&["tmp", "root"]);
    assert!(dir.pop());
    assert_eq!(dir, path(&["tmp"]));
    assert!(dir.pop());
    assert_eq!(dir, DirPath::root());
    assert!(!dir.pop());
    assert_eq!(dir, DirPath::root());
}

#[test]
fn parent_and_file_name_split_a_path() {
    let dir = path(&["tmp", "root", "a"]);
    assert_eq!(dir.parent(), Some(path(&["tmp", "root"])));
    assert_eq!(dir.file_name(), Some(&"a".to_string()));
    assert_eq!(dir, path(&["tmp", "root", "a"]));
}

#[test]
fn join_leaves_the_directory_alone() {
    let dir = path(&["tmp"]);
    let child = dir.join(&"root".to_string());
    assert_eq!(child, path(&["tmp", "root"]));
    assert_eq!(dir, path(&["tmp"]));
    assert_eq!(child.parent(), Some(dir));
}

#[test]
fn clone_of_a_path_is_equal() {
    let dir = path(&["tmp", "root"]);
    assert_eq!(dir.clone(), dir);
}

#[test]
fn text_of_paths() {
    assert_eq!(DirPath::root().to_text(), "/");
    assert_eq!(path(&["tmp"]).to_text(), "/tmp");
    assert_eq!(path(&["tmp", "root"]).to_text(), "/tmp/root");
    assert_eq!(path(&["tmp", "root", "a"]).to_text(), "/tmp/root/a");
}

#[test]
fn metadata_decides_the_kind() {
    assert_eq!(EntryType::from_metadata(true, false), EntryType::Dir);
    assert_eq!(EntryType::from_metadata(true, true), EntryType::Dir);
    assert_eq!(EntryType::from_metadata(false, true), EntryType::Sym);
    assert_eq!(EntryType::from_metadata(false, false), EntryType::File);
}

#[test]
fn each_kind_has_its_style() {
    assert_eq!(EntryType::Dir.style(), EntryStyle { color: Tint::LightBlue, bold: true });
    assert_eq!(EntryType::File.style(), EntryStyle { color: Tint::Plain, bold: false });
    assert_eq!(EntryType::Sym.style(), EntryStyle { color: Tint::LightGreen, bold: false });
}

#[test]
fn an_entry_lies_in_the_directory_it_was_read_in() {
    let dir = path(&["tmp", "root"]);
    let entry = Entry::new(&dir, &found("a", true, false)).unwrap();
    assert_eq!(entry.path(), &path(&["tmp", "root", "a"]));
    assert_eq!(entry.path().parent(), Some(dir));
    assert_eq!(entry.name(), "a");
    assert_eq!(entry.kind(), EntryType::Dir);
}

#[test]
fn a_link_to_a_directory_is_a_link() {
    let entry = Entry::new(&DirPath::root(), &found("current", false, true)).unwrap();
    assert_eq!(entry.kind(), EntryType::Sym);
}

#[test]
fn an_unreadable_record_gives_no_entry() {
    assert_eq!(
        Entry::new(&path(&["tmp"]), &DirRecord::Unreadable),
        Err(BrowseError::EntryMetadataUnreadable)
    );
}

#[test]
fn clone_of_an_entry_is_equal() {
    let entry = Entry::new(&path(&["tmp"]), &found("b.txt", false, false)).unwrap();
    assert_eq!(entry.clone(), entry);
}

#[test]
fn cell_and_row_of_an_entry() {
    let entry = Entry::new(&path(&["tmp", "root"]), &found("a", true, false)).unwrap();
    let cell = entry.as_cell();
    assert_eq!(cell.text, "a");
    assert_eq!(cell.kind, EntryType::Dir);
    assert_eq!(cell.style, EntryStyle { color: Tint::LightBlue, bold: true });
    let row = entry.as_row();
    assert_eq!(row.cells, vec![cell]);
}

#[test]
fn build_keeps_the_order_of_enumeration() {
    let dir = path(&["tmp", "root"]);
    let read = Ok(vec![
        found("zeta", false, false),
        found("alpha", true, false),
        found("mid", false, true),
    ]);
    let listing = Listing::build(dir.clone(), read).unwrap();
    assert_eq!(listing.current_path(), &dir);
    assert_eq!(listing.len(), 3);
    assert!(!listing.is_empty());
    let seen: Vec<(String, EntryType)> =
        listing.entries().iter().map(|entry| (entry.name().clone(), entry.kind())).collect();
    assert_eq!(
        seen,
        vec![
            ("zeta".to_string(), EntryType::File),
            ("alpha".to_string(), EntryType::Dir),
            ("mid".to_string(), EntryType::Sym)
        ]
    );
    for entry in listing.entries() {
        assert_eq!(entry.path().parent(), Some(dir.clone()));
    }
}

#[test]
fn build_skips_what_could_not_be_read() {
    let read = Ok(vec![
        DirRecord::Unreadable,
        found("a", true, false),
        DirRecord::Unreadable,
        found("b.txt", false, false),
        DirRecord::Unreadable,
    ]);
    let listing = Listing::build(path(&["tmp"]), read).unwrap();
    assert_eq!(listing.len(), 2);
    assert_eq!(listing.get(0).unwrap().name(), "a");
    assert_eq!(listing.get(1).unwrap().name(), "b.txt");
    assert_eq!(listing.get(2), None);
}

#[test]
fn build_of_nothing_but_unreadable_children_is_empty() {
    let listing =
        Listing::build(DirPath::root(), Ok(vec![DirRecord::Unreadable, DirRecord::Unreadable]))
            .unwrap();
    assert!(listing.is_empty());
    assert_eq!(listing.len(), 0);
    assert_eq!(listing.get(0), None);
}

#[test]
fn build_of_an_empty_directory_is_empty() {
    let listing = Listing::build(path(&["empty"]), Ok(vec![])).unwrap();
    assert!(listing.is_empty());
    assert_eq!(listing.current_path(), &path(&["empty"]));
}

#[test]
fn build_reports_a_directory_that_cannot_be_opened() {
    assert_eq!(
        Listing::build(path(&["gone"]), Err(Unavailable::Missing)),
        Err(BrowseError::ListingUnavailable(Unavailable::Missing))
    );
    assert_eq!(
        Listing::build(path(&["tmp", "b.txt"]), Err(Unavailable::NotADirectory)),
        Err(BrowseError::ListingUnavailable(Unavailable::NotADirectory))
    );
    assert_eq!(
        Listing::build(path(&["root"]), Err(Unavailable::PermissionDenied)),
        Err(BrowseError::ListingUnavailable(Unavailable::PermissionDenied))
    );
}

#[test]
fn listing_from_entries_holds_them_in_order() {
    let dir = path(&["tmp"]);
    let entries = vec![
        Entry::new(&dir, &found("x", false, false)).unwrap(),
        Entry::new(&dir, &found("y", true, false)).unwrap(),
    ];
    let listing = Listing::from_entries(dir.clone(), entries.clone());
    assert_eq!(listing.current_path(), &dir);
    assert_eq!(listing.entries(), &entries);
    assert_eq!(listing.clone(), listing);
}

#[test]
fn messages_name_the_condition() {
    assert_eq!(
        BrowseError::ListingUnavailable(Unavailable::Missing).message(),
        "no such directory"
    );
    assert_eq!(
        BrowseError::ListingUnavailable(Unavailable::NotADirectory).message(),
        "not a directory"
    );
    assert_eq!(
        BrowseError::ListingUnavailable(Unavailable::PermissionDenied).message(),
        "permission denied"
    );
    assert_eq!(
        BrowseError::ListingUnavailable(Unavailable::Other).message(),
        "directory cannot be read"
    );
    assert_eq!(
        BrowseError::UnsupportedEntryAction(EntryType::File).message(),
        "viewing files is not yet supported"
    );
    assert_eq!(
        BrowseError::UnsupportedEntryAction(EntryType::Sym).message(),
        "following links is not yet supported"
    );
    assert_eq!(BrowseError::EntryMetadataUnreadable.message(), "metadata cannot be read");
}
