//! The browser's state and the moves that change it.

use crate::entry::{Entry, EntryType, TableRow};
use crate::error::BrowseError;
use crate::input::Command;
use crate::listing::{read_model, DirRead, Listing};
use crate::navigation::{BrowserModel, Entered, Flow};
use crate::path::{path_text, DirPath};
use crate::screen::{cursor, rows_show, shows, Screen};
use vstd::prelude::*;
use vstd::string::*;

verus! {

/// The state of the browser: the directory it is in, the listing of that
/// directory, and the row the cursor is on, if it is on any.
///
/// The listing is always that of the current directory, and the cursor is
/// never on a row that the listing lacks. A move that cannot show the
/// directory it leads to leaves the state as it was.
#[derive(Debug, PartialEq, Eq)]
pub struct Entries {
    p: DirPath,
    s: Option<usize>,
    v: Listing,
}

impl View for Entries {
    type V = BrowserModel;

    closed spec fn view(&self) -> BrowserModel {
        BrowserModel { path: self.p@, listing: self.v@, selection: cursor(self.s) }
    }
}

impl Clone for Entries {
    fn clone(&self) -> (copy: Self)
        ensures
            copy@ == self@,
    {
        proof {
            use_type_invariant(self);
        }
        Entries { p: self.p.clone(), s: self.s, v: self.v.clone() }
    }
}

impl Entries {
    #[verifier::type_invariant]
    pub open spec fn well_formed(&self) -> bool {
        self@.wf()
    }

    /// The browser in the directory `path`, given how reading that directory
    /// ended. No row is selected.
    pub fn new(path: DirPath, read: DirRead) -> (made: Result<Entries, BrowseError>)
        ensures
            match read {
                Ok(records) => made is Ok && made.unwrap()@ == BrowserModel::opened(
                    path@,
                    records@,
                ),
                Err(why) => made == Err::<Entries, BrowseError>(
                    BrowseError::ListingUnavailable(why),
                ),
            },
    {
        match Listing::build(path.clone(), read) {
            Ok(listing) => {
                proof {
                    use_type_invariant(&listing);
                }
                Ok(Entries { p: path, s: None, v: listing })
            },
            Err(error) => Err(error),
        }
    }

    /// The browser that shows `entries`, in the directory that holds the
    /// first of them. No row is selected.
    pub fn from_iter(entries: Vec<Entry>) -> (made: Entries)
        requires
            entries@.len() > 0,
            forall|i: int|
                0 <= i < entries@.len() ==> {
                    &&& (#[trigger] entries@[i])@.path.len() > 0
                    &&& entries@[i]@.path.drop_last() == entries@[0]@.path.drop_last()
                },
        ensures
            made@.path == entries@[0]@.path.drop_last(),
            made@.listing.current_path == made@.path,
            made@.listing.entries == Seq::new(entries@.len(), |i: int| entries@[i]@),
            made@.selection is None,
    {
        let mut dir = entries[0].path().clone();
        dir.pop();
        let listing = Listing::from_entries(dir.clone(), entries);
        proof {
            use_type_invariant(&listing);
        }
        Entries { p: dir, s: None, v: listing }
    }

    /// Reads the current directory anew: `read` is how reading it ended. A
    /// directory that can no longer be read leaves the state as it was.
    pub fn update(&mut self, read: DirRead) -> (report: Result<(), BrowseError>)
        ensures
            final(self)@ == old(self)@.refresh(read_model(read)),
            report == BrowserModel::arrive_report(read_model(read)),
            report is Err ==> *final(self) == *old(self),
            report is Ok ==> final(self)@.selection is None,
            final(self)@.path == old(self)@.path,
            final(self)@.listing.current_path == final(self)@.path,
    {
        proof {
            use_type_invariant(&*self);
        }
        match Entries::new(self.p.clone(), read) {
            Ok(fresh) => {
                *self = fresh;
                Ok(())
            },
            Err(error) => Err(error),
        }
    }

    /// Moves the cursor one row down: to the first row if it was on none or
    /// on the last.
    pub fn next(&mut self)
        ensures
            final(self)@ == old(self)@.move_next(),
            old(self)@.len() == 0 ==> final(self)@.selection is None,
    {
        proof {
            use_type_invariant(&*self);
        }
        let rows: usize = self.v.len();
        if rows == 0 {
            return ;
        }
        let row: usize = match self.s {
            Some(i) => if i >= rows - 1 {
                0
            } else {
                i + 1
            },
            None => 0,
        };
        self.s = Some(row);
    }

    /// Moves the cursor one row up: to the last row if it was on none or on
    /// the first.
    pub fn previous(&mut self)
        ensures
            final(self)@ == old(self)@.move_previous(),
            old(self)@.len() == 0 ==> final(self)@.selection is None,
    {
        proof {
            use_type_invariant(&*self);
        }
        let rows: usize = self.v.len();
        if rows == 0 {
            return ;
        }
        let row: usize = match self.s {
            Some(i) => if i == 0 {
                rows - 1
            } else {
                i - 1
            },
            None => rows - 1,
        };
        self.s = Some(row);
    }

    /// Takes the cursor off its row.
    pub fn deselect(&mut self)
        ensures
            final(self)@ == old(self)@.deselect(),
    {
        proof {
            use_type_invariant(&*self);
        }
        if self.s.is_some() {
            self.s = None;
        }
    }

    /// The directory that [`Self::enter`] wants read: the selected entry, if
    /// it is a directory.
    pub fn enter_path(&self) -> (target: Option<DirPath>)
        ensures
            match target {
                Some(path) => self@.enter_target() == Some(path@),
                None => self@.enter_target() is None,
            },
    {
        proof {
            use_type_invariant(self);
        }
        match self.s {
            Some(row) => {
                let entry = &self.v.entries()[row];
                match entry.kind() {
                    EntryType::Dir => Some(self.p.join(entry.name())),
                    _ => None,
                }
            },
            None => None,
        }
    }

    /// The directory that [`Self::ret`] wants read: the parent of the
    /// current one, and the root at the root.
    pub fn parent_path(&self) -> (parent: DirPath)
        ensures
            parent@ == self@.parent_path(),
    {
        match self.p.parent() {
            Some(parent) => parent,
            None => self.p.clone(),
        }
    }

    /// Enters the selected entry, where `read` is how reading
    /// [`Self::enter_path`] ended.
    ///
    /// With no row selected nothing happens. A directory that could be read
    /// becomes the current one, with no row selected. One that could not be
    /// read, and an entry that is no directory, are reported, and the state
    /// stays as it was. `read` is only looked at where a directory is
    /// selected.
    pub fn enter(&mut self, read: DirRead) -> (report: Result<Entered, BrowseError>)
        ensures
            final(self)@ == old(self)@.enter(read_model(read)),
            report == old(self)@.enter_report(read_model(read)),
            old(self)@.selection is None ==> *final(self) == *old(self),
            report != Ok::<Entered, BrowseError>(Entered::Descended) ==> *final(self) == *old(self),
            report == Ok::<Entered, BrowseError>(Entered::Descended) ==> {
                &&& Some(final(self)@.path) == old(self)@.enter_target()
                &&& final(self)@.listing.current_path == final(self)@.path
                &&& final(self)@.selection is None
            },
    {
        proof {
            use_type_invariant(&*self);
        }
        let target = match self.s {
            Some(row) => {
                let entry = &self.v.entries()[row];
                match entry.kind() {
                    EntryType::Dir => self.p.join(entry.name()),
                    other => {
                        return Err(BrowseError::UnsupportedEntryAction(other));
                    },
                }
            },
            None => {
                return Ok(Entered::NothingSelected);
            },
        };
        match Entries::new(target, read) {
            Ok(fresh) => {
                *self = fresh;
                Ok(Entered::Descended)
            },
            Err(error) => Err(error),
        }
    }

    /// Goes up to the parent directory, where `read` is how reading
    /// [`Self::parent_path`] ended.
    ///
    /// A parent that could be read becomes the current directory, with no
    /// row selected; at the root that is the root once more. One that could
    /// not be read is reported, and the state stays as it was.
    pub fn ret(&mut self, read: DirRead) -> (report: Result<(), BrowseError>)
        ensures
            final(self)@ == old(self)@.go_up(read_model(read)),
            report == BrowserModel::arrive_report(read_model(read)),
            report is Err ==> *final(self) == *old(self),
            report is Ok ==> {
                &&& final(self)@.path == old(self)@.parent_path()
                &&& final(self)@.listing.current_path == final(self)@.path
                &&& final(self)@.selection is None
            },
    {
        match Entries::new(self.parent_path(), read) {
            Ok(fresh) => {
                *self = fresh;
                Ok(())
            },
            Err(error) => Err(error),
        }
    }

    /// The directory that has to be read before `command` is carried out, if
    /// it needs one.
    pub fn needs(&self, command: Command) -> (wanted: Option<DirPath>)
        ensures
            match wanted {
                Some(path) => self@.wanted(command) == Some(path@),
                None => self@.wanted(command) is None,
            },
    {
        match command {
            Command::Enter => self.enter_path(),
            Command::Ret => Some(self.parent_path()),
            _ => None,
        }
    }

    /// Carries out `command`, where `read` is how reading [`Self::needs`]
    /// ended; it is not looked at where nothing was needed.
    pub fn apply(&mut self, command: Command, read: DirRead) -> (report: Result<Flow, BrowseError>)
        ensures
            final(self)@ == old(self)@.apply(command, read_model(read)),
            report == old(self)@.apply_report(command, read_model(read)),
            report is Err ==> *final(self) == *old(self),
            final(self)@.path != old(self)@.path ==> final(self)@.selection is None,
            final(self)@.listing.current_path == final(self)@.path,
    {
        proof {
            use_type_invariant(&*self);
        }
        match command {
            Command::Quit => Ok(Flow::Quit),
            Command::Deselect => {
                self.deselect();
                Ok(Flow::Continue)
            },
            Command::Next => {
                self.next();
                Ok(Flow::Continue)
            },
            Command::Previous => {
                self.previous();
                Ok(Flow::Continue)
            },
            Command::Enter => match self.enter(read) {
                Ok(_) => Ok(Flow::Continue),
                Err(error) => Err(error),
            },
            Command::Ret => match self.ret(read) {
                Ok(_) => Ok(Flow::Continue),
                Err(error) => Err(error),
            },
            Command::Nothing => Ok(Flow::Continue),
        }
    }

    /// The current directory.
    pub fn path(&self) -> (path: &DirPath)
        ensures
            path@ == self@.path,
    {
        &self.p
    }

    /// The listing that is shown. It is the listing of the current
    /// directory.
    pub fn listing(&self) -> (listing: &Listing)
        ensures
            listing@ == self@.listing,
            listing@.current_path == self@.path,
    {
        proof {
            use_type_invariant(self);
        }
        &self.v
    }

    /// The row the cursor is on, which is always a row of the listing.
    pub fn get_state(&self) -> (selected: Option<usize>)
        ensures
            cursor(selected) == self@.selection,
            selected is Some ==> selected.unwrap() < self@.len(),
    {
        proof {
            use_type_invariant(self);
        }
        self.s
    }

    /// The entry that the cursor is on.
    pub fn selected_entry(&self) -> (entry: Option<&Entry>)
        ensures
            match entry {
                Some(entry) => self@.selected_entry() == Some(entry@),
                None => self@.selected_entry() is None,
            },
    {
        proof {
            use_type_invariant(self);
        }
        match self.s {
            Some(row) => self.v.get(row),
            None => None,
        }
    }

    /// The rows of the table, one for each entry.
    pub fn as_table(&self) -> (rows: Vec<TableRow>)
        ensures
            rows_show(rows@, self@),
    {
        let entries = self.v.entries();
        let mut rows: Vec<TableRow> = Vec::new();
        let mut i: usize = 0;
        while i < entries.len()
            invariant
                i <= entries.len(),
                entries@.len() == self@.listing.entries.len(),
                forall|k: int|
                    0 <= k < entries@.len() ==> (#[trigger] entries@[k])@
                        == self@.listing.entries[k],
                rows@.len() == i,
                forall|k: int|
                    0 <= k < i ==> crate::entry::row_shows(
                        #[trigger] rows@[k],
                        self@.listing.entries[k],
                    ),
            decreases entries.len() - i,
        {
            rows.push(entries[i].as_row());
            i = i + 1;
        }
        rows
    }

    /// The header of the table: the word `File`, then the current directory.
    pub fn header(&self) -> (cells: Vec<String>)
        ensures
            cells@.len() == 2,
            cells@[0]@ == "File"@,
            cells@[1]@ == path_text(self@.path),
    {
        let mut cells: Vec<String> = Vec::new();
        cells.push(String::from_str("File"));
        cells.push(self.p.to_text());
        cells
    }

    /// Everything that is needed to draw the browser. The state is not
    /// changed.
    pub fn current_view(&self) -> (screen: Screen)
        ensures
            shows(screen, self@),
    {
        Screen { title: self.p.to_text(), rows: self.as_table(), selected: self.s }
    }
}

} // verus!
