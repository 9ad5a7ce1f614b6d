//! The browser as a state machine over mathematical values, and what holds
//! of its moves.

use crate::entry::{DirRecord, EntryModel, EntryType};
use crate::error::BrowseError;
use crate::input::Command;
use crate::listing::{built, lemma_built_wf, ListingModel, ReadModel};
use vstd::prelude::*;

verus! {

/// How an attempt to enter the selected entry ended when nothing went wrong.
#[derive(Clone, Copy, Debug, PartialEq, Eq, Structural)]
pub enum Entered {
    /// No row was selected, so nothing was done.
    NothingSelected,
    /// The browser now shows the directory that was selected.
    Descended,
}

/// Whether the loop that drives the browser goes on.
#[derive(Clone, Copy, Debug, PartialEq, Eq, Structural)]
pub enum Flow {
    /// The browser was told to quit.
    Quit,
    /// The browser waits for the next event.
    Continue,
}

/// What the browser's state stands for: the directory it is in, the listing
/// it shows, and the row the cursor is on, if it is on any.
pub struct BrowserModel {
    pub path: Seq<Seq<char>>,
    pub listing: ListingModel,
    pub selection: Option<nat>,
}

impl BrowserModel {
    /// The listing is that of the current directory, and the cursor is on
    /// one of its rows or on none.
    pub open spec fn wf(self) -> bool {
        &&& self.listing.wf()
        &&& self.listing.current_path == self.path
        &&& match self.selection {
            Some(i) => i < self.listing.entries.len(),
            None => true,
        }
    }

    /// The number of rows.
    pub open spec fn len(self) -> nat {
        self.listing.entries.len()
    }

    /// The state in which `path` has just been read as `records`: its
    /// listing, and no row selected.
    pub open spec fn opened(path: Seq<Seq<char>>, records: Seq<DirRecord>) -> BrowserModel {
        BrowserModel { path, listing: built(path, records), selection: None }
    }

    /// The cursor one row further down: on the first row if it was on none
    /// or on the last. Nothing changes where there is no row.
    pub open spec fn move_next(self) -> BrowserModel {
        if self.len() == 0 {
            self
        } else {
            let row: nat = match self.selection {
                Some(i) => if i + 1 >= self.len() {
                    0
                } else {
                    i + 1
                },
                None => 0,
            };
            BrowserModel { selection: Some(row), ..self }
        }
    }

    /// The cursor one row further up: on the last row if it was on none or
    /// on the first. Nothing changes where there is no row.
    pub open spec fn move_previous(self) -> BrowserModel {
        if self.len() == 0 {
            self
        } else {
            let row: nat = match self.selection {
                Some(i) => if i == 0 {
                    (self.len() - 1) as nat
                } else {
                    (i - 1) as nat
                },
                None => (self.len() - 1) as nat,
            };
            BrowserModel { selection: Some(row), ..self }
        }
    }

    /// The cursor on no row.
    pub open spec fn deselect(self) -> BrowserModel {
        BrowserModel { selection: None, ..self }
    }

    /// The entry that the cursor is on.
    pub open spec fn selected_entry(self) -> Option<EntryModel> {
        match self.selection {
            Some(i) if i < self.len() => Some(self.listing.entries[i as int]),
            _ => None,
        }
    }

    /// The directory that entering leads to: the current one with the name
    /// of the selected entry appended, where that entry is a directory.
    pub open spec fn enter_target(self) -> Option<Seq<Seq<char>>> {
        match self.selected_entry() {
            Some(entry) if entry.kind == EntryType::Dir => Some(self.path.push(entry.path.last())),
            _ => None,
        }
    }

    /// The directory that going up leads to: the current one without its
    /// last component, and the root from the root.
    pub open spec fn parent_path(self) -> Seq<Seq<char>> {
        if self.path.len() == 0 {
            self.path
        } else {
            self.path.drop_last()
        }
    }

    /// The state after trying to show `path`, whose reading ended as `read`:
    /// opened afresh if it could be read, and as before if not.
    pub open spec fn arrive(self, path: Seq<Seq<char>>, read: ReadModel) -> BrowserModel {
        match read {
            Ok(records) => BrowserModel::opened(path, records),
            Err(_) => self,
        }
    }

    /// The state after reading the current directory again.
    pub open spec fn refresh(self, read: ReadModel) -> BrowserModel {
        self.arrive(self.path, read)
    }

    /// The state after entering the selected entry, where `read` is how
    /// reading [`Self::enter_target`] ended. Without a directory under the
    /// cursor nothing changes, whatever `read` holds.
    pub open spec fn enter(self, read: ReadModel) -> BrowserModel {
        match self.enter_target() {
            Some(target) => self.arrive(target, read),
            None => self,
        }
    }

    /// What entering reports.
    pub open spec fn enter_report(self, read: ReadModel) -> Result<Entered, BrowseError> {
        match self.selected_entry() {
            None => Ok(Entered::NothingSelected),
            Some(entry) => if entry.kind == EntryType::Dir {
                match read {
                    Ok(_) => Ok(Entered::Descended),
                    Err(why) => Err(BrowseError::ListingUnavailable(why)),
                }
            } else {
                Err(BrowseError::UnsupportedEntryAction(entry.kind))
            },
        }
    }

    /// The state after going up, where `read` is how reading
    /// [`Self::parent_path`] ended.
    pub open spec fn go_up(self, read: ReadModel) -> BrowserModel {
        self.arrive(self.parent_path(), read)
    }

    /// What going up, or reading the current directory again, reports.
    pub open spec fn arrive_report(read: ReadModel) -> Result<(), BrowseError> {
        match read {
            Ok(_) => Ok(()),
            Err(why) => Err(BrowseError::ListingUnavailable(why)),
        }
    }

    /// The directory that has to be read before `command` can be carried out,
    /// if it needs one.
    pub open spec fn wanted(self, command: Command) -> Option<Seq<Seq<char>>> {
        match command {
            Command::Enter => self.enter_target(),
            Command::Ret => Some(self.parent_path()),
            _ => None,
        }
    }

    /// The state after `command`, where `read` is how reading
    /// [`Self::wanted`] ended.
    pub open spec fn apply(self, command: Command, read: ReadModel) -> BrowserModel {
        match command {
            Command::Quit => self,
            Command::Deselect => self.deselect(),
            Command::Next => self.move_next(),
            Command::Previous => self.move_previous(),
            Command::Enter => self.enter(read),
            Command::Ret => self.go_up(read),
            Command::Nothing => self,
        }
    }

    /// What carrying out `command` reports.
    pub open spec fn apply_report(self, command: Command, read: ReadModel) -> Result<
        Flow,
        BrowseError,
    > {
        match command {
            Command::Quit => Ok(Flow::Quit),
            Command::Enter => match self.enter_report(read) {
                Ok(_) => Ok(Flow::Continue),
                Err(error) => Err(error),
            },
            Command::Ret => match Self::arrive_report(read) {
                Ok(_) => Ok(Flow::Continue),
                Err(error) => Err(error),
            },
            _ => Ok(Flow::Continue),
        }
    }

    /// The state after moving the cursor down `times` times.
    pub open spec fn next_times(self, times: nat) -> BrowserModel
        decreases times,
    {
        if times == 0 {
            self
        } else {
            self.next_times((times - 1) as nat).move_next()
        }
    }

    /// The state after moving the cursor up `times` times.
    pub open spec fn previous_times(self, times: nat) -> BrowserModel
        decreases times,
    {
        if times == 0 {
            self
        } else {
            self.previous_times((times - 1) as nat).move_previous()
        }
    }
}

/// A freshly opened directory is a well-formed state.
pub proof fn lemma_opened_wf(path: Seq<Seq<char>>, records: Seq<DirRecord>)
    ensures
        BrowserModel::opened(path, records).wf(),
{
    lemma_built_wf(path, records);
}

/// No move leads out of the well-formed states: the cursor stays on a row of
/// the listing that is shown, and that listing is the one of the current
/// directory.
pub proof fn lemma_moves_keep_wf(state: BrowserModel, read: ReadModel)
    requires
        state.wf(),
    ensures
        state.move_next().wf(),
        state.move_previous().wf(),
        state.deselect().wf(),
        state.enter(read).wf(),
        state.go_up(read).wf(),
        state.refresh(read).wf(),
{
    if let Ok(records) = read {
        lemma_opened_wf(state.parent_path(), records);
        lemma_opened_wf(state.path, records);
        if let Some(target) = state.enter_target() {
            lemma_opened_wf(target, records);
        }
    }
}

/// Whenever a move has changed the current directory, no row is selected
/// and the listing shown is that of the new directory.
pub proof fn lemma_path_change_resets(state: BrowserModel, read: ReadModel)
    requires
        state.wf(),
    ensures
        state.enter(read).path != state.path ==> state.enter(read).selection is None
            && state.enter(read).listing.current_path == state.enter(read).path,
        state.go_up(read).path != state.path ==> state.go_up(read).selection is None
            && state.go_up(read).listing.current_path == state.go_up(read).path,
        state.enter_report(read) == Ok::<Entered, BrowseError>(Entered::Descended) ==> state.enter(
            read,
        ).selection is None && state.enter(read).listing.current_path == state.enter(read).path,
        read is Ok ==> state.go_up(read).selection is None && state.go_up(read).listing.current_path
            == state.go_up(read).path,
{
}

/// Where the cursor is after `times` moves down from a row, as long as
/// `times` is at most the number of rows.
proof fn lemma_next_times_from_row(state: BrowserModel, times: nat)
    requires
        state.wf(),
        state.selection is Some,
        times <= state.len(),
    ensures
        state.next_times(times) == (BrowserModel {
            selection: Some(
                if state.selection.unwrap() + times < state.len() {
                    state.selection.unwrap() + times
                } else {
                    (state.selection.unwrap() + times - state.len()) as nat
                },
            ),
            ..state
        }),
    decreases times,
{
    if times > 0 {
        lemma_next_times_from_row(state, (times - 1) as nat);
    }
}

/// Where the cursor is after `times` moves up from a row, as long as
/// `times` is at most the number of rows.
proof fn lemma_previous_times_from_row(state: BrowserModel, times: nat)
    requires
        state.wf(),
        state.selection is Some,
        times <= state.len(),
    ensures
        state.previous_times(times) == (BrowserModel {
            selection: Some(
                if times <= state.selection.unwrap() {
                    (state.selection.unwrap() - times) as nat
                } else {
                    (state.selection.unwrap() + state.len() - times) as nat
                },
            ),
            ..state
        }),
    decreases times,
{
    if times > 0 {
        lemma_previous_times_from_row(state, (times - 1) as nat);
    }
}

/// With the cursor on a row, moving it down as many times as there are rows
/// brings it back to that row, and nothing else has changed.
pub proof fn lemma_next_cycle(state: BrowserModel)
    requires
        state.wf(),
        state.selection is Some,
    ensures
        state.next_times(state.len()) == state,
{
    lemma_next_times_from_row(state, state.len());
}

/// With the cursor on a row, moving it up as many times as there are rows
/// brings it back to that row, and nothing else has changed.
pub proof fn lemma_previous_cycle(state: BrowserModel)
    requires
        state.wf(),
        state.selection is Some,
    ensures
        state.previous_times(state.len()) == state,
{
    lemma_previous_times_from_row(state, state.len());
}

/// With the cursor on no row, `times` moves down put it on row
/// `times - 1`, as long as there are that many rows.
pub proof fn lemma_next_times_from_none(state: BrowserModel, times: nat)
    requires
        state.wf(),
        state.selection is None,
        0 < times <= state.len(),
    ensures
        state.next_times(times) == (BrowserModel {
            selection: Some((times - 1) as nat),
            ..state
        }),
    decreases times,
{
    if times > 1 {
        lemma_next_times_from_none(state, (times - 1) as nat);
    } else {
        assert(state.next_times(0) == state);
    }
}

/// Where there is no row, moving the cursor leaves it on none.
pub proof fn lemma_moves_on_empty(state: BrowserModel)
    requires
        state.wf(),
        state.len() == 0,
    ensures
        state.selection is None,
        state.move_next() == state,
        state.move_previous() == state,
{
}

/// Where there is a row, deselecting and then moving down puts the cursor
/// on the first row, and deselecting and then moving up puts it on the last.
pub proof fn lemma_deselect_then_move(state: BrowserModel)
    requires
        state.len() > 0,
    ensures
        state.deselect().move_next().selection == Some(0nat),
        state.deselect().move_previous().selection == Some((state.len() - 1) as nat),
{
}

/// Entering with the cursor on no row changes nothing, whatever was read.
pub proof fn lemma_enter_without_selection(state: BrowserModel, read: ReadModel)
    requires
        state.selection is None,
    ensures
        state.enter(read) == state,
        state.enter_report(read) == Ok::<Entered, BrowseError>(Entered::NothingSelected),
{
}

/// Going up from a directory below the root and then entering the row of
/// that directory leads back to it.
///
/// `up` is what reading the parent gave, `row` the row in which the
/// directory that was left shows there, and `back` what reading it on the
/// way back gave. The cursor gets to `row` by `row + 1` moves down.
pub proof fn lemma_up_then_enter_returns(
    state: BrowserModel,
    up: Seq<DirRecord>,
    row: nat,
    back: Seq<DirRecord>,
)
    requires
        state.wf(),
        state.path.len() > 0,
        row < state.go_up(Ok(up)).len(),
        state.go_up(Ok(up)).listing.entries[row as int].kind == EntryType::Dir,
        state.go_up(Ok(up)).listing.entries[row as int].path == state.path,
    ensures
        state.go_up(Ok(up)).next_times(row + 1).selection == Some(row),
        state.go_up(Ok(up)).next_times(row + 1).enter(Ok(back)).path == state.path,
{
    let above = state.go_up(Ok(up));
    lemma_opened_wf(state.parent_path(), up);
    lemma_next_times_from_none(above, row + 1);
    assert(state.path.drop_last().push(state.path.last()) =~= state.path);
}

} // verus!
