//! A plain table of names in two columns, with a cursor.

use crate::error::Unavailable;
use crate::screen::cursor;
use vstd::prelude::*;
use vstd::string::*;

verus! {

/// How enumerating the names in a directory ended: with one item for each
/// child, `None` where the enumeration failed on it, or with the reason why
/// the directory could not be opened.
pub type NameRead = Result<Vec<Option<String>>, Unavailable>;

/// What a [`FileTable`] stands for: its rows, each the texts of its cells,
/// and the row the cursor is on.
pub struct FileTableModel {
    pub rows: Seq<Seq<Seq<char>>>,
    pub selection: Option<nat>,
}

/// The texts of the cells of `row`.
pub open spec fn row_texts(row: Vec<String>) -> Seq<Seq<char>> {
    Seq::new(row@.len(), |j: int| row@[j]@)
}

/// The row that stands for the parent directory.
pub open spec fn parent_row() -> Seq<Seq<char>> {
    seq![".."@, ""@]
}

/// The row of a child called `name`: the name, and `0` for its size.
pub open spec fn name_row(name: Seq<char>) -> Seq<Seq<char>> {
    seq![name, "0"@]
}

/// The function that turns an enumerated item into its row.
pub open spec fn row_maker() -> spec_fn(Option<String>) -> Option<Seq<Seq<char>>> {
    |item: Option<String>|
        match item {
            Some(name) => Some(name_row(name@)),
            None => None,
        }
}

/// The rows of the table of a directory: the parent row, then one row for
/// each child that was enumerated, in that order. A directory that could
/// not be opened shows the parent row alone.
pub open spec fn dir_rows(read: NameRead) -> Seq<Seq<Seq<char>>> {
    match read {
        Ok(names) => seq![parent_row()] + names@.filter_map(row_maker()),
        Err(_) => seq![parent_row()],
    }
}

impl FileTableModel {
    /// There is a row, and the cursor is on a row or on none.
    pub open spec fn wf(self) -> bool {
        &&& self.rows.len() > 0
        &&& match self.selection {
            Some(i) => i < self.rows.len(),
            None => true,
        }
    }

    /// The cursor one row further down: on the first row if it was on none
    /// or on the last.
    pub open spec fn move_next(self) -> FileTableModel {
        let row: nat = match self.selection {
            Some(i) => if i + 1 >= self.rows.len() {
                0
            } else {
                i + 1
            },
            None => 0,
        };
        FileTableModel { selection: Some(row), ..self }
    }

    /// The cursor one row further up, and on the last row from the first.
    /// From no row it goes to the first.
    pub open spec fn move_previous(self) -> FileTableModel {
        let row: nat = match self.selection {
            Some(i) => if i == 0 {
                (self.rows.len() - 1) as nat
            } else {
                (i - 1) as nat
            },
            None => 0,
        };
        FileTableModel { selection: Some(row), ..self }
    }
}

/// A table of names with a cursor. It always has at least one row.
#[derive(Debug, PartialEq, Eq)]
pub struct FileTable {
    state: Option<usize>,
    items: Vec<Vec<String>>,
}

impl View for FileTable {
    type V = FileTableModel;

    closed spec fn view(&self) -> FileTableModel {
        FileTableModel {
            rows: Seq::new(self.items@.len(), |i: int| row_texts(self.items@[i])),
            selection: cursor(self.state),
        }
    }
}

/// A row of two cells.
fn two_cells(first: String, second: String) -> (row: Vec<String>)
    ensures
        row_texts(row) == seq![first@, second@],
{
    let mut row: Vec<String> = Vec::new();
    row.push(first);
    row.push(second);
    assert(row_texts(row) =~= seq![first@, second@]);
    row
}

impl FileTable {
    #[verifier::type_invariant]
    pub open spec fn well_formed(&self) -> bool {
        self@.wf()
    }

    /// A table with the one row `C1`, `C2`, and the cursor on no row.
    pub fn new() -> (table: FileTable)
        ensures
            table@.rows == seq![seq!["C1"@, "C2"@]],
            table@.selection is None,
    {
        let mut items: Vec<Vec<String>> = Vec::new();
        items.push(two_cells(String::from_str("C1"), String::from_str("C2")));
        let table = FileTable { state: None, items };
        assert(table@.rows =~= seq![seq!["C1"@, "C2"@]]);
        table
    }

    /// The table of a directory, given how enumerating its names ended. The
    /// cursor is on no row.
    pub fn from_dir(read: NameRead) -> (table: FileTable)
        ensures
            table@.rows == dir_rows(read),
            table@.selection is None,
    {
        let mut items: Vec<Vec<String>> = Vec::new();
        items.push(two_cells(String::from_str(".."), String::from_str("")));
        match read {
            Ok(names) => {
                let mut i: usize = 0;
                while i < names.len()
                    invariant
                        i <= names.len(),
                        items@.len() > 0,
                        Seq::new(items@.len(), |k: int| row_texts(items@[k])) == seq![
                            parent_row(),
                        ] + names@.take(i as int).filter_map(row_maker()),
                    decreases names.len() - i,
                {
                    let ghost before = Seq::new(items@.len(), |k: int| row_texts(items@[k]));
                    proof {
                        names@.lemma_filter_map_take_succ(row_maker(), i as int);
                    }
                    match &names[i] {
                        Some(name) => {
                            items.push(two_cells(name.clone(), String::from_str("0")));
                            assert(Seq::new(items@.len(), |k: int| row_texts(items@[k]))
                                =~= before + seq![name_row(name@)]);
                        },
                        None => {},
                    }
                    i = i + 1;
                }
                assert(names@.take(i as int) =~= names@);
                FileTable { state: None, items }
            },
            Err(_) => {
                let table = FileTable { state: None, items };
                assert(table@.rows =~= seq![parent_row()]);
                table
            },
        }
    }

    /// Moves the cursor one row down: to the first row if it was on none or
    /// on the last.
    pub fn next(&mut self)
        ensures
            final(self)@ == old(self)@.move_next(),
    {
        proof {
            use_type_invariant(&*self);
        }
        let row: usize = match self.state {
            Some(i) => if i >= self.items.len() - 1 {
                0
            } else {
                i + 1
            },
            None => 0,
        };
        self.state = Some(row);
    }

    /// Moves the cursor one row up, and to the last row from the first.
    /// From no row it goes to the first.
    pub fn previous(&mut self)
        ensures
            final(self)@ == old(self)@.move_previous(),
    {
        proof {
            use_type_invariant(&*self);
        }
        let row: usize = match self.state {
            Some(i) => if i == 0 {
                self.items.len() - 1
            } else {
                i - 1
            },
            None => 0,
        };
        self.state = Some(row);
    }

    /// The rows, each with the texts of its cells.
    pub fn rows(&self) -> (rows: &Vec<Vec<String>>)
        ensures
            rows@.len() == self@.rows.len(),
            rows@.len() > 0,
            forall|i: int| 0 <= i < rows@.len() ==> row_texts(#[trigger] rows@[i]) == self@.rows[i],
    {
        proof {
            use_type_invariant(self);
        }
        &self.items
    }

    /// The row the cursor is on, which is always a row of the table.
    pub fn selected(&self) -> (selected: Option<usize>)
        ensures
            cursor(selected) == self@.selection,
            selected is Some ==> selected.unwrap() < self@.rows.len(),
    {
        proof {
            use_type_invariant(self);
        }
        self.state
    }
}

} // verus!
