//! The children of a directory: what was read of them, and what the browser
//! keeps.

use crate::error::BrowseError;
use crate::path::DirPath;
use vstd::prelude::*;

verus! {

/// What a child of a directory is, as far as the browser tells children
/// apart.
#[derive(Clone, Copy, Debug, PartialEq, Eq, Structural)]
pub enum EntryType {
    /// A directory.
    Dir,
    /// A regular file, or anything that is neither of the other two.
    File,
    /// A symbolic link, whatever it points to.
    Sym,
}

/// The colours that rows are drawn in.
#[derive(Clone, Copy, Debug, PartialEq, Eq, Structural)]
pub enum Tint {
    /// The terminal's own foreground.
    Plain,
    LightBlue,
    LightGreen,
}

/// How the row of an entry is drawn.
#[derive(Clone, Copy, Debug, PartialEq, Eq, Structural)]
pub struct EntryStyle {
    pub color: Tint,
    pub bold: bool,
}

/// The kind of a child whose metadata says `is_dir` and `is_symlink`.
///
/// A directory is a directory whatever else it is; what is no directory but
/// a link is a link; the rest are files. Metadata that does not follow links
/// never reports a link as a directory, so a link to a directory is a link.
pub open spec fn classify(is_dir: bool, is_symlink: bool) -> EntryType {
    if is_dir {
        EntryType::Dir
    } else if is_symlink {
        EntryType::Sym
    } else {
        EntryType::File
    }
}

/// The style that rows of kind `kind` are drawn in: directories bold and
/// light blue, links light green, files plain.
pub open spec fn style_of(kind: EntryType) -> EntryStyle {
    match kind {
        EntryType::Dir => EntryStyle { color: Tint::LightBlue, bold: true },
        EntryType::File => EntryStyle { color: Tint::Plain, bold: false },
        EntryType::Sym => EntryStyle { color: Tint::LightGreen, bold: false },
    }
}

impl EntryType {
    /// The kind that metadata with these two answers stands for.
    pub fn from_metadata(is_dir: bool, is_symlink: bool) -> (kind: EntryType)
        ensures
            kind == classify(is_dir, is_symlink),
    {
        let mut kind = EntryType::File;
        if is_dir {
            kind = EntryType::Dir;
        } else if is_symlink {
            kind = EntryType::Sym;
        }
        kind
    }

    /// The style of rows of this kind.
    pub fn style(&self) -> (style: EntryStyle)
        ensures
            style == style_of(*self),
    {
        match self {
            EntryType::Dir => EntryStyle { color: Tint::LightBlue, bold: true },
            EntryType::File => EntryStyle { color: Tint::Plain, bold: false },
            EntryType::Sym => EntryStyle { color: Tint::LightGreen, bold: false },
        }
    }
}

/// One child of a directory as the enumeration gave it.
#[derive(Debug, PartialEq, Eq)]
pub enum DirRecord {
    /// The child, or its metadata, could not be read.
    Unreadable,
    /// A child with its name and what its metadata says, links not followed.
    Found { name: String, is_dir: bool, is_symlink: bool },
}

/// What an [`Entry`] stands for: where the child is and what it is.
pub struct EntryModel {
    pub path: Seq<Seq<char>>,
    pub kind: EntryType,
}

/// The entry that `record`, read in the directory `dir`, gives rise to, if
/// any.
pub open spec fn listed_entry(dir: Seq<Seq<char>>, record: DirRecord) -> Option<EntryModel> {
    match record {
        DirRecord::Unreadable => None,
        DirRecord::Found { name, is_dir, is_symlink } => Some(
            EntryModel { path: dir.push(name@), kind: classify(is_dir, is_symlink) },
        ),
    }
}

/// One cell of the table that shows a listing.
#[derive(Debug, PartialEq, Eq)]
pub struct TableCell {
    pub text: String,
    pub kind: EntryType,
    pub style: EntryStyle,
}

/// One row of that table.
#[derive(Debug, PartialEq, Eq)]
pub struct TableRow {
    pub cells: Vec<TableCell>,
}

/// Whether `cell` is the cell that shows `entry`: labelled with the last
/// component of its path and styled after its kind.
pub open spec fn cell_shows(cell: TableCell, entry: EntryModel) -> bool {
    &&& cell.text@ == entry.path.last()
    &&& cell.kind == entry.kind
    &&& cell.style == style_of(entry.kind)
}

/// Whether `row` is the row that shows `entry`: that one cell and no other.
pub open spec fn row_shows(row: TableRow, entry: EntryModel) -> bool {
    &&& row.cells@.len() == 1
    &&& cell_shows(row.cells@[0], entry)
}

/// A child of a directory: its absolute path and its kind. The path is
/// never the root.
#[derive(Debug, PartialEq, Eq)]
pub struct Entry {
    p: DirPath,
    t: EntryType,
}

impl View for Entry {
    type V = EntryModel;

    closed spec fn view(&self) -> EntryModel {
        EntryModel { path: self.p@, kind: self.t }
    }
}

impl Clone for Entry {
    fn clone(&self) -> (copy: Self)
        ensures
            copy@ == self@,
    {
        proof {
            use_type_invariant(self);
        }
        Entry { p: self.p.clone(), t: self.t }
    }
}

impl Entry {
    #[verifier::type_invariant]
    pub closed spec fn below_root(&self) -> bool {
        self.p@.len() > 0
    }

    /// The entry for `record`, which was read in the directory `dir`. A
    /// record that could not be read gives no entry.
    pub fn new(dir: &DirPath, record: &DirRecord) -> (made: Result<Entry, BrowseError>)
        ensures
            match listed_entry(dir@, *record) {
                Some(entry) => made is Ok && made.unwrap()@ == entry,
                None => made == Err::<Entry, BrowseError>(BrowseError::EntryMetadataUnreadable),
            },
    {
        match record {
            DirRecord::Unreadable => Err(BrowseError::EntryMetadataUnreadable),
            DirRecord::Found { name, is_dir, is_symlink } => {
                let t = EntryType::from_metadata(*is_dir, *is_symlink);
                Ok(Entry { p: dir.join(name), t })
            },
        }
    }

    /// The absolute path of the child.
    pub fn path(&self) -> (path: &DirPath)
        ensures
            path@ == self@.path,
            path@.len() > 0,
    {
        proof {
            use_type_invariant(self);
        }
        &self.p
    }

    /// What the child is.
    pub fn kind(&self) -> (kind: EntryType)
        ensures
            kind == self@.kind,
    {
        self.t
    }

    /// The name of the child: the last component of its path.
    pub fn name(&self) -> (name: &String)
        ensures
            self@.path.len() > 0,
            name@ == self@.path.last(),
    {
        proof {
            use_type_invariant(self);
        }
        self.p.last()
    }

    /// The cell that shows this entry.
    pub fn as_cell(&self) -> (cell: TableCell)
        ensures
            cell_shows(cell, self@),
    {
        TableCell { text: self.name().clone(), kind: self.t, style: self.t.style() }
    }

    /// The row that shows this entry.
    pub fn as_row(&self) -> (row: TableRow)
        ensures
            row_shows(row, self@),
    {
        let mut cells: Vec<TableCell> = Vec::new();
        cells.push(self.as_cell());
        TableRow { cells }
    }
}

} // verus!
