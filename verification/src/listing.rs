//! The children of one directory, as they were when it was last read.

use crate::entry::{listed_entry, DirRecord, Entry, EntryModel};
use crate::error::{BrowseError, Unavailable};
use crate::path::DirPath;
use vstd::prelude::*;

verus! {

/// How reading a directory ended: with the records of its children, in the
/// order of enumeration, or with the reason why it could not be opened.
pub type DirRead = Result<Vec<DirRecord>, Unavailable>;

/// A [`DirRead`] as contracts see it.
pub type ReadModel = Result<Seq<DirRecord>, Unavailable>;

/// What `read` is to contracts.
pub open spec fn read_model(read: DirRead) -> ReadModel {
    match read {
        Ok(records) => Ok(records@),
        Err(why) => Err(why),
    }
}

/// What a [`Listing`] stands for: a directory and the entries found in it.
pub struct ListingModel {
    pub current_path: Seq<Seq<char>>,
    pub entries: Seq<EntryModel>,
}

impl ListingModel {
    /// Every entry lies directly in the directory that the listing is of.
    pub open spec fn wf(self) -> bool {
        forall|i: int|
            0 <= i < self.entries.len() ==> {
                &&& (#[trigger] self.entries[i]).path.len() > 0
                &&& self.entries[i].path.drop_last() == self.current_path
            }
    }
}

/// The function that turns a record read in `dir` into its entry.
pub open spec fn lister(dir: Seq<Seq<char>>) -> spec_fn(DirRecord) -> Option<EntryModel> {
    |record: DirRecord| listed_entry(dir, record)
}

/// The listing of `dir` that `records` give: one entry for each record that
/// could be read, in the order of the records.
pub open spec fn built(dir: Seq<Seq<char>>, records: Seq<DirRecord>) -> ListingModel {
    ListingModel { current_path: dir, entries: records.filter_map(lister(dir)) }
}

/// Whatever was read, the listing built of it is well formed.
pub proof fn lemma_built_wf(dir: Seq<Seq<char>>, records: Seq<DirRecord>)
    ensures
        built(dir, records).wf(),
    decreases records.len(),
{
    if records.len() > 0 {
        lemma_built_wf(dir, records.drop_last());
        let rest = records.drop_last().filter_map(lister(dir));
        match listed_entry(dir, records.last()) {
            Some(entry) => {
                assert(records.filter_map(lister(dir)) == rest + seq![entry]);
                assert(entry.path.drop_last() =~= dir);
            },
            None => {
                assert(records.filter_map(lister(dir)) == rest);
            },
        }
    }
}

/// The entries of one directory, in the order in which they were enumerated.
#[derive(Debug, PartialEq, Eq)]
pub struct Listing {
    dir: DirPath,
    entries: Vec<Entry>,
}

impl View for Listing {
    type V = ListingModel;

    closed spec fn view(&self) -> ListingModel {
        ListingModel {
            current_path: self.dir@,
            entries: Seq::new(self.entries@.len(), |i: int| self.entries@[i]@),
        }
    }
}

impl Clone for Listing {
    fn clone(&self) -> (copy: Self)
        ensures
            copy@ == self@,
    {
        proof {
            use_type_invariant(self);
        }
        let mut entries: Vec<Entry> = Vec::new();
        let mut i: usize = 0;
        while i < self.entries.len()
            invariant
                i <= self.entries.len(),
                entries@.len() == i,
                forall|k: int| 0 <= k < i ==> (#[trigger] entries@[k])@ == self.entries@[k]@,
            decreases self.entries.len() - i,
        {
            entries.push(self.entries[i].clone());
            i = i + 1;
        }
        let dir = self.dir.clone();
        assert(Seq::new(entries@.len(), |k: int| entries@[k]@) =~= self@.entries);
        Listing { dir, entries }
    }
}

impl Listing {
    #[verifier::type_invariant]
    pub open spec fn well_formed(&self) -> bool {
        self@.wf()
    }

    /// The listing of the directory `path`, given how reading it ended.
    ///
    /// Children that could not be read are left out without a word. Only a
    /// directory that could not be opened at all gives an error.
    pub fn build(path: DirPath, read: DirRead) -> (made: Result<Listing, BrowseError>)
        ensures
            match read {
                Ok(records) => made is Ok && made.unwrap()@ == built(path@, records@),
                Err(why) => made == Err::<Listing, BrowseError>(
                    BrowseError::ListingUnavailable(why),
                ),
            },
    {
        let records = match read {
            Ok(records) => records,
            Err(why) => {
                return Err(BrowseError::ListingUnavailable(why));
            },
        };
        let mut entries: Vec<Entry> = Vec::new();
        let mut i: usize = 0;
        while i < records.len()
            invariant
                i <= records.len(),
                Seq::new(entries@.len(), |k: int| entries@[k]@) == records@.take(i as int).filter_map(
                    lister(path@),
                ),
            decreases records.len() - i,
        {
            let ghost before = Seq::new(entries@.len(), |k: int| entries@[k]@);
            proof {
                records@.lemma_filter_map_take_succ(lister(path@), i as int);
            }
            match Entry::new(&path, &records[i]) {
                Ok(entry) => {
                    entries.push(entry);
                    assert(Seq::new(entries@.len(), |k: int| entries@[k]@) =~= before + seq![
                        entry@,
                    ]);
                },
                Err(_) => {},
            }
            i = i + 1;
        }
        proof {
            assert(records@.take(i as int) =~= records@);
            lemma_built_wf(path@, records@);
        }
        Ok(Listing { dir: path, entries })
    }

    /// The listing of `dir` that holds `entries`, all of which lie directly
    /// in `dir`.
    pub fn from_entries(dir: DirPath, entries: Vec<Entry>) -> (made: Listing)
        requires
            forall|i: int|
                0 <= i < entries@.len() ==> {
                    &&& (#[trigger] entries@[i])@.path.len() > 0
                    &&& entries@[i]@.path.drop_last() == dir@
                },
        ensures
            made@.current_path == dir@,
            made@.entries == Seq::new(entries@.len(), |i: int| entries@[i]@),
    {
        Listing { dir, entries }
    }

    /// The directory that the listing is of.
    pub fn current_path(&self) -> (path: &DirPath)
        ensures
            path@ == self@.current_path,
    {
        &self.dir
    }

    /// The entries, in the order of enumeration. Each lies directly in the
    /// directory that the listing is of.
    pub fn entries(&self) -> (entries: &Vec<Entry>)
        ensures
            entries@.len() == self@.entries.len(),
            forall|i: int| 0 <= i < entries@.len() ==> (#[trigger] entries@[i])@ == self@.entries[i],
            self@.wf(),
    {
        proof {
            use_type_invariant(self);
        }
        &self.entries
    }

    /// The number of entries.
    pub fn len(&self) -> (len: usize)
        ensures
            len == self@.entries.len(),
    {
        self.entries.len()
    }

    /// Whether the directory showed no child that could be read.
    pub fn is_empty(&self) -> (empty: bool)
        ensures
            empty == (self@.entries.len() == 0),
    {
        self.entries.len() == 0
    }

    /// The entry in row `index`, if there is such a row.
    pub fn get(&self, index: usize) -> (entry: Option<&Entry>)
        ensures
            entry is Some == (index < self@.entries.len()),
            entry is Some ==> entry.unwrap()@ == self@.entries[index as int],
    {
        if index < self.entries.len() {
            Some(&self.entries[index])
        } else {
            None
        }
    }
}

} // verus!
