//! Directory paths as sequences of components.

use vstd::prelude::*;
use vstd::string::*;

verus! {

/// The text of a path: every component preceded by a `/`, and a lone `/`
/// for the root.
pub open spec fn path_text(parts: Seq<Seq<char>>) -> Seq<char>
    decreases parts.len(),
{
    if parts.len() == 0 {
        seq!['/']
    } else if parts.len() == 1 {
        seq!['/'] + parts[0]
    } else {
        path_text(parts.drop_last()) + seq!['/'] + parts.last()
    }
}

/// An absolute directory path, held as the names that lead to it from the
/// filesystem root. The root itself has no component.
///
/// Its view is the sequence of those names.
#[derive(Debug, PartialEq, Eq)]
pub struct DirPath {
    parts: Vec<String>,
}

impl View for DirPath {
    type V = Seq<Seq<char>>;

    closed spec fn view(&self) -> Seq<Seq<char>> {
        Seq::new(self.parts@.len(), |i: int| self.parts@[i]@)
    }
}

impl Clone for DirPath {
    fn clone(&self) -> (copy: Self)
        ensures
            copy@ == self@,
    {
        let mut parts: Vec<String> = Vec::new();
        let mut i: usize = 0;
        while i < self.parts.len()
            invariant
                i <= self.parts.len(),
                parts@.len() == i,
                forall|k: int| 0 <= k < i ==> parts@[k]@ == self.parts@[k]@,
            decreases self.parts.len() - i,
        {
            parts.push(self.parts[i].clone());
            i = i + 1;
        }
        let copy = DirPath { parts };
        assert(copy@ =~= self@);
        copy
    }
}

impl DirPath {
    /// The filesystem root.
    pub fn root() -> (path: DirPath)
        ensures
            path@ == Seq::<Seq<char>>::empty(),
    {
        let path = DirPath { parts: Vec::new() };
        assert(path@ =~= Seq::<Seq<char>>::empty());
        path
    }

    /// The path whose components are `parts`, outermost first.
    pub fn from_parts(parts: Vec<String>) -> (path: DirPath)
        ensures
            path@.len() == parts@.len(),
            forall|i: int| 0 <= i < parts@.len() ==> path@[i] == parts@[i]@,
    {
        DirPath { parts }
    }

    /// The components, outermost first.
    pub fn parts(&self) -> (parts: &Vec<String>)
        ensures
            parts@.len() == self@.len(),
            forall|i: int| 0 <= i < parts@.len() ==> parts@[i]@ == self@[i],
    {
        &self.parts
    }

    /// How many components lie between the root and this directory.
    pub fn depth(&self) -> (depth: usize)
        ensures
            depth == self@.len(),
    {
        self.parts.len()
    }

    /// Appends `name` as the new last component.
    pub fn push(&mut self, name: String)
        ensures
            final(self)@ == old(self)@.push(name@),
    {
        self.parts.push(name);
        assert(self@ =~= old(self)@.push(name@));
    }

    /// Removes the last component and says whether there was one. The root
    /// is left as it is.
    pub fn pop(&mut self) -> (popped: bool)
        ensures
            popped == (old(self)@.len() > 0),
            popped ==> final(self)@ == old(self)@.drop_last(),
            !popped ==> final(self)@ == old(self)@,
    {
        let last = self.parts.pop();
        assert(old(self)@.len() > 0 ==> self@ =~= old(self)@.drop_last());
        assert(old(self)@.len() == 0 ==> self@ =~= old(self)@);
        last.is_some()
    }

    /// The last component, which the root lacks.
    pub fn file_name(&self) -> (name: Option<&String>)
        ensures
            name is Some == (self@.len() > 0),
            name is Some ==> name.unwrap()@ == self@.last(),
    {
        if self.parts.len() == 0 {
            None
        } else {
            Some(&self.parts[self.parts.len() - 1])
        }
    }

    /// The last component of a path that is not the root.
    pub(crate) fn last(&self) -> (name: &String)
        requires
            self@.len() > 0,
        ensures
            name@ == self@.last(),
    {
        &self.parts[self.parts.len() - 1]
    }

    /// The directory that holds this one, which the root lacks.
    pub fn parent(&self) -> (parent: Option<DirPath>)
        ensures
            parent is Some == (self@.len() > 0),
            parent is Some ==> parent.unwrap()@ == self@.drop_last(),
    {
        if self.parts.len() == 0 {
            None
        } else {
            let mut up = self.clone();
            up.pop();
            Some(up)
        }
    }

    /// The path of the child called `name`.
    pub fn join(&self, name: &String) -> (child: DirPath)
        ensures
            child@ == self@.push(name@),
    {
        let mut child = self.clone();
        child.push(name.clone());
        child
    }

    /// The path written out with `/` before every component.
    pub fn to_text(&self) -> (text: String)
        ensures
            text@ == path_text(self@),
    {
        let mut text = String::new();
        proof {
            reveal_strlit("/");
        }
        if self.parts.len() == 0 {
            text.append("/");
            assert(text@ =~= seq!['/']);
            return text;
        }
        let mut i: usize = 0;
        while i < self.parts.len()
            invariant
                i <= self.parts.len(),
                self.parts.len() > 0,
                "/"@ == seq!['/'],
                i == 0 ==> text@ == Seq::<char>::empty(),
                i > 0 ==> text@ == path_text(self@.take(i as int)),
            decreases self.parts.len() - i,
        {
            text.append("/");
            text.append(self.parts[i].as_str());
            proof {
                let before = self@.take(i as int);
                let after = self@.take(i + 1);
                assert(after.last() == self@[i as int]);
                assert(after.drop_last() =~= before);
                if i == 0 {
                    assert(text@ =~= seq!['/'] + after[0]);
                } else {
                    assert(text@ =~= path_text(before) + seq!['/'] + after.last());
                }
            }
            i = i + 1;
        }
        assert(self@.take(i as int) =~= self@);
        text
    }
}

} // verus!
