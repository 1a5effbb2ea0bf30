//! Places in the file system, held as the segments that lead to them.

use vstd::prelude::*;

verus! {

/// A place in the file system: a starting point and the names that lead from
/// it to the place, one segment each. A single segment without a starting
/// directory names a program to be looked up on the search path.
#[derive(Clone, Debug, PartialEq, Eq)]
pub struct ToolPath {
    pub segments: Vec<String>,
}

/// The segments of a sequence of texts, each as its characters.
pub open spec fn texts(items: Seq<String>) -> Seq<Seq<char>> {
    Seq::new(items.len(), |i: int| items[i]@)
}

impl View for ToolPath {
    type V = Seq<Seq<char>>;

    open spec fn view(&self) -> Seq<Seq<char>> {
        texts(self.segments@)
    }
}

impl ToolPath {
    /// The place that `start` names by itself.
    pub fn new(start: &str) -> (path: ToolPath)
        ensures
            path@ == seq![start@],
    {
        let mut segments: Vec<String> = Vec::new();
        segments.push(String::from_str(start));
        let path = ToolPath { segments };
        assert(path@ =~= seq![start@]);
        path
    }

    /// The place that `name` names inside this one.
    pub fn join(&self, name: &str) -> (path: ToolPath)
        ensures
            path@ == self@.push(name@),
    {
        let mut path = self.copy();
        path.segments.push(String::from_str(name));
        assert(path@ =~= self@.push(name@));
        path
    }

    /// A copy of this path.
    pub fn copy(&self) -> (path: ToolPath)
        ensures
            path@ == self@,
    {
        ToolPath { segments: copy_texts(&self.segments) }
    }
}

/// Copies a list of texts.
pub fn copy_texts(items: &Vec<String>) -> (copy: Vec<String>)
    ensures
        texts(copy@) == texts(items@),
{
    let mut copy: Vec<String> = Vec::new();
    let mut i: usize = 0;
    while i < items.len()
        invariant
            i <= items.len(),
            copy.len() == i,
            forall|k: int| 0 <= k < i ==> copy[k]@ == items[k]@,
        decreases items.len() - i,
    {
        copy.push(items[i].clone());
        i = i + 1;
    }
    assert(texts(copy@) =~= texts(items@));
    copy
}

} // verus!
