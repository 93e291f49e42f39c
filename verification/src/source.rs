//! A configured source: one trade log to watch.

use vstd::prelude::*;

verus! {

/// One configured trade log: a name to show and the path of the file.
#[derive(Clone, Debug, PartialEq, Eq)]
pub struct Source {
    pub name: String,
    pub path: String,
}

/// A source as plain values.
pub struct SourceView {
    pub name: Seq<char>,
    pub path: Seq<char>,
}

impl View for Source {
    type V = SourceView;

    open spec fn view(&self) -> SourceView {
        SourceView { name: self.name@, path: self.path@ }
    }
}

} // verus!
