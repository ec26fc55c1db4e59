//! The root of the workspace that holds a directory, found step by step.
//!
//! The root is the nearest directory, from the given one upwards, that holds
//! the marker of a root. Whether a directory holds the marker is for the
//! driver to find out: a [`Search`] names the place to look at, the driver
//! looks and reports back, and the `Search` goes one directory up or ends.

use crate::paths::{enter, entered, parent, parent_of};
use vstd::prelude::*;
use vstd::string::StringExecFns;

verus! {

/// The directory that marks the root of a workspace.
pub const ROOT_MARKER: &'static str = ".git";

/// What a search asks of its driver.
#[derive(Clone, Debug, PartialEq, Eq)]
pub enum Trail {
    /// Find out whether `path` is a directory.
    Probe { path: String },
    /// Nothing more: `root` is the root.
    Found { root: String },
    /// Nothing more: no directory up to the top holds the marker.
    Lost,
}

/// The mathematical content of a [`Trail`].
pub enum TrailView {
    Probe { path: Seq<char> },
    Found { root: Seq<char> },
    Lost,
}

impl View for Trail {
    type V = TrailView;

    open spec fn view(&self) -> TrailView {
        match self {
            Trail::Probe { path } => TrailView::Probe { path: path@ },
            Trail::Found { root } => TrailView::Found { root: root@ },
            Trail::Lost => TrailView::Lost,
        }
    }
}

/// The search for a root, as far as it has come: the directory that is
/// being looked at, if the search is still on.
pub struct Search {
    at: Option<String>,
}

impl View for Search {
    type V = Option<Seq<char>>;

    closed spec fn view(&self) -> Option<Seq<char>> {
        self.at.deep_view()
    }
}

/// The directory `levels` levels above `dir`, if there is one.
pub open spec fn ancestor(dir: Seq<char>, levels: nat) -> Option<Seq<char>>
    decreases levels,
{
    if levels == 0 {
        Some(dir)
    } else {
        match ancestor(dir, (levels - 1) as nat) {
            Some(below) => parent_of(below),
            None => None,
        }
    }
}

/// The place of the marker in `dir`.
pub open spec fn marker_in(dir: Seq<char>) -> Seq<char> {
    entered(dir, ROOT_MARKER@)
}

/// What a search that looks at `at` asks of its driver when the driver
/// reports whether the marker is there: a marked directory is the root, and
/// an unmarked one sends the search to the directory above it, if any.
pub open spec fn trail(at: Option<Seq<char>>, marked: bool) -> TrailView {
    match at {
        Some(dir) => if marked {
            TrailView::Found { root: dir }
        } else {
            match parent_of(dir) {
                Some(above) => TrailView::Probe { path: marker_in(above) },
                None => TrailView::Lost,
            }
        },
        None => TrailView::Lost,
    }
}

/// The directory that a search looks at after a report, given the one that
/// it looked at before.
pub open spec fn climbed(at: Option<Seq<char>>, marked: bool) -> Option<Seq<char>> {
    match at {
        Some(dir) => if marked {
            None
        } else {
            parent_of(dir)
        },
        None => None,
    }
}

/// Begins the search for the root of the workspace that holds the directory
/// `dir`: the search, and the first place that it asks to look at.
pub fn git_root(dir: &str) -> (begun: (Search, Trail))
    ensures
        begun.0@ == Some(dir@),
        begun.1@ == (TrailView::Probe { path: marker_in(dir@) }),
{
    (Search { at: Some(String::from_str(dir)) }, Trail::Probe { path: enter(dir, ROOT_MARKER) })
}

impl Search {
    /// Takes the driver's report of the place that was asked about last,
    /// and asks about the next place. Once a search has ended, every report
    /// ends it again.
    pub fn advance(self, marked: bool) -> (next: (Search, Trail))
        ensures
            next.0@ == climbed(self@, marked),
            next.1@ == trail(self@, marked),
    {
        match self.at {
            Some(dir) => {
                if marked {
                    (Search { at: None }, Trail::Found { root: dir })
                } else {
                    match parent(dir.as_str()) {
                        Some(above) => {
                            let path = enter(above.as_str(), ROOT_MARKER);
                            (Search { at: Some(above) }, Trail::Probe { path })
                        },
                        None => (Search { at: None }, Trail::Lost),
                    }
                }
            },
            None => (Search { at: None }, Trail::Lost),
        }
    }
}

/// The directory that a search looks at after `reports` reports, of which
/// none found the marker.
pub open spec fn after_unmarked(dir: Seq<char>, reports: nat) -> Option<Seq<char>>
    decreases reports,
{
    if reports == 0 {
        Some(dir)
    } else {
        climbed(after_unmarked(dir, (reports - 1) as nat), false)
    }
}

/// A search goes up one directory with every report that does not find the
/// marker: after so many reports it looks at the directory so many levels
/// above the one that it began with. So the root that it finds is the
/// nearest directory that holds the marker.
pub proof fn lemma_search_climbs(dir: Seq<char>, reports: nat)
    ensures
        after_unmarked(dir, reports) == ancestor(dir, reports),
        trail(after_unmarked(dir, reports), true) == match ancestor(dir, reports) {
            Some(root) => TrailView::Found { root },
            None => TrailView::Lost,
        },
    decreases reports,
{
    if reports > 0 {
        lemma_search_climbs(dir, (reports - 1) as nat);
    }
}

} // verus!
