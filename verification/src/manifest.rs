//! The workspace manifest: which package patterns a run compiles.
//!
//! A manifest is a YAML document with a `packages` key, an ordered sequence of
//! glob patterns, and an optional `skip-ts` key, a sequence of patterns that
//! are left out word for word.

use crate::yaml::{
    is_bad, items, load_documents, member, text, yaml_documents, yaml_is_bad, yaml_items,
    yaml_member, yaml_text,
};
use vstd::prelude::*;
use vstd::string::StringExecFns;
use yaml_rust::Yaml;

verus! {

/// The key under which the manifest lists its package patterns.
pub const PACKAGES_KEY: &'static str = "packages";

/// The key under which the manifest lists the patterns to leave out.
pub const SKIP_KEY: &'static str = "skip-ts";

/// Why a manifest cannot be used.
#[derive(Clone, Copy, Debug, PartialEq, Eq, Structural)]
pub enum ManifestError {
    /// There is no manifest to read.
    Missing,
    /// The text is not well-formed YAML.
    Malformed,
    /// The text holds no document at all.
    NoDocument,
    /// There is no `packages` key, or it holds something other than a sequence.
    MissingPackages,
    /// An item under `packages` is not a string.
    InvalidPackage,
    /// There is a `skip-ts` key, and it holds something other than a sequence.
    InvalidSkipList,
    /// An item under `skip-ts` is not a string.
    InvalidSkip,
}

impl ManifestError {
    /// What is wrong with the manifest, in words.
    pub open spec fn spec_problem(self) -> Seq<char> {
        match self {
            ManifestError::Missing => "Couldn't find the file"@,
            ManifestError::Malformed => "Couldn't read the document"@,
            ManifestError::NoDocument => "Couldn't find a document"@,
            ManifestError::MissingPackages => "Couldn't find packages"@,
            ManifestError::InvalidPackage => "item in `packages` key wasn't a string"@,
            ManifestError::InvalidSkipList => "`skip-ts` key wasn't a sequence"@,
            ManifestError::InvalidSkip => "item in `skip-ts` key wasn't a string"@,
        }
    }

    /// What is wrong with the manifest, in words.
    pub fn problem(&self) -> (words: &'static str)
        ensures
            words@ == self.spec_problem(),
    {
        match self {
            ManifestError::Missing => "Couldn't find the file",
            ManifestError::Malformed => "Couldn't read the document",
            ManifestError::NoDocument => "Couldn't find a document",
            ManifestError::MissingPackages => "Couldn't find packages",
            ManifestError::InvalidPackage => "item in `packages` key wasn't a string",
            ManifestError::InvalidSkipList => "`skip-ts` key wasn't a sequence",
            ManifestError::InvalidSkip => "item in `skip-ts` key wasn't a string",
        }
    }
}

/// What a manifest holds under one key, as far as the resolver reads it.
#[derive(Clone, Debug)]
pub enum Listing {
    /// The key is not there.
    Absent,
    /// The key is there with a value that is no sequence.
    NotSequence,
    /// The key holds a sequence; an item is `None` where it is not a string.
    Items(Vec<Option<String>>),
}

/// The mathematical content of a [`Listing`].
pub enum ListingView {
    Absent,
    NotSequence,
    Items(Seq<Option<Seq<char>>>),
}

impl View for Listing {
    type V = ListingView;

    open spec fn view(&self) -> ListingView {
        match self {
            Listing::Absent => ListingView::Absent,
            Listing::NotSequence => ListingView::NotSequence,
            Listing::Items(entries) => ListingView::Items(entries.deep_view()),
        }
    }
}

/// The two keys of a manifest that the resolver reads.
#[derive(Clone, Debug)]
pub struct Manifest {
    pub packages: Listing,
    pub skip: Listing,
}

/// The mathematical content of a [`Manifest`].
pub struct ManifestView {
    pub packages: ListingView,
    pub skip: ListingView,
}

impl View for Manifest {
    type V = ManifestView;

    open spec fn view(&self) -> ManifestView {
        ManifestView { packages: self.packages@, skip: self.skip@ }
    }
}

/// Whether every item of `entries` is a string.
pub open spec fn all_text(entries: Seq<Option<Seq<char>>>) -> bool {
    forall|i: int| 0 <= i < entries.len() ==> (#[trigger] entries[i]) is Some
}

/// The strings of `entries`, in order; meaningful where [`all_text`] holds.
pub open spec fn texts(entries: Seq<Option<Seq<char>>>) -> Seq<Seq<char>> {
    entries.map_values(|entry: Option<Seq<char>>| entry->0)
}

/// The patterns of `packages` that `skip` does not name, in their order.
pub open spec fn unskipped(packages: Seq<Seq<char>>, skip: Seq<Seq<char>>) -> Seq<Seq<char>> {
    packages.filter(|pattern: Seq<char>| !skip.contains(pattern))
}

impl ListingView {
    /// The items of a listing; none where it is no sequence.
    pub open spec fn entries(self) -> Seq<Option<Seq<char>>> {
        match self {
            ListingView::Items(entries) => entries,
            _ => Seq::empty(),
        }
    }
}

impl ManifestView {
    /// The patterns to expand, or the reason why the manifest is refused.
    ///
    /// A manifest without a usable `packages` sequence is refused first, then
    /// one whose `skip-ts` is no sequence of strings, then one with a package
    /// item that is not a string.
    pub open spec fn patterns(self) -> Result<Seq<Seq<char>>, ManifestError> {
        if !(self.packages is Items) {
            Err(ManifestError::MissingPackages)
        } else if self.skip is NotSequence {
            Err(ManifestError::InvalidSkipList)
        } else if !all_text(self.skip.entries()) {
            Err(ManifestError::InvalidSkip)
        } else if !all_text(self.packages.entries()) {
            Err(ManifestError::InvalidPackage)
        } else {
            Ok(unskipped(texts(self.packages.entries()), texts(self.skip.entries())))
        }
    }
}

/// What the resolver reads of the YAML node `node`.
pub open spec fn listing_of(node: Yaml) -> ListingView {
    if yaml_is_bad(node) {
        ListingView::Absent
    } else {
        match yaml_items(node) {
            Some(elements) => ListingView::Items(elements.map_values(|element: Yaml| yaml_text(element))),
            None => ListingView::NotSequence,
        }
    }
}

/// What the resolver reads of the manifest text `source`: the two keys of
/// its first document.
pub open spec fn manifest_of(source: Seq<char>) -> Result<ManifestView, ManifestError> {
    match yaml_documents(source) {
        None => Err(ManifestError::Malformed),
        Some(documents) => if documents.len() == 0 {
            Err(ManifestError::NoDocument)
        } else {
            Ok(
                ManifestView {
                    packages: listing_of(yaml_member(documents[0], PACKAGES_KEY@)),
                    skip: listing_of(yaml_member(documents[0], SKIP_KEY@)),
                },
            )
        },
    }
}

/// The patterns that a manifest asks to expand, given its text, or `None`
/// where there is no manifest.
pub open spec fn patterns_of(content: Option<Seq<char>>) -> Result<
    Seq<Seq<char>>,
    ManifestError,
> {
    match content {
        None => Err(ManifestError::Missing),
        Some(source) => match manifest_of(source) {
            Ok(manifest) => manifest.patterns(),
            Err(error) => Err(error),
        },
    }
}

/// Whether `needle` is one of `haystack`.
fn listed(haystack: &Vec<String>, needle: &String) -> (found: bool)
    ensures
        found == haystack.deep_view().contains(needle@),
{
    let mut i: usize = 0;
    while i < haystack.len()
        invariant
            i <= haystack.len(),
            forall|j: int| 0 <= j < i ==> haystack@[j]@ != needle@,
        decreases haystack.len() - i,
    {
        if haystack[i] == *needle {
            assert(haystack.deep_view()[i as int] == needle@);
            return true;
        }
        i += 1;
    }
    false
}

/// The strings of `entries`, or `None` where an item is not a string.
fn strings(entries: &Vec<Option<String>>) -> (found: Option<Vec<String>>)
    ensures
        found is Some <==> all_text(entries.deep_view()),
        found matches Some(values) ==> values.deep_view() == texts(entries.deep_view()),
{
    let mut values: Vec<String> = Vec::new();
    let mut i: usize = 0;
    while i < entries.len()
        invariant
            i <= entries.len(),
            values.len() == i,
            forall|j: int| 0 <= j < i ==> (#[trigger] entries@[j]) is Some,
            forall|j: int| 0 <= j < i ==> (#[trigger] values@[j])@ == entries@[j]->0@,
        decreases entries.len() - i,
    {
        match &entries[i] {
            Some(value) => {
                values.push(value.clone());
            },
            None => {
                assert(entries.deep_view()[i as int] is None);
                return None;
            },
        }
        i += 1;
    }
    proof {
        let model = entries.deep_view();
        assert forall|j: int| 0 <= j < model.len() implies (#[trigger] model[j]) is Some by {
            assert(entries@[j] is Some);
        }
        assert(values.deep_view() =~= texts(model));
    }
    Some(values)
}

impl Manifest {
    /// The patterns to expand, in the order of the manifest, or the reason
    /// why the manifest is refused.
    pub fn patterns(&self) -> (selected: Result<Vec<String>, ManifestError>)
        ensures
            match selected {
                Ok(patterns) => self@.patterns() == Ok::<Seq<Seq<char>>, ManifestError>(
                    patterns.deep_view(),
                ),
                Err(error) => self@.patterns() == Err::<Seq<Seq<char>>, ManifestError>(error),
            },
    {
        let packages = match &self.packages {
            Listing::Items(entries) => entries,
            _ => {
                return Err(ManifestError::MissingPackages);
            },
        };
        let none: Vec<Option<String>> = Vec::new();
        let skip_entries = match &self.skip {
            Listing::Items(entries) => entries,
            Listing::NotSequence => {
                return Err(ManifestError::InvalidSkipList);
            },
            Listing::Absent => &none,
        };
        assert(skip_entries.deep_view() =~= self@.skip.entries());
        let skip = match strings(skip_entries) {
            Some(values) => values,
            None => {
                return Err(ManifestError::InvalidSkip);
            },
        };
        let wanted = match strings(packages) {
            Some(values) => values,
            None => {
                return Err(ManifestError::InvalidPackage);
            },
        };
        let ghost all = wanted.deep_view();
        let ghost out = skip.deep_view();
        let mut patterns: Vec<String> = Vec::new();
        let mut i: usize = 0;
        while i < wanted.len()
            invariant
                i <= wanted.len(),
                all == wanted.deep_view(),
                out == skip.deep_view(),
                patterns.deep_view() == unskipped(all.take(i as int), out),
            decreases wanted.len() - i,
        {
            let skipped = listed(&skip, &wanted[i]);
            proof {
                let keep = |pattern: Seq<char>| !out.contains(pattern);
                assert(all.take(i + 1) =~= all.take(i as int).push(all[i as int]));
                all.take(i as int).lemma_filter_push(all[i as int], keep);
            }
            if !skipped {
                let ghost before = patterns.deep_view();
                patterns.push(wanted[i].clone());
                assert(patterns.deep_view() =~= before.push(all[i as int]));
            }
            i += 1;
        }
        assert(all.take(wanted.len() as int) =~= all);
        Ok(patterns)
    }

    /// Reads the two keys off the first document of the manifest text.
    pub fn read(source: &str) -> (read: Result<Manifest, ManifestError>)
        ensures
            match read {
                Ok(manifest) => manifest_of(source@) == Ok::<ManifestView, ManifestError>(
                    manifest@,
                ),
                Err(error) => manifest_of(source@) == Err::<ManifestView, ManifestError>(error),
            },
    {
        match load_documents(source) {
            Err(_) => Err(ManifestError::Malformed),
            Ok(documents) => {
                if documents.len() == 0 {
                    Err(ManifestError::NoDocument)
                } else {
                    let packages = listing(member(&documents[0], PACKAGES_KEY));
                    let skip = listing(member(&documents[0], SKIP_KEY));
                    Ok(Manifest { packages, skip })
                }
            },
        }
    }
}

/// What the resolver reads of one node: whether it is there, whether it is a
/// sequence, and the text of each item that is a string.
fn listing(node: &Yaml) -> (found: Listing)
    ensures
        found@ == listing_of(*node),
{
    if is_bad(node) {
        return Listing::Absent;
    }
    match items(node) {
        None => Listing::NotSequence,
        Some(elements) => {
            let mut entries: Vec<Option<String>> = Vec::new();
            let mut i: usize = 0;
            while i < elements.len()
                invariant
                    i <= elements.len(),
                    entries.len() == i,
                    forall|j: int|
                        0 <= j < i ==> (#[trigger] entries@[j]).deep_view() == yaml_text(
                            elements@[j],
                        ),
                decreases elements.len() - i,
            {
                let entry = match text(&elements[i]) {
                    Some(value) => Some(String::from_str(value)),
                    None => None,
                };
                entries.push(entry);
                i += 1;
            }
            assert(entries.deep_view() =~= elements@.map_values(
                |element: Yaml| yaml_text(element),
            ));
            Listing::Items(entries)
        },
    }
}

/// The patterns that a manifest asks to expand: those under `packages` that
/// `skip-ts` does not name, in the order of the manifest. `content` is the
/// text of the manifest, or `None` where the workspace has none.
pub fn resolve(content: Option<&str>) -> (selected: Result<Vec<String>, ManifestError>)
    ensures
        match selected {
            Ok(patterns) => patterns_of(content.deep_view()) == Ok::<
                Seq<Seq<char>>,
                ManifestError,
            >(patterns.deep_view()),
            Err(error) => patterns_of(content.deep_view()) == Err::<
                Seq<Seq<char>>,
                ManifestError,
            >(error),
        },
{
    let source = match content {
        Some(source) => source,
        None => {
            return Err(ManifestError::Missing);
        },
    };
    match Manifest::read(source) {
        Ok(manifest) => manifest.patterns(),
        Err(error) => Err(error),
    }
}

/// A pattern that the skip list names is not among the patterns to expand.
pub proof fn lemma_skipped_left_out(
    packages: Seq<Seq<char>>,
    skip: Seq<Seq<char>>,
    pattern: Seq<char>,
)
    requires
        skip.contains(pattern),
    ensures
        !unskipped(packages, skip).contains(pattern),
{
    let keep = |pattern: Seq<char>| !skip.contains(pattern);
    let kept = packages.filter(keep);
    if kept.contains(pattern) {
        let i = choose|i: int| 0 <= i < kept.len() && kept[i] == pattern;
        packages.lemma_filter_pred(keep, i);
    }
}

/// A listed pattern that the skip list does not name is among the patterns
/// to expand: taking a pattern off the skip list brings it back.
pub proof fn lemma_unskipped_kept(
    packages: Seq<Seq<char>>,
    skip: Seq<Seq<char>>,
    pattern: Seq<char>,
)
    requires
        packages.contains(pattern),
        !skip.contains(pattern),
    ensures
        unskipped(packages, skip).contains(pattern),
{
    let keep = |pattern: Seq<char>| !skip.contains(pattern);
    let i = choose|i: int| 0 <= i < packages.len() && packages[i] == pattern;
    packages.lemma_filter_contains(keep, i);
}

/// Every pattern to expand is a listed pattern, and no more patterns are
/// expanded than are listed.
pub proof fn lemma_unskipped_listed(packages: Seq<Seq<char>>, skip: Seq<Seq<char>>)
    ensures
        unskipped(packages, skip).len() <= packages.len(),
        forall|pattern: Seq<char>| #[trigger]
            unskipped(packages, skip).contains(pattern) ==> packages.contains(pattern),
{
    let keep = |pattern: Seq<char>| !skip.contains(pattern);
    packages.lemma_filter_len(keep);
    assert forall|pattern: Seq<char>| #[trigger]
        unskipped(packages, skip).contains(pattern) implies packages.contains(pattern) by {
        packages.lemma_filter_contains_rev(keep, pattern);
    }
}

/// Without a skip list every listed pattern is expanded, in the listed order.
pub proof fn lemma_nothing_skipped(packages: Seq<Seq<char>>)
    ensures
        unskipped(packages, Seq::empty()) == packages,
    decreases packages.len(),
{
    let keep = |pattern: Seq<char>| !Seq::<Seq<char>>::empty().contains(pattern);
    reveal(Seq::filter);
    if packages.len() > 0 {
        lemma_nothing_skipped(packages.drop_last());
        assert(keep(packages.last()));
        assert(packages.drop_last().push(packages.last()) =~= packages);
    }
}

} // verus!
