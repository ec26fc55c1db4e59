//! The packages of a workspace, found step by step.
//!
//! A workspace is a directory with a manifest that lists its packages by
//! glob patterns. Reading the manifest and matching a pattern against the
//! directory tree touch the file system, which this library does not do. It
//! decides: a [`Resolver`] tells its driver what to read or to match next,
//! the driver does it and reports back, and the `Resolver` decides again.
//! The patterns are matched in the order of the manifest, and every match
//! becomes one package, in the order in which the driver reports the matches.

use crate::manifest::{patterns_of, resolve, ManifestError};
use crate::package::{views, Package, PackageView, PathError};
use crate::paths::{diff, difference, enter, entered};
use vstd::prelude::*;
use vstd::string::StringExecFns;

verus! {

/// The file, directly under the workspace root, that lists the packages.
pub const MANIFEST_NAME: &'static str = "pnpm-workspace.yaml";

/// The model of the package that the match `dir` stands for: the directory
/// named by the path that leads to it from the workspace root `root`.
pub open spec fn package_of(root: Seq<char>, dir: Seq<char>) -> Result<PackageView, PathError> {
    match difference(dir, root) {
        Some(below) => Ok(PackageView { repo_root: root, pkg_root: below }),
        None => Err(PathError::Unrelated),
    }
}

/// The models of the packages that the matches `dirs` stand for, one for
/// each and in their order; one match that stands for none refuses them all.
pub open spec fn packages_of(root: Seq<char>, dirs: Seq<Seq<char>>) -> Result<
    Seq<PackageView>,
    PathError,
> {
    if forall|i: int| 0 <= i < dirs.len() ==> (#[trigger] package_of(root, dirs[i])) is Ok {
        Ok(Seq::new(dirs.len(), |i: int| package_of(root, dirs[i])->Ok_0))
    } else {
        Err(PathError::Unrelated)
    }
}

/// The package that a match of a pattern stands for: the directory `dir`,
/// named by the path that leads to it from the workspace root `root`. A
/// directory to which no relative path leads from the root is refused.
pub fn package_at(root: &str, dir: &str) -> (located: Result<Package, PathError>)
    ensures
        match located {
            Ok(package) => package_of(root@, dir@) == Ok::<PackageView, PathError>(package@),
            Err(error) => package_of(root@, dir@) == Err::<PackageView, PathError>(error),
        },
{
    match diff(dir, root) {
        Some(below) => Ok(Package::new(String::from_str(root), below)),
        None => Err(PathError::Unrelated),
    }
}

/// The packages that the matches `dirs` stand for, one for each and in their
/// order. One match to which no relative path leads from the root refuses
/// them all.
pub fn packages_at(root: &str, dirs: &Vec<String>) -> (located: Result<Vec<Package>, PathError>)
    ensures
        match located {
            Ok(packages) => packages_of(root@, dirs.deep_view()) == Ok::<
                Seq<PackageView>,
                PathError,
            >(views(packages@)),
            Err(error) => packages_of(root@, dirs.deep_view()) == Err::<
                Seq<PackageView>,
                PathError,
            >(error),
        },
{
    let ghost matches = dirs.deep_view();
    let mut packages: Vec<Package> = Vec::new();
    let mut i: usize = 0;
    while i < dirs.len()
        invariant
            i <= dirs.len(),
            packages.len() == i,
            matches == dirs.deep_view(),
            forall|j: int|
                0 <= j < i ==> package_of(root@, #[trigger] matches[j]) == Ok::<
                    PackageView,
                    PathError,
                >(packages[j]@),
        decreases dirs.len() - i,
    {
        assert(matches[i as int] == dirs[i as int]@);
        match package_at(root, dirs[i].as_str()) {
            Ok(package) => {
                packages.push(package);
            },
            Err(error) => {
                assert(!(package_of(root@, matches[i as int]) is Ok));
                return Err(error);
            },
        }
        i += 1;
    }
    assert(views(packages@) =~= Seq::new(
        matches.len(),
        |i: int| package_of(root@, matches[i])->Ok_0,
    ));
    Ok(packages)
}

/// Why a workspace has no list of packages.
#[derive(Clone, Copy, Debug, PartialEq, Eq, Structural)]
pub enum Unresolved {
    /// The manifest cannot be used.
    Manifest(ManifestError),
    /// A match of a pattern stands for no package.
    Path(PathError),
    /// The driver reported something that it was not asked for.
    OutOfTurn,
}

/// How far a resolver has come: what it waits for.
#[derive(Clone, Copy, Debug, PartialEq, Eq, Structural)]
pub enum Progress {
    /// For the text of the manifest.
    Reading,
    /// For the matches of one pattern.
    Expanding,
    /// For nothing: every pattern is matched.
    Finished,
    /// For nothing: the workspace is refused.
    Refused,
}

/// What a resolver asks of its driver.
#[derive(Clone, Debug, PartialEq, Eq)]
pub enum Query {
    /// Read the file `path` as text, if there is such a file.
    Read { path: String },
    /// List the directories that match the glob pattern `pattern`.
    Expand { pattern: String },
    /// Nothing more: the packages can be taken.
    Finish,
    /// Nothing more: the workspace is refused.
    Refuse { reason: Unresolved },
}

/// The mathematical content of a [`Query`].
pub enum QueryView {
    Read { path: Seq<char> },
    Expand { pattern: Seq<char> },
    Finish,
    Refuse { reason: Unresolved },
}

impl View for Query {
    type V = QueryView;

    open spec fn view(&self) -> QueryView {
        match self {
            Query::Read { path } => QueryView::Read { path: path@ },
            Query::Expand { pattern } => QueryView::Expand { pattern: pattern@ },
            Query::Finish => QueryView::Finish,
            Query::Refuse { reason } => QueryView::Refuse { reason: *reason },
        }
    }
}

/// What a driver reports of the query that it was asked.
#[derive(Clone, Debug, PartialEq, Eq)]
pub enum Answer {
    /// The text of the file, or `None` where there is no such file.
    Content(Option<String>),
    /// The directories that match the pattern.
    Matches(Vec<String>),
}

/// The mathematical content of an [`Answer`].
pub enum AnswerView {
    Content(Option<Seq<char>>),
    Matches(Seq<Seq<char>>),
}

impl View for Answer {
    type V = AnswerView;

    open spec fn view(&self) -> AnswerView {
        match self {
            Answer::Content(content) => AnswerView::Content(content.deep_view()),
            Answer::Matches(dirs) => AnswerView::Matches(dirs.deep_view()),
        }
    }
}

/// The search for the packages of one workspace, as far as it has come.
pub struct Resolver {
    root: String,
    progress: Progress,
    patterns: Vec<String>,
    expanded: usize,
    packages: Vec<Package>,
}

/// The mathematical content of a [`Resolver`]: the root of the workspace,
/// what the resolver waits for, the patterns to match, how many of them are
/// matched, and the packages found so far.
pub struct ResolverView {
    pub root: Seq<char>,
    pub progress: Progress,
    pub patterns: Seq<Seq<char>>,
    pub expanded: int,
    pub packages: Seq<PackageView>,
}

impl View for Resolver {
    type V = ResolverView;

    closed spec fn view(&self) -> ResolverView {
        ResolverView {
            root: self.root@,
            progress: self.progress,
            patterns: self.patterns.deep_view(),
            expanded: self.expanded as int,
            packages: views(self.packages@),
        }
    }
}

/// What a resolver waits for after it has asked `query`.
pub open spec fn progress_after(query: QueryView) -> Progress {
    match query {
        QueryView::Read { .. } => Progress::Reading,
        QueryView::Expand { .. } => Progress::Expanding,
        QueryView::Finish => Progress::Finished,
        QueryView::Refuse { .. } => Progress::Refused,
    }
}

/// The query that follows once `done` of the patterns `patterns` are
/// matched: to match the next one, taken relative to the root, or to finish
/// where none is left.
pub open spec fn inquire(root: Seq<char>, patterns: Seq<Seq<char>>, done: int) -> QueryView {
    if done >= patterns.len() {
        QueryView::Finish
    } else {
        QueryView::Expand { pattern: entered(root, patterns[done]) }
    }
}

impl ResolverView {
    /// No more patterns are matched than there are: none before the manifest
    /// is read, not all while the resolver waits for matches, and all once
    /// it is finished.
    pub open spec fn well_formed(self) -> bool {
        &&& 0 <= self.expanded <= self.patterns.len()
        &&& self.progress is Reading ==> self.expanded == 0
        &&& self.progress is Expanding ==> self.expanded < self.patterns.len()
        &&& self.progress is Finished ==> self.expanded == self.patterns.len()
    }

    /// A resolver for the workspace at `root` that has asked nothing yet.
    pub open spec fn fresh(root: Seq<char>) -> ResolverView {
        ResolverView {
            root,
            progress: Progress::Reading,
            patterns: Seq::empty(),
            expanded: 0,
            packages: Seq::empty(),
        }
    }

    /// The first query of every resolver: to read the manifest.
    pub open spec fn first_query(root: Seq<char>) -> QueryView {
        QueryView::Read { path: entered(root, MANIFEST_NAME@) }
    }

    /// The query that the resolver asks when the driver reports `answer`.
    pub open spec fn query(self, answer: AnswerView) -> QueryView {
        match (self.progress, answer) {
            (Progress::Reading, AnswerView::Content(content)) => match patterns_of(content) {
                Ok(patterns) => inquire(self.root, patterns, 0),
                Err(error) => QueryView::Refuse { reason: Unresolved::Manifest(error) },
            },
            (Progress::Expanding, AnswerView::Matches(dirs)) => match packages_of(
                self.root,
                dirs,
            ) {
                Ok(_) => inquire(self.root, self.patterns, self.expanded + 1),
                Err(error) => QueryView::Refuse { reason: Unresolved::Path(error) },
            },
            _ => QueryView::Refuse { reason: Unresolved::OutOfTurn },
        }
    }

    /// The resolver after the driver has reported `answer`: the patterns are
    /// taken from the manifest when its text is reported, and the packages
    /// of the reported matches are added to those found before.
    pub open spec fn after(self, answer: AnswerView) -> ResolverView {
        let progress = progress_after(self.query(answer));
        match (self.progress, answer) {
            (Progress::Reading, AnswerView::Content(content)) => match patterns_of(content) {
                Ok(patterns) => ResolverView { progress, patterns, ..self },
                Err(_) => ResolverView { progress, ..self },
            },
            (Progress::Expanding, AnswerView::Matches(dirs)) => match packages_of(
                self.root,
                dirs,
            ) {
                Ok(found) => ResolverView {
                    progress,
                    expanded: self.expanded + 1,
                    packages: self.packages + found,
                    ..self
                },
                Err(_) => ResolverView { progress, ..self },
            },
            _ => ResolverView { progress, ..self },
        }
    }
}

/// Begins the search for the packages of the workspace at `root`: the
/// resolver, and the first query that it asks.
pub fn workspace(root: &str) -> (begun: (Resolver, Query))
    ensures
        begun.0@ == ResolverView::fresh(root@),
        begun.1@ == ResolverView::first_query(root@),
{
    let resolver = Resolver {
        root: String::from_str(root),
        progress: Progress::Reading,
        patterns: Vec::new(),
        expanded: 0,
        packages: Vec::new(),
    };
    assert(resolver@.patterns =~= Seq::empty());
    assert(resolver@.packages =~= Seq::empty());
    (resolver, Query::Read { path: enter(root, MANIFEST_NAME) })
}

impl Resolver {
    #[verifier::type_invariant]
    spec fn inv(self) -> bool {
        self@.well_formed()
    }

    /// The query once `done` of the patterns are matched.
    fn inquire(root: &str, patterns: &Vec<String>, done: usize) -> (query: Query)
        requires
            done <= patterns.len(),
        ensures
            query@ == self::inquire(root@, patterns.deep_view(), done as int),
    {
        if done >= patterns.len() {
            Query::Finish
        } else {
            assert(patterns.deep_view()[done as int] == patterns[done as int]@);
            Query::Expand { pattern: enter(root, patterns[done].as_str()) }
        }
    }

    /// What the resolver waits for.
    pub fn progress(&self) -> (progress: Progress)
        ensures
            progress == self@.progress,
    {
        self.progress
    }

    /// Takes the driver's answer to the query that was asked last, and asks
    /// the next query.
    ///
    /// An answer to anything but the query that was asked refuses the
    /// workspace, and so does any answer once the resolver is finished or
    /// refused.
    pub fn advance(self, answer: Answer) -> (next: (Resolver, Query))
        ensures
            self@.well_formed(),
            next.0@ == self@.after(answer@),
            next.1@ == self@.query(answer@),
            next.0@.well_formed(),
    {
        proof {
            use_type_invariant(&self);
        }
        let ghost before = self@;
        let ghost told = answer@;
        let Resolver { root, progress, patterns, expanded, packages } = self;
        match (progress, answer) {
            (Progress::Reading, Answer::Content(content)) => {
                let resolved = match &content {
                    Some(text) => resolve(Some(text.as_str())),
                    None => resolve(None),
                };
                match resolved {
                    Ok(found) => {
                        let query = Self::inquire(root.as_str(), &found, 0);
                        let progress = match query {
                            Query::Expand { .. } => Progress::Expanding,
                            _ => Progress::Finished,
                        };
                        let next = Resolver {
                            root,
                            progress,
                            patterns: found,
                            expanded: 0,
                            packages,
                        };
                        assert(next@ == before.after(told));
                        (next, query)
                    },
                    Err(error) => {
                        let query = Query::Refuse { reason: Unresolved::Manifest(error) };
                        let next = Resolver {
                            root,
                            progress: Progress::Refused,
                            patterns,
                            expanded,
                            packages,
                        };
                        assert(next@ == before.after(told));
                        (next, query)
                    },
                }
            },
            (Progress::Expanding, Answer::Matches(dirs)) => {
                match packages_at(root.as_str(), &dirs) {
                    Ok(found) => {
                        let ghost added = views(found@);
                        let mut packages = packages;
                        let mut found = found;
                        packages.append(&mut found);
                        assert(views(packages@) =~= before.packages + added);
                        assert(expanded < patterns.len());
                        let query = Self::inquire(root.as_str(), &patterns, expanded + 1);
                        let progress = match query {
                            Query::Expand { .. } => Progress::Expanding,
                            _ => Progress::Finished,
                        };
                        let next = Resolver {
                            root,
                            progress,
                            patterns,
                            expanded: expanded + 1,
                            packages,
                        };
                        assert(next@ == before.after(told));
                        (next, query)
                    },
                    Err(error) => {
                        let query = Query::Refuse { reason: Unresolved::Path(error) };
                        let next = Resolver {
                            root,
                            progress: Progress::Refused,
                            patterns,
                            expanded,
                            packages,
                        };
                        assert(next@ == before.after(told));
                        (next, query)
                    },
                }
            },
            _ => {
                let query = Query::Refuse { reason: Unresolved::OutOfTurn };
                let next = Resolver {
                    root,
                    progress: Progress::Refused,
                    patterns,
                    expanded,
                    packages,
                };
                assert(next@ == before.after(told));
                (next, query)
            },
        }
    }

    /// Ends the search: the packages found, in the order of the patterns and,
    /// for each pattern, of its matches.
    pub fn into_packages(self) -> (packages: Vec<Package>)
        ensures
            views(packages@) == self@.packages,
    {
        self.packages
    }
}

/// A resolver matches the patterns of the manifest one after the other,
/// whatever the driver answers: the pattern that it asks to match is the
/// next one that is not matched yet, taken relative to the root.
pub proof fn lemma_patterns_in_turn(before: ResolverView, answer: AnswerView)
    requires
        before.well_formed(),
        before.query(answer) is Expand,
    ensures
        before.after(answer).well_formed(),
        before.after(answer).expanded < before.after(answer).patterns.len(),
        before.query(answer)->pattern == entered(
            before.root,
            before.after(answer).patterns[before.after(answer).expanded],
        ),
{
}

/// Every answer with matches adds one package for each match and no other,
/// and no answer takes a package away.
pub proof fn lemma_one_package_a_match(before: ResolverView, answer: AnswerView)
    requires
        before.well_formed(),
    ensures
        before.after(answer).well_formed(),
        before.packages.is_prefix_of(before.after(answer).packages),
        before.progress is Expanding && answer is Matches && !(before.query(answer) is Refuse)
            ==> before.after(answer).packages.len() == before.packages.len()
            + answer->Matches_0.len(),
{
}

} // verus!
