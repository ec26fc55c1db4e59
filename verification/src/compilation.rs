//! The compilation of one package, step by step.
//!
//! Compiling a package means touching the file system and running the
//! parser, which this library does not do. It decides: a [`Build`] tells its
//! driver what to do next, the driver does it and reports back, and the
//! `Build` decides again. What stands at the output directory comes first; a
//! directory left there by an earlier run is removed whole, so that no output
//! outlives its source. Then the sources are listed, and compiled one after
//! the other in the listed order. For each source the directory of its
//! output is made, the source is read, its text is compiled, and the
//! result is written to the place that [`Package::output_file`] gives it.
//! Each source is timed from the moment its turn comes, and its record is
//! kept once the driver reports its output written. A driver that fails at
//! a step reports nothing more, so that a source that was not compiled
//! leaves no record.

use crate::module::{lossy_text, ModuleFile};
use crate::package::{prepare, Occupant, Package, PackageView, PathError, Preparation, SOURCE_PATTERN};
use crate::paths::{parent, parent_of};
use crate::stats::{views, Stat, StatStart, StatView};
use vstd::pervasive::unreached;
use vstd::prelude::*;
use vstd::string::StringExecFns;

verus! {

/// Why a build does not go on.
#[derive(Clone, Copy, Debug, PartialEq, Eq, Structural)]
pub enum Refusal {
    /// Something that is no directory stands where the output directory is
    /// to be.
    Occupied,
    /// A source file cannot be given a place below the output directory.
    Misplaced(PathError),
    /// The place of an output file has no directory above it.
    Rootless,
    /// The driver reported something that it was not asked for.
    OutOfTurn,
}

/// How far a build has come: what it waits for.
#[derive(Clone, Copy, Debug, PartialEq, Eq, Structural)]
pub enum Stage {
    /// For word of what stands at the output directory.
    Probing,
    /// For the output directory to be removed.
    Clearing,
    /// For the list of sources.
    Walking,
    /// For the directory of one output file to be made.
    Preparing,
    /// For the content of one source.
    Reading,
    /// For one source to be compiled.
    Compiling,
    /// For one output file to be written.
    Writing,
    /// For nothing: every source is compiled.
    Finished,
    /// For nothing: the build was refused.
    Refused,
}

impl Stage {
    /// Whether a build at this stage is at work on one source.
    pub open spec fn in_file(self) -> bool {
        self is Preparing || self is Reading || self is Compiling || self is Writing
    }
}

/// What a build asks of its driver.
#[derive(Clone, Debug, PartialEq, Eq)]
pub enum Step {
    /// Find out what stands at `path`.
    Probe { path: String },
    /// Remove the directory `path` and everything under it.
    Clear { path: String },
    /// List the files under `root` that match the glob pattern `pattern`.
    Walk { root: String, pattern: String },
    /// Make the directory `path` and every directory above it that is not
    /// there yet.
    MakeDirs { path: String },
    /// Read the file `path`.
    Read { path: String },
    /// Parse `text`, the text of the module `name`, give its specifiers
    /// their extensions, and print it.
    Compile { name: String, text: String },
    /// Write `content` to the file `path`, in place of whatever is there.
    Write { path: String, content: Vec<u8> },
    /// Nothing more: the records can be taken.
    Finish,
    /// Nothing more: the build is refused.
    Refuse { refusal: Refusal },
}

/// The mathematical content of a [`Step`].
pub enum StepView {
    Probe { path: Seq<char> },
    Clear { path: Seq<char> },
    Walk { root: Seq<char>, pattern: Seq<char> },
    MakeDirs { path: Seq<char> },
    Read { path: Seq<char> },
    Compile { name: Seq<char>, text: Seq<char> },
    Write { path: Seq<char>, content: Seq<u8> },
    Finish,
    Refuse { refusal: Refusal },
}

impl View for Step {
    type V = StepView;

    open spec fn view(&self) -> StepView {
        match self {
            Step::Probe { path } => StepView::Probe { path: path@ },
            Step::Clear { path } => StepView::Clear { path: path@ },
            Step::Walk { root, pattern } => StepView::Walk { root: root@, pattern: pattern@ },
            Step::MakeDirs { path } => StepView::MakeDirs { path: path@ },
            Step::Read { path } => StepView::Read { path: path@ },
            Step::Compile { name, text } => StepView::Compile { name: name@, text: text@ },
            Step::Write { path, content } => StepView::Write { path: path@, content: content@ },
            Step::Finish => StepView::Finish,
            Step::Refuse { refusal } => StepView::Refuse { refusal: *refusal },
        }
    }
}

/// What a driver reports of the step that it was asked to take.
#[derive(Clone, Debug, PartialEq, Eq)]
pub enum Event {
    /// What stands at the probed path.
    Probed(Occupant),
    /// The directory is removed.
    Cleared,
    /// The files that match the pattern, in the order in which they are to
    /// be compiled.
    Walked(Vec<String>),
    /// The directory is there.
    Made,
    /// The content of the file.
    Content(Vec<u8>),
    /// The compiled module, as it is to be written.
    Compiled(Vec<u8>),
    /// The file is written.
    Written,
}

/// The mathematical content of an [`Event`].
pub enum EventView {
    Probed(Occupant),
    Cleared,
    Walked(Seq<Seq<char>>),
    Made,
    Content(Seq<u8>),
    Compiled(Seq<u8>),
    Written,
}

impl View for Event {
    type V = EventView;

    open spec fn view(&self) -> EventView {
        match self {
            Event::Probed(occupant) => EventView::Probed(*occupant),
            Event::Cleared => EventView::Cleared,
            Event::Walked(files) => EventView::Walked(files.deep_view()),
            Event::Made => EventView::Made,
            Event::Content(bytes) => EventView::Content(bytes@),
            Event::Compiled(bytes) => EventView::Compiled(bytes@),
            Event::Written => EventView::Written,
        }
    }
}

/// The compilation of one package, as far as it has come.
pub struct Build {
    package: Package,
    stage: Stage,
    sources: Vec<String>,
    started: Option<StatStart>,
    target: Option<String>,
    stats: Vec<Stat>,
}

/// The mathematical content of a [`Build`]: the package, what the build waits
/// for, the sources as the driver listed them, and the records of the sources
/// that are compiled.
pub struct BuildView {
    pub package: PackageView,
    pub stage: Stage,
    pub sources: Seq<Seq<char>>,
    pub compiled: Seq<StatView>,
}

impl View for Build {
    type V = BuildView;

    closed spec fn view(&self) -> BuildView {
        BuildView {
            package: self.package@,
            stage: self.stage,
            sources: self.sources.deep_view(),
            compiled: views(self.stats@),
        }
    }
}

/// What a build waits for after it has asked for `step`.
pub open spec fn stage_after(step: StepView) -> Stage {
    match step {
        StepView::Probe { .. } => Stage::Probing,
        StepView::Clear { .. } => Stage::Clearing,
        StepView::Walk { .. } => Stage::Walking,
        StepView::MakeDirs { .. } => Stage::Preparing,
        StepView::Read { .. } => Stage::Reading,
        StepView::Compile { .. } => Stage::Compiling,
        StepView::Write { .. } => Stage::Writing,
        StepView::Finish => Stage::Finished,
        StepView::Refuse { .. } => Stage::Refused,
    }
}

/// The step that follows once `done` of the sources `sources` of `package`
/// are compiled: to make the directory for the output of the next one, or to
/// finish where none is left. A source whose output has no place, or no
/// directory above its place, refuses the build.
pub open spec fn proceed(package: PackageView, sources: Seq<Seq<char>>, done: int) -> StepView {
    if done >= sources.len() {
        StepView::Finish
    } else {
        match package.output_file(sources[done]) {
            Ok(target) => match parent_of(target) {
                Some(above) => StepView::MakeDirs { path: above },
                None => StepView::Refuse { refusal: Refusal::Rootless },
            },
            Err(error) => StepView::Refuse { refusal: Refusal::Misplaced(error) },
        }
    }
}

impl BuildView {
    /// The records are those of the first sources, one for each and in the
    /// listed order; they are those of all sources once the build is
    /// finished, and a source is left while the build is at work on one.
    pub open spec fn well_formed(self) -> bool {
        &&& self.compiled.len() <= self.sources.len()
        &&& forall|i: int|
            0 <= i < self.compiled.len() ==> (#[trigger] self.compiled[i]).file == self.sources[i]
        &&& self.stage.in_file() ==> self.compiled.len() < self.sources.len()
        &&& self.stage.in_file() ==> self.package.output_file(self.current()) is Ok
        &&& self.stage is Finished ==> self.compiled.len() == self.sources.len()
        &&& (self.stage is Probing || self.stage is Clearing || self.stage is Walking)
            ==> self.sources.len() == 0
    }

    /// A build of `package` that has taken no step yet.
    pub open spec fn fresh(package: PackageView) -> BuildView {
        BuildView {
            package,
            stage: Stage::Probing,
            sources: Seq::empty(),
            compiled: Seq::empty(),
        }
    }

    /// The first step of every build: to probe the output directory.
    pub open spec fn first_step(package: PackageView) -> StepView {
        StepView::Probe { path: package.output_root() }
    }

    /// The step that lists the sources of the package.
    pub open spec fn walk(self) -> StepView {
        StepView::Walk { root: self.package.source_root(), pattern: SOURCE_PATTERN@ }
    }

    /// The source that the build is at work on: the first without a record.
    pub open spec fn current(self) -> Seq<char> {
        self.sources[self.compiled.len() as int]
    }

    /// The place of the output of the source that the build is at work on.
    pub open spec fn target(self) -> Seq<char> {
        self.package.output_file(self.current())->Ok_0
    }

    /// The step that the build asks for when the driver reports `event`.
    pub open spec fn step(self, event: EventView) -> StepView {
        match (self.stage, event) {
            (Stage::Probing, EventView::Probed(Occupant::Nothing)) => self.walk(),
            (Stage::Probing, EventView::Probed(Occupant::Directory)) => StepView::Clear {
                path: self.package.output_root(),
            },
            (Stage::Probing, EventView::Probed(Occupant::Other)) => StepView::Refuse {
                refusal: Refusal::Occupied,
            },
            (Stage::Clearing, EventView::Cleared) => self.walk(),
            (Stage::Walking, EventView::Walked(files)) => proceed(self.package, files, 0),
            (Stage::Preparing, EventView::Made) => StepView::Read { path: self.current() },
            (Stage::Reading, EventView::Content(bytes)) => StepView::Compile {
                name: self.current(),
                text: lossy_text(bytes),
            },
            (Stage::Compiling, EventView::Compiled(bytes)) => StepView::Write {
                path: self.target(),
                content: bytes,
            },
            (Stage::Writing, EventView::Written) => proceed(
                self.package,
                self.sources,
                self.compiled.len() as int + 1,
            ),
            _ => StepView::Refuse { refusal: Refusal::OutOfTurn },
        }
    }

    /// Whether `next` is what the build is after the driver has reported
    /// `event`. The list of sources is taken when it is reported, and an
    /// output that is reported written adds the record of its source. How
    /// long the compilation took is not decided here.
    pub open spec fn followed_by(self, event: EventView, next: BuildView) -> bool {
        &&& next.package == self.package
        &&& next.stage == stage_after(self.step(event))
        &&& next.sources == match (self.stage, event) {
            (Stage::Walking, EventView::Walked(files)) => files,
            _ => self.sources,
        }
        &&& match (self.stage, event) {
            (Stage::Writing, EventView::Written) => {
                &&& next.compiled.len() == self.compiled.len() + 1
                &&& next.compiled.drop_last() == self.compiled
                &&& next.compiled.last().file == self.current()
            },
            _ => next.compiled == self.compiled,
        }
    }
}

impl Package {
    /// Begins the compilation of the package: the build, and the first step
    /// that it asks for.
    pub fn vanilla(self) -> (begun: (Build, Step))
        ensures
            begun.0@ == BuildView::fresh(self@),
            begun.1@ == BuildView::first_step(self@),
    {
        let path = self.output_root();
        let build = Build {
            package: self,
            stage: Stage::Probing,
            sources: Vec::new(),
            started: None,
            target: None,
            stats: Vec::new(),
        };
        assert(build@.sources =~= Seq::empty());
        assert(build@.compiled =~= Seq::empty());
        (build, Step::Probe { path })
    }
}

/// What a build keeps of the source that it is at work on.
struct Turn {
    step: Step,
    stage: Stage,
    started: Option<StatStart>,
    target: Option<String>,
}

impl Build {
    #[verifier::type_invariant]
    spec fn inv(self) -> bool {
        &&& self@.well_formed()
        &&& self.stage.in_file() ==> {
            &&& self.started is Some
            &&& self.started->0.file() == self@.current()
            &&& self.target is Some
            &&& self.target->0@ == self@.target()
        }
    }

    /// The step once `done` of the sources are compiled, with the clock that
    /// was started for the next source and the place of its output.
    fn proceed(package: &Package, sources: &Vec<String>, done: usize) -> (turn: Turn)
        requires
            done <= sources.len(),
        ensures
            turn.step@ == self::proceed(package@, sources.deep_view(), done as int),
            turn.stage == stage_after(turn.step@),
            turn.step@ is MakeDirs ==> {
                &&& done < sources.len()
                &&& turn.started is Some
                &&& turn.started->0.file() == sources[done as int]@
                &&& turn.target is Some
                &&& package@.output_file(sources[done as int]@) == Ok::<Seq<char>, PathError>(
                    turn.target->0@,
                )
            },
    {
        if done >= sources.len() {
            return Turn { step: Step::Finish, stage: Stage::Finished, started: None, target: None };
        }
        assert(sources.deep_view()[done as int] == sources[done as int]@);
        let started = StatStart::new(sources[done].clone());
        let target = match package.output_file(sources[done].as_str()) {
            Ok(target) => target,
            Err(error) => {
                return Turn {
                    step: Step::Refuse { refusal: Refusal::Misplaced(error) },
                    stage: Stage::Refused,
                    started: None,
                    target: None,
                };
            },
        };
        match parent(target.as_str()) {
            Some(above) => Turn {
                step: Step::MakeDirs { path: above },
                stage: Stage::Preparing,
                started: Some(started),
                target: Some(target),
            },
            None => Turn {
                step: Step::Refuse { refusal: Refusal::Rootless },
                stage: Stage::Refused,
                started: None,
                target: None,
            },
        }
    }

    /// What the build waits for.
    pub fn stage(&self) -> (stage: Stage)
        ensures
            stage == self@.stage,
    {
        self.stage
    }

    /// The package that is being compiled.
    pub fn package(&self) -> (package: &Package)
        ensures
            package@ == self@.package,
    {
        &self.package
    }

    /// Takes the driver's report of the step that was asked for last, and
    /// asks for the next step.
    ///
    /// A report of anything but the step that was asked for refuses the
    /// build, and so does any report once the build is finished or refused.
    pub fn advance(self, event: Event) -> (next: (Build, Step))
        ensures
            self@.well_formed(),
            next.1@ == self@.step(event@),
            self@.followed_by(event@, next.0@),
            next.0@.well_formed(),
    {
        proof {
            use_type_invariant(&self);
        }
        let ghost before = self@;
        let Build { package, stage, sources, started, target, stats } = self;
        match (stage, event) {
            (Stage::Probing, Event::Probed(occupant)) => {
                let step = match prepare(occupant) {
                    Some(Preparation::Proceed) => Step::Walk {
                        root: package.source_root(),
                        pattern: String::from_str(SOURCE_PATTERN),
                    },
                    Some(Preparation::Clear) => Step::Clear { path: package.output_root() },
                    None => Step::Refuse { refusal: Refusal::Occupied },
                };
                let stage = match step {
                    Step::Walk { .. } => Stage::Walking,
                    Step::Clear { .. } => Stage::Clearing,
                    _ => Stage::Refused,
                };
                (Build { package, stage, sources, started: None, target: None, stats }, step)
            },
            (Stage::Clearing, Event::Cleared) => {
                let step = Step::Walk {
                    root: package.source_root(),
                    pattern: String::from_str(SOURCE_PATTERN),
                };
                let stage = Stage::Walking;
                (Build { package, stage, sources, started: None, target: None, stats }, step)
            },
            (Stage::Walking, Event::Walked(files)) => {
                let Turn { step, stage, started, target } = Self::proceed(&package, &files, 0);
                assert(views(stats@) =~= before.compiled);
                (Build { package, stage, sources: files, started, target, stats }, step)
            },
            (Stage::Preparing, Event::Made) => {
                assert(before.current() == sources[stats.len() as int]@);
                let step = Step::Read { path: sources[stats.len()].clone() };
                (Build { package, stage: Stage::Reading, sources, started, target, stats }, step)
            },
            (Stage::Reading, Event::Content(bytes)) => {
                assert(before.current() == sources[stats.len() as int]@);
                let file = ModuleFile::new(sources[stats.len()].clone());
                let text = file.text(bytes.as_slice());
                let step = Step::Compile { name: sources[stats.len()].clone(), text };
                let stage = Stage::Compiling;
                (Build { package, stage, sources, started, target, stats }, step)
            },
            (Stage::Compiling, Event::Compiled(bytes)) => {
                let path = match &target {
                    Some(path) => path.clone(),
                    None => unreached(),
                };
                let step = Step::Write { path, content: bytes };
                (Build { package, stage: Stage::Writing, sources, started, target, stats }, step)
            },
            (Stage::Writing, Event::Written) => {
                let mut stats = stats;
                assert(before.current() == sources[stats.len() as int]@);
                let started = match started {
                    Some(started) => started,
                    None => unreached(),
                };
                stats.push(started.done());
                proof {
                    let now = views(stats@);
                    assert(now.drop_last() =~= before.compiled);
                    assert forall|i: int| 0 <= i < now.len() implies (#[trigger] now[i]).file
                        == before.sources[i] by {
                        if i < before.compiled.len() {
                            assert(now[i] == before.compiled[i]);
                        }
                    }
                }
                let Turn { step, stage, started, target } = Self::proceed(
                    &package,
                    &sources,
                    stats.len(),
                );
                (Build { package, stage, sources, started, target, stats }, step)
            },
            _ => {
                let step = Step::Refuse { refusal: Refusal::OutOfTurn };
                let stage = Stage::Refused;
                (Build { package, stage, sources, started: None, target: None, stats }, step)
            },
        }
    }

    /// Ends the build: the records of the sources that are compiled, in the
    /// order in which the driver listed them. Of a finished build these are
    /// the records of all sources.
    pub fn into_stats(self) -> (stats: Vec<Stat>)
        ensures
            self@.well_formed(),
            views(stats@) == self@.compiled,
    {
        proof {
            use_type_invariant(&self);
        }
        self.stats
    }
}

/// A build keeps its records in step with its sources whatever the driver
/// reports: every record is the record of one source, the records come in
/// the order of the sources, and a finished build has a record of each.
pub proof fn lemma_records_follow_sources(before: BuildView, event: EventView, after: BuildView)
    requires
        before.well_formed(),
        before.followed_by(event, after),
    ensures
        after.well_formed(),
{
    match (before.stage, event) {
        (Stage::Writing, EventView::Written) => {
            assert forall|i: int| 0 <= i < after.compiled.len() implies (
            #[trigger] after.compiled[i]).file == after.sources[i] by {
                if i < before.compiled.len() {
                    assert(after.compiled.drop_last()[i] == before.compiled[i]);
                }
            }
        },
        _ => {},
    }
}

/// A build asks for the sources to be listed only once it has learnt that
/// nothing stands at the output directory, or that the directory that stood
/// there is removed: whatever an earlier run left behind is gone before
/// anything is compiled.
pub proof fn lemma_walks_on_cleared_ground(before: BuildView, event: EventView)
    requires
        before.step(event) is Walk,
    ensures
        (before.stage is Probing && event == EventView::Probed(Occupant::Nothing)) || (
        before.stage is Clearing && event is Cleared),
{
}

/// Where a directory stands at the output directory, the build asks for it
/// to be removed.
pub proof fn lemma_clears_what_was_left(before: BuildView)
    requires
        before.stage is Probing,
    ensures
        before.step(EventView::Probed(Occupant::Directory)) == (StepView::Clear {
            path: before.package.output_root(),
        }),
{
}

/// Whether two builds are at the same point: of the same package, waiting
/// for the same thing, with the same sources and as many of them compiled.
pub open spec fn abreast(one: BuildView, other: BuildView) -> bool {
    &&& one.package == other.package
    &&& one.stage == other.stage
    &&& one.sources == other.sources
    &&& one.compiled.len() == other.compiled.len()
}

/// What a build asks for does not depend on how long anything took: two
/// builds at the same point that get the same report ask for the same step
/// and are at the same point again. So a second run over an unchanged tree
/// asks for what the first run asked for.
pub proof fn lemma_steps_repeat(
    one: BuildView,
    other: BuildView,
    event: EventView,
    one_after: BuildView,
    other_after: BuildView,
)
    requires
        abreast(one, other),
        one.followed_by(event, one_after),
        other.followed_by(event, other_after),
    ensures
        one.step(event) == other.step(event),
        abreast(one_after, other_after),
{
}

/// A build writes nowhere but to the place that the package gives to the
/// source that it is at work on, and it writes what the driver reported as
/// the compiled module.
pub proof fn lemma_writes_into_place(before: BuildView, event: EventView)
    requires
        before.well_formed(),
        before.step(event) is Write,
    ensures
        before.stage is Compiling,
        event == EventView::Compiled(before.step(event)->content),
        before.package.output_file(before.current()) == Ok::<Seq<char>, PathError>(
            before.step(event)->Write_path,
        ),
{
}

/// A build records a source when its output is reported written, and at no
/// other time.
pub proof fn lemma_records_what_is_written(before: BuildView, event: EventView, after: BuildView)
    requires
        before.well_formed(),
        before.followed_by(event, after),
    ensures
        after.compiled.len() == before.compiled.len() + 1 <==> (before.stage is Writing
            && event is Written),
        after.compiled.len() != before.compiled.len() + 1 ==> after.compiled
            == before.compiled,
{
}

} // verus!
