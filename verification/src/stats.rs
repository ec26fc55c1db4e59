//! Per-file timing records and their aggregation.

use crate::clock::{checked_add, duration_nanos, elapsed, max_nanos, now, seconds};
use std::time::Duration;
use std::time::Instant;
use vstd::pervasive::unreached;
use vstd::prelude::*;
use vstd::seq_lib::{commutative_foldl, lemma_fold_left_permutation};

verus! {

/// A timing record in the making: a file and the moment its compilation began.
pub struct StatStart {
    file: String,
    start: Instant,
}

/// A timing record: a file and how long its compilation took.
pub struct Stat {
    file: String,
    elapsed: Duration,
}

/// The mathematical content of a [`Stat`]: the file's path and the elapsed
/// time in nanoseconds.
pub struct StatView {
    pub file: Seq<char>,
    pub elapsed: nat,
}

/// The records of a run, in the order in which they were added.
pub struct CollectedStats {
    emitted: Vec<Stat>,
}

/// The aggregate of a run: how many files were compiled, and how long their
/// compilations took together.
pub struct Stats {
    pub files: usize,
    pub elapsed: Duration,
}

impl View for Stat {
    type V = StatView;

    closed spec fn view(&self) -> StatView {
        StatView { file: self.file@, elapsed: duration_nanos(self.elapsed) }
    }
}

impl View for CollectedStats {
    type V = Seq<StatView>;

    closed spec fn view(&self) -> Seq<StatView> {
        views(self.emitted@)
    }
}

/// The views of `stats`, in order.
pub open spec fn views(stats: Seq<Stat>) -> Seq<StatView> {
    stats.map_values(|stat: Stat| stat@)
}

/// The step of the summation: `sum` with the elapsed time of `stat` added.
pub open spec fn add_elapsed() -> spec_fn(nat, StatView) -> nat {
    |sum: nat, stat: StatView| sum + stat.elapsed
}

/// The elapsed times of `stats` added up, in nanoseconds.
pub open spec fn elapsed_sum(stats: Seq<StatView>) -> nat {
    stats.fold_left(0nat, add_elapsed())
}

impl StatStart {
    /// Starts the clock for `path`.
    pub fn new(path: String) -> (started: StatStart)
        ensures
            started.file() == path@,
    {
        StatStart { file: path, start: now() }
    }

    /// The path of the file that is being timed.
    pub closed spec fn file(&self) -> Seq<char> {
        self.file@
    }

    /// The path of the file that is being timed.
    pub fn path(&self) -> (path: &str)
        ensures
            path@ == self.file(),
    {
        self.file.as_str()
    }

    /// Stops the clock: the record of the same file, with the time that has
    /// passed since the start.
    pub fn done(self) -> (stat: Stat)
        ensures
            stat@.file == self.file(),
    {
        let elapsed = elapsed(&self.start);
        Stat::new(self.file, elapsed)
    }
}

impl Stat {
    /// The record that compiling `path` took `elapsed`.
    pub fn new(path: String, elapsed: Duration) -> (stat: Stat)
        ensures
            stat@ == (StatView { file: path@, elapsed: duration_nanos(elapsed) }),
    {
        Stat { file: path, elapsed }
    }

    /// The path of the file that was compiled.
    pub fn file(&self) -> (path: &str)
        ensures
            path@ == self@.file,
    {
        self.file.as_str()
    }

    /// How long the compilation took.
    pub fn elapsed(&self) -> (span: Duration)
        ensures
            duration_nanos(span) == self@.elapsed,
    {
        self.elapsed
    }
}

impl CollectedStats {
    /// A collection without records.
    pub fn new() -> (stats: CollectedStats)
        ensures
            stats@ == Seq::<StatView>::empty(),
    {
        let stats = CollectedStats { emitted: Vec::new() };
        assert(stats@ =~= Seq::<StatView>::empty());
        stats
    }

    /// The number of records.
    pub fn len(&self) -> (count: usize)
        ensures
            count == self@.len(),
    {
        self.emitted.len()
    }

    /// Appends one record.
    pub fn add(&mut self, stat: Stat)
        ensures
            final(self)@ == old(self)@.push(stat@),
    {
        self.emitted.push(stat);
        assert(self@ =~= old(self)@.push(stat@));
    }

    /// Appends the records of `stats`, in their order.
    pub fn concat(&mut self, stats: Vec<Stat>)
        ensures
            final(self)@ == old(self)@ + views(stats@),
    {
        let ghost added = stats@;
        let mut stats = stats;
        self.emitted.append(&mut stats);
        assert(self@ =~= old(self)@ + views(added));
    }

    /// The elapsed times of all records added up, or `None` where the sum is
    /// longer than a `Duration` can hold.
    fn sum(&self) -> (sum: Option<Duration>)
        ensures
            sum is Some <==> elapsed_sum(self@) <= max_nanos(),
            sum matches Some(span) ==> duration_nanos(span) == elapsed_sum(self@),
    {
        let mut total = seconds(0);
        let mut i: usize = 0;
        while i < self.emitted.len()
            invariant
                i <= self.emitted.len(),
                duration_nanos(total) == elapsed_sum(self@.take(i as int)),
                duration_nanos(total) <= max_nanos(),
            decreases self.emitted.len() - i,
        {
            proof {
                lemma_sum_push(self@.take(i as int), self@[i as int]);
                assert(self@.take(i + 1) =~= self@.take(i as int).push(self@[i as int]));
                lemma_sum_prefix(self@, i + 1);
            }
            match checked_add(total, self.emitted[i].elapsed) {
                Some(longer) => {
                    total = longer;
                },
                None => {
                    return None;
                },
            }
            i += 1;
        }
        assert(self@.take(self.emitted.len() as int) =~= self@);
        Some(total)
    }

    /// The number of records and their elapsed times added up.
    pub fn total(&self) -> (stats: Stats)
        requires
            elapsed_sum(self@) <= max_nanos(),
        ensures
            stats.files == self@.len(),
            duration_nanos(stats.elapsed) == elapsed_sum(self@),
    {
        match self.sum() {
            Some(elapsed) => Stats { files: self.emitted.len(), elapsed },
            None => unreached(),
        }
    }

    /// The same as [`CollectedStats::total`], or `None` where the elapsed
    /// times add up to more than a `Duration` can hold.
    pub fn checked_total(&self) -> (stats: Option<Stats>)
        ensures
            stats is Some <==> elapsed_sum(self@) <= max_nanos(),
            stats matches Some(total) ==> total.files == self@.len() && duration_nanos(
                total.elapsed,
            ) == elapsed_sum(self@),
    {
        match self.sum() {
            Some(_) => Some(self.total()),
            None => None,
        }
    }
}

/// One more record adds its elapsed time to the sum.
pub proof fn lemma_sum_push(stats: Seq<StatView>, stat: StatView)
    ensures
        elapsed_sum(stats.push(stat)) == elapsed_sum(stats) + stat.elapsed,
{
    assert(stats.push(stat).drop_last() =~= stats);
}

/// The sum over the first `n` records is no more than the sum over all.
pub proof fn lemma_sum_prefix(stats: Seq<StatView>, n: int)
    requires
        0 <= n <= stats.len(),
    ensures
        elapsed_sum(stats.take(n)) <= elapsed_sum(stats),
    decreases stats.len() - n,
{
    if n < stats.len() {
        lemma_sum_prefix(stats, n + 1);
        assert(stats.take(n + 1) =~= stats.take(n).push(stats[n]));
        lemma_sum_push(stats.take(n), stats[n]);
    } else {
        assert(stats.take(n) =~= stats);
    }
}

/// The sum over two runs of records, one after the other, is the sum of
/// their sums, and the count is the sum of their counts.
pub proof fn lemma_sum_concat(first: Seq<StatView>, second: Seq<StatView>)
    ensures
        (first + second).len() == first.len() + second.len(),
        elapsed_sum(first + second) == elapsed_sum(first) + elapsed_sum(second),
    decreases second.len(),
{
    if second.len() == 0 {
        assert(first + second =~= first);
    } else {
        lemma_sum_concat(first, second.drop_last());
        assert(first + second =~= (first + second.drop_last()).push(second.last()));
        lemma_sum_push(first + second.drop_last(), second.last());
        assert(second =~= second.drop_last().push(second.last()));
        lemma_sum_push(second.drop_last(), second.last());
    }
}

/// The records of several packages, one package after the other.
pub open spec fn gathered(packages: Seq<Seq<StatView>>) -> Seq<StatView>
    decreases packages.len(),
{
    if packages.len() == 0 {
        Seq::empty()
    } else {
        gathered(packages.drop_last()) + packages.last()
    }
}

/// The number of records of several packages together.
pub open spec fn files_compiled(packages: Seq<Seq<StatView>>) -> nat
    decreases packages.len(),
{
    if packages.len() == 0 {
        0
    } else {
        files_compiled(packages.drop_last()) + packages.last().len()
    }
}

/// The elapsed times of several packages, each added up by itself, together.
pub open spec fn time_spent(packages: Seq<Seq<StatView>>) -> nat
    decreases packages.len(),
{
    if packages.len() == 0 {
        0
    } else {
        time_spent(packages.drop_last()) + elapsed_sum(packages.last())
    }
}

/// A collection that received the records of several packages, one package
/// after the other, counts as many files as the packages hold together, and
/// its sum is the sum of the packages' sums.
pub proof fn lemma_total_over_packages(packages: Seq<Seq<StatView>>)
    ensures
        gathered(packages).len() == files_compiled(packages),
        elapsed_sum(gathered(packages)) == time_spent(packages),
    decreases packages.len(),
{
    if packages.len() > 0 {
        lemma_total_over_packages(packages.drop_last());
        lemma_sum_concat(gathered(packages.drop_last()), packages.last());
    }
}

/// The aggregate does not depend on the order of the records: two
/// collections that hold the same records, each as often as the other, have
/// the same count and the same sum.
pub proof fn lemma_sum_order_independent(first: Seq<StatView>, second: Seq<StatView>)
    requires
        first.to_multiset() == second.to_multiset(),
    ensures
        first.len() == second.len(),
        elapsed_sum(first) == elapsed_sum(second),
{
    first.to_multiset_ensures();
    second.to_multiset_ensures();
    assert(commutative_foldl(add_elapsed()));
    lemma_fold_left_permutation(first, second, add_elapsed(), 0nat);
}

} // verus!
