//! Latency benchmarking of one query on one connection.
//!
//! A benchmark executes the query `warmup_count` times without keeping
//! anything, then `run_count` times under the clock, one execution after
//! the other. The executions themselves are the caller's business: the
//! [`Benchmarker`] says what to do next, is told how it went, and in the end
//! hands out the statistics or the error that stopped it.

use crate::text::decimal;
use crate::text::decimal_text;
use vstd::prelude::*;
use vstd::string::StringExecFns;

verus! {

/// The sum of a sequence of durations.
pub open spec fn total(durations: Seq<u64>) -> nat
    decreases durations.len(),
{
    if durations.len() == 0 {
        0
    } else {
        total(durations.drop_last()) + durations.last() as nat
    }
}

/// Whether `m` is the least of the durations.
pub open spec fn is_least(durations: Seq<u64>, m: u64) -> bool {
    durations.contains(m) && forall|i: int| 0 <= i < durations.len() ==> m <= durations[i]
}

/// Whether `m` is the greatest of the durations.
pub open spec fn is_greatest(durations: Seq<u64>, m: u64) -> bool {
    durations.contains(m) && forall|i: int| 0 <= i < durations.len() ==> durations[i] <= m
}

/// The arithmetic mean of the durations, rounded down to a whole number;
/// `None` where there is no duration to divide by.
pub open spec fn mean_of(durations: Seq<u64>) -> Option<nat> {
    if durations.len() == 0 {
        None
    } else {
        Some(total(durations) / durations.len())
    }
}

/// The sum of durations is at most their number times the greatest value.
pub proof fn lemma_total_bound(durations: Seq<u64>)
    ensures
        total(durations) <= durations.len() * u64::MAX,
    decreases durations.len(),
{
    if durations.len() > 0 {
        lemma_total_bound(durations.drop_last());
        assert((durations.len() - 1) * u64::MAX + u64::MAX == durations.len() * u64::MAX)
            by (nonlinear_arith);
    }
}

/// The mean lies between the least and the greatest duration.
pub proof fn lemma_mean_between(durations: Seq<u64>, least: u64, greatest: u64)
    requires
        is_least(durations, least),
        is_greatest(durations, greatest),
    ensures
        mean_of(durations) is Some,
        least <= mean_of(durations)->Some_0 <= greatest,
{
    lemma_total_between(durations, least, greatest);
    let n = durations.len();
    let t = total(durations);
    assert(n > 0);
    assert(least <= t / n <= greatest) by (nonlinear_arith)
        requires
            n > 0,
            n * least <= t <= n * greatest,
    ;
}

/// The sum lies between the number of durations times a lower bound and
/// that number times an upper bound.
pub proof fn lemma_total_between(durations: Seq<u64>, low: u64, high: u64)
    requires
        forall|i: int| 0 <= i < durations.len() ==> low <= (#[trigger] durations[i]) <= high,
    ensures
        durations.len() * low <= total(durations) <= durations.len() * high,
    decreases durations.len(),
{
    if durations.len() > 0 {
        lemma_total_between(durations.drop_last(), low, high);
        assert((durations.len() - 1) * low + low == durations.len() * low) by (nonlinear_arith);
        assert((durations.len() - 1) * high + high == durations.len() * high)
            by (nonlinear_arith);
    } else {
        assert(durations.len() * low == 0 && durations.len() * high == 0) by (nonlinear_arith)
            requires
                durations.len() == 0,
        ;
    }
}

/// What a benchmark measured: the number of executions that came first and
/// were not measured, the duration of each measured execution in
/// nanoseconds, in order, and what follows from the durations.
#[derive(Debug, PartialEq, Eq)]
pub struct BenchmarkStats {
    warmup_count: usize,
    durations: Vec<u64>,
    min: Option<u64>,
    max: Option<u64>,
    mean: Option<u64>,
}

/// Statistics as a mathematical value.
pub struct StatsView {
    pub warmup_count: nat,
    pub durations: Seq<u64>,
}

impl StatsView {
    /// The number of measured executions.
    pub open spec fn run_count(self) -> nat {
        self.durations.len()
    }
}

impl View for BenchmarkStats {
    type V = StatsView;

    closed spec fn view(&self) -> StatsView {
        StatsView { warmup_count: self.warmup_count as nat, durations: self.durations@ }
    }
}

/// The least and the greatest of the durations.
fn extremes(durations: &Vec<u64>) -> (r: (Option<u64>, Option<u64>))
    ensures
        match r.0 {
            Some(m) => is_least(durations@, m),
            None => durations@.len() == 0,
        },
        match r.1 {
            Some(m) => is_greatest(durations@, m),
            None => durations@.len() == 0,
        },
{
    if durations.len() == 0 {
        return (None, None);
    }
    let mut least: u64 = durations[0];
    let mut greatest: u64 = durations[0];
    let mut i: usize = 1;
    while i < durations.len()
        invariant
            1 <= i <= durations.len(),
            exists|k: int| 0 <= k < i && durations@[k] == least,
            exists|k: int| 0 <= k < i && durations@[k] == greatest,
            forall|k: int| 0 <= k < i ==> least <= (#[trigger] durations@[k]) <= greatest,
        decreases durations.len() - i,
    {
        let d: u64 = durations[i];
        if d < least {
            least = d;
        }
        if d > greatest {
            greatest = d;
        }
        i += 1;
    }
    (Some(least), Some(greatest))
}

/// The mean of the durations, rounded down.
fn mean(durations: &Vec<u64>) -> (r: Option<u64>)
    ensures
        match r {
            Some(m) => mean_of(durations@) == Some(m as nat),
            None => mean_of(durations@).is_none(),
        },
{
    if durations.len() == 0 {
        return None;
    }
    let mut sum: u128 = 0;
    let mut i: usize = 0;
    assert(durations@.take(0) =~= Seq::empty());
    while i < durations.len()
        invariant
            i <= durations.len(),
            sum == total(durations@.take(i as int)),
        decreases durations.len() - i,
    {
        proof {
            let next = durations@.take(i + 1);
            assert(next.drop_last() =~= durations@.take(i as int));
            lemma_total_bound(next);
            assert(next.len() * u64::MAX <= usize::MAX * u64::MAX) by (nonlinear_arith)
                requires
                    next.len() <= usize::MAX,
            ;
            assert(usize::MAX * u64::MAX <= u128::MAX) by (nonlinear_arith)
                requires
                    usize::MAX <= 0xffff_ffff_ffff_ffff,
                    u64::MAX == 0xffff_ffff_ffff_ffff,
                    u128::MAX == 0xffff_ffff_ffff_ffff_ffff_ffff_ffff_ffff,
            ;
        }
        sum = sum + durations[i] as u128;
        i += 1;
    }
    assert(durations@.take(durations.len() as int) =~= durations@);
    let n: u128 = durations.len() as u128;
    proof {
        lemma_total_bound(durations@);
        assert(sum / n <= u64::MAX) by (nonlinear_arith)
            requires
                n > 0,
                sum <= n * u64::MAX,
        ;
    }
    Some((sum / n) as u64)
}

impl BenchmarkStats {
    #[verifier::type_invariant]
    spec fn wf(self) -> bool {
        &&& match self.min {
            Some(m) => is_least(self.durations@, m),
            None => self.durations@.len() == 0,
        }
        &&& match self.max {
            Some(m) => is_greatest(self.durations@, m),
            None => self.durations@.len() == 0,
        }
        &&& match self.mean {
            Some(m) => mean_of(self.durations@) == Some(m as nat),
            None => mean_of(self.durations@).is_none(),
        }
    }

    /// The statistics of the given measurements, taken after `warmup_count`
    /// executions that were not measured.
    pub fn from_durations(warmup_count: usize, durations: Vec<u64>) -> (r: BenchmarkStats)
        ensures
            r@ == (StatsView { warmup_count: warmup_count as nat, durations: durations@ }),
    {
        let (min, max) = extremes(&durations);
        let mean = mean(&durations);
        BenchmarkStats { warmup_count, durations, min, max, mean }
    }

    /// The number of measured executions.
    pub fn run_count(&self) -> (r: usize)
        ensures
            r == self@.run_count(),
    {
        self.durations.len()
    }

    /// The number of executions that came before and were not measured.
    pub fn warmup_count(&self) -> (r: usize)
        ensures
            r == self@.warmup_count,
    {
        self.warmup_count
    }

    /// The duration of each measured execution in nanoseconds, in order.
    pub fn durations(&self) -> (r: &Vec<u64>)
        ensures
            r@ == self@.durations,
    {
        &self.durations
    }

    /// The shortest duration; `None` where nothing was measured.
    pub fn min(&self) -> (r: Option<u64>)
        ensures
            match r {
                Some(m) => is_least(self@.durations, m),
                None => self@.durations.len() == 0,
            },
    {
        proof {
            use_type_invariant(self);
        }
        self.min
    }

    /// The longest duration; `None` where nothing was measured.
    pub fn max(&self) -> (r: Option<u64>)
        ensures
            match r {
                Some(m) => is_greatest(self@.durations, m),
                None => self@.durations.len() == 0,
            },
    {
        proof {
            use_type_invariant(self);
        }
        self.max
    }

    /// The mean of the durations, rounded down to a whole nanosecond; `None`
    /// where nothing was measured, so that nothing is divided by zero.
    pub fn mean(&self) -> (r: Option<u64>)
        ensures
            match r {
                Some(m) => mean_of(self@.durations) == Some(m as nat),
                None => self@.durations.len() == 0,
            },
    {
        proof {
            use_type_invariant(self);
        }
        self.mean
    }
}

/// How one execution of the query went.
#[derive(Debug, Clone, PartialEq, Eq)]
pub enum Execution {
    /// The backend answered; the call took this many nanoseconds.
    Succeeded(u64),
    /// The backend failed, with this message.
    Failed(String),
}

/// Why a benchmark was given up.
#[derive(Debug, Clone, PartialEq, Eq)]
pub enum BenchmarkError {
    /// An execution before the measured ones failed.
    WarmupFailed(String),
    /// The measured execution with this index, counted from zero, failed.
    BenchmarkRunFailed { run_index: usize, message: String },
}

/// A benchmark under way: it has an execution to ask for.
#[derive(Debug, PartialEq, Eq)]
pub struct Benchmarker {
    run_count: usize,
    warmup_count: usize,
    warmups_done: usize,
    durations: Vec<u64>,
}

/// What a benchmark asks of its caller, or how it ended.
#[derive(Debug, PartialEq, Eq)]
pub enum Step {
    /// Execute the query once and keep nothing but whether it succeeded.
    Warmup(Benchmarker),
    /// Execute the query once and take the time of the call.
    Measure(Benchmarker),
    /// Every execution succeeded: the statistics.
    Finished(BenchmarkStats),
    /// An execution failed: the benchmark is given up and no statistics exist.
    Aborted(BenchmarkError),
}

/// An execution's outcome as a mathematical value.
pub enum Outcome {
    Succeeded(u64),
    Failed(Seq<char>),
}

/// A benchmark error as a mathematical value.
pub enum Failure {
    WarmupFailed(Seq<char>),
    BenchmarkRunFailed { run_index: nat, message: Seq<char> },
}

/// A benchmark under way as a mathematical value: what was asked for, and
/// what has been done.
pub struct Progress {
    pub run_count: nat,
    pub warmup_count: nat,
    pub warmups_done: nat,
    pub durations: Seq<u64>,
}

/// A step as a mathematical value.
pub enum Course {
    Warmup(Progress),
    Measure(Progress),
    Finished(StatsView),
    Aborted(Failure),
}

impl Progress {
    /// Whether the benchmark is in order and has an execution left to do.
    pub open spec fn pending(self) -> bool {
        &&& self.warmups_done <= self.warmup_count
        &&& self.durations.len() <= self.run_count
        &&& self.durations.len() > 0 ==> self.warmups_done == self.warmup_count
        &&& self.warmups_done < self.warmup_count || self.durations.len() < self.run_count
    }

    /// What comes next: the warmups that are left, then the measured
    /// executions that are left, then the statistics.
    pub open spec fn next(self) -> Course {
        if self.warmups_done < self.warmup_count {
            Course::Warmup(self)
        } else if self.durations.len() < self.run_count {
            Course::Measure(self)
        } else {
            Course::Finished(
                StatsView { warmup_count: self.warmup_count, durations: self.durations },
            )
        }
    }

    /// What follows the execution that was asked for. A success counts as a
    /// warmup while warmups are left, else its duration is kept; a failure
    /// ends the benchmark, and that of a measured execution names its index.
    pub open spec fn advance(self, outcome: Outcome) -> Course {
        if self.warmups_done < self.warmup_count {
            match outcome {
                Outcome::Succeeded(_) => (Progress {
                    warmups_done: self.warmups_done + 1,
                    ..self
                }).next(),
                Outcome::Failed(message) => Course::Aborted(Failure::WarmupFailed(message)),
            }
        } else {
            match outcome {
                Outcome::Succeeded(elapsed) => (Progress {
                    durations: self.durations.push(elapsed),
                    ..self
                }).next(),
                Outcome::Failed(message) => Course::Aborted(
                    Failure::BenchmarkRunFailed { run_index: self.durations.len(), message },
                ),
            }
        }
    }
}

/// The first step of a benchmark.
pub open spec fn started(run_count: nat, warmup_count: nat) -> Course {
    (Progress { run_count, warmup_count, warmups_done: 0, durations: Seq::empty() }).next()
}

/// Where a benchmark stands after the given outcomes, each being that of the
/// execution asked for before it. Outcomes after the end change nothing.
pub open spec fn course_after(run_count: nat, warmup_count: nat, outcomes: Seq<Outcome>) -> Course
    decreases outcomes.len(),
{
    if outcomes.len() == 0 {
        started(run_count, warmup_count)
    } else {
        match course_after(run_count, warmup_count, outcomes.drop_last()) {
            Course::Warmup(progress) => progress.advance(outcomes.last()),
            Course::Measure(progress) => progress.advance(outcomes.last()),
            ended => ended,
        }
    }
}

/// The durations of outcomes that are all successes.
pub open spec fn elapsed(outcomes: Seq<Outcome>) -> Seq<u64> {
    Seq::new(outcomes.len(), |i: int| outcomes[i]->Succeeded_0)
}

impl View for Execution {
    type V = Outcome;

    open spec fn view(&self) -> Outcome {
        match self {
            Execution::Succeeded(elapsed) => Outcome::Succeeded(*elapsed),
            Execution::Failed(message) => Outcome::Failed(message@),
        }
    }
}

impl View for BenchmarkError {
    type V = Failure;

    open spec fn view(&self) -> Failure {
        match self {
            BenchmarkError::WarmupFailed(message) => Failure::WarmupFailed(message@),
            BenchmarkError::BenchmarkRunFailed { run_index, message } => {
                Failure::BenchmarkRunFailed { run_index: *run_index as nat, message: message@ }
            },
        }
    }
}

impl Failure {
    /// The error as a sentence for the user.
    pub open spec fn message_text(self) -> Seq<char> {
        match self {
            Failure::WarmupFailed(message) => "warmup run failed: "@ + message,
            Failure::BenchmarkRunFailed { run_index, message } => "benchmark run "@ + decimal_text(
                run_index,
            ) + " failed: "@ + message,
        }
    }
}

impl BenchmarkError {
    /// The error as a sentence for the user; that of a measured execution
    /// names its index.
    pub fn message(&self) -> (r: String)
        ensures
            r@ == self@.message_text(),
    {
        match self {
            BenchmarkError::WarmupFailed(message) => String::from_str("warmup run failed: ").concat(
                message.as_str(),
            ),
            BenchmarkError::BenchmarkRunFailed { run_index, message } => String::from_str(
                "benchmark run ",
            ).concat(decimal(*run_index).as_str()).concat(" failed: ").concat(message.as_str()),
        }
    }
}

impl View for Benchmarker {
    type V = Progress;

    closed spec fn view(&self) -> Progress {
        Progress {
            run_count: self.run_count as nat,
            warmup_count: self.warmup_count as nat,
            warmups_done: self.warmups_done as nat,
            durations: self.durations@,
        }
    }
}

impl View for Step {
    type V = Course;

    open spec fn view(&self) -> Course {
        match self {
            Step::Warmup(benchmarker) => Course::Warmup(benchmarker@),
            Step::Measure(benchmarker) => Course::Measure(benchmarker@),
            Step::Finished(stats) => Course::Finished(stats@),
            Step::Aborted(error) => Course::Aborted(error@),
        }
    }
}

/// The step that follows from what has been done.
fn next_step(run_count: usize, warmup_count: usize, warmups_done: usize, durations: Vec<u64>) -> (s:
    Step)
    requires
        warmups_done <= warmup_count,
        durations@.len() <= run_count,
        durations@.len() > 0 ==> warmups_done == warmup_count,
    ensures
        s@ == (Progress {
            run_count: run_count as nat,
            warmup_count: warmup_count as nat,
            warmups_done: warmups_done as nat,
            durations: durations@,
        }).next(),
{
    if warmups_done < warmup_count {
        Step::Warmup(Benchmarker { run_count, warmup_count, warmups_done, durations })
    } else if durations.len() < run_count {
        Step::Measure(Benchmarker { run_count, warmup_count, warmups_done, durations })
    } else {
        Step::Finished(BenchmarkStats::from_durations(warmup_count, durations))
    }
}

impl Benchmarker {
    #[verifier::type_invariant]
    spec fn wf(self) -> bool {
        self@.pending()
    }

    /// Begins a benchmark of `run_count` measured executions after
    /// `warmup_count` executions that are not measured. With both counts
    /// zero it is finished at once, with statistics over no measurement.
    pub fn start(run_count: usize, warmup_count: usize) -> (s: Step)
        ensures
            s@ == started(run_count as nat, warmup_count as nat),
    {
        next_step(run_count, warmup_count, 0, Vec::new())
    }

    /// Takes the outcome of the execution that was asked for and says what
    /// follows.
    pub fn advance(self, outcome: Execution) -> (s: Step)
        ensures
            self@.pending(),
            s@ == self@.advance(outcome@),
    {
        proof {
            use_type_invariant(&self);
        }
        let Benchmarker { run_count, warmup_count, warmups_done, durations } = self;
        if warmups_done < warmup_count {
            match outcome {
                Execution::Succeeded(_) => next_step(
                    run_count,
                    warmup_count,
                    warmups_done + 1,
                    durations,
                ),
                Execution::Failed(message) => Step::Aborted(BenchmarkError::WarmupFailed(message)),
            }
        } else {
            match outcome {
                Execution::Succeeded(elapsed) => {
                    let mut durations = durations;
                    durations.push(elapsed);
                    next_step(run_count, warmup_count, warmups_done, durations)
                },
                Execution::Failed(message) => Step::Aborted(
                    BenchmarkError::BenchmarkRunFailed { run_index: durations.len(), message },
                ),
            }
        }
    }

    /// The number of measured executions that were asked for.
    pub fn run_count(&self) -> (r: usize)
        ensures
            r == self@.run_count,
    {
        self.run_count
    }

    /// The number of executions that come before and are not measured.
    pub fn warmup_count(&self) -> (r: usize)
        ensures
            r == self@.warmup_count,
    {
        self.warmup_count
    }
}

/// While every execution succeeds, a benchmark asks for its warmups first
/// and for its measured executions after them.
pub proof fn lemma_course_of_successes(run_count: nat, warmup_count: nat, outcomes: Seq<Outcome>)
    requires
        outcomes.len() <= warmup_count + run_count,
        forall|i: int| 0 <= i < outcomes.len() ==> (#[trigger] outcomes[i]) is Succeeded,
    ensures
        course_after(run_count, warmup_count, outcomes) == (Progress {
            run_count,
            warmup_count,
            warmups_done: if outcomes.len() <= warmup_count {
                outcomes.len()
            } else {
                warmup_count
            },
            durations: if outcomes.len() <= warmup_count {
                Seq::empty()
            } else {
                elapsed(outcomes.skip(warmup_count as int))
            },
        }).next(),
    decreases outcomes.len(),
{
    if outcomes.len() > 0 {
        let before = outcomes.drop_last();
        lemma_course_of_successes(run_count, warmup_count, before);
        assert(outcomes.last() == outcomes[outcomes.len() - 1]);
        if outcomes.len() > warmup_count {
            if before.len() > warmup_count {
                assert(elapsed(outcomes.skip(warmup_count as int)) =~= elapsed(
                    before.skip(warmup_count as int),
                ).push(outcomes.last()->Succeeded_0));
            } else {
                assert(elapsed(outcomes.skip(warmup_count as int)) =~= Seq::<u64>::empty().push(
                    outcomes.last()->Succeeded_0,
                ));
            }
        }
    }
}

/// A benchmark in which every execution succeeds does exactly `warmup_count`
/// executions that are not measured, then exactly `run_count` measured ones,
/// and ends with statistics over the `run_count` durations of these, in order.
pub proof fn lemma_successful_benchmark(run_count: nat, warmup_count: nat, outcomes: Seq<Outcome>)
    requires
        outcomes.len() == warmup_count + run_count,
        forall|i: int| 0 <= i < outcomes.len() ==> (#[trigger] outcomes[i]) is Succeeded,
    ensures
        forall|k: int|
            0 <= k < warmup_count ==> #[trigger] course_after(
                run_count,
                warmup_count,
                outcomes.take(k),
            ) is Warmup,
        forall|k: int|
            warmup_count <= k < warmup_count + run_count ==> #[trigger] course_after(
                run_count,
                warmup_count,
                outcomes.take(k),
            ) is Measure,
        course_after(run_count, warmup_count, outcomes) == Course::Finished(
            StatsView { warmup_count, durations: elapsed(outcomes.skip(warmup_count as int)) },
        ),
        elapsed(outcomes.skip(warmup_count as int)).len() == run_count,
{
    assert forall|k: int| 0 <= k < warmup_count + run_count implies (if k < warmup_count {
        #[trigger] course_after(run_count, warmup_count, outcomes.take(k)) is Warmup
    } else {
        course_after(run_count, warmup_count, outcomes.take(k)) is Measure
    }) by {
        lemma_course_of_successes(run_count, warmup_count, outcomes.take(k));
    }
    lemma_course_of_successes(run_count, warmup_count, outcomes);
    if run_count == 0 {
        assert(elapsed(outcomes.skip(warmup_count as int)) =~= Seq::<u64>::empty());
    }
}

/// A benchmark without measured executions ends, once its warmups have
/// succeeded, with statistics over no measurement, which have no mean: nothing
/// is divided by zero. Without warmups either, it ends before any execution.
pub proof fn lemma_benchmark_without_runs(warmup_count: nat, outcomes: Seq<Outcome>)
    requires
        outcomes.len() == warmup_count,
        forall|i: int| 0 <= i < outcomes.len() ==> (#[trigger] outcomes[i]) is Succeeded,
    ensures
        course_after(0, warmup_count, outcomes) == Course::Finished(
            StatsView { warmup_count, durations: Seq::empty() },
        ),
        mean_of(Seq::<u64>::empty()).is_none(),
        started(0, 0) == Course::Finished(StatsView { warmup_count: 0, durations: Seq::empty() }),
{
    lemma_successful_benchmark(0, warmup_count, outcomes);
    assert(elapsed(outcomes.skip(warmup_count as int)) =~= Seq::<u64>::empty());
}

/// When the measured execution with index `run_index` fails after all
/// executions before it succeeded, the benchmark is given up with an error
/// that names that index and carries the message; no statistics exist.
pub proof fn lemma_failed_run(
    run_count: nat,
    warmup_count: nat,
    outcomes: Seq<Outcome>,
    run_index: nat,
)
    requires
        run_index < run_count,
        outcomes.len() == warmup_count + run_index + 1,
        forall|i: int| 0 <= i < outcomes.len() - 1 ==> (#[trigger] outcomes[i]) is Succeeded,
        outcomes.last() is Failed,
    ensures
        course_after(run_count, warmup_count, outcomes) == Course::Aborted(
            Failure::BenchmarkRunFailed { run_index, message: outcomes.last()->Failed_0 },
        ),
{
    lemma_course_of_successes(run_count, warmup_count, outcomes.drop_last());
}

/// When an execution before the measured ones fails after all executions
/// before it succeeded, the benchmark is given up with the error of a failed
/// warmup, which carries the message.
pub proof fn lemma_failed_warmup(run_count: nat, warmup_count: nat, outcomes: Seq<Outcome>)
    requires
        0 < outcomes.len() <= warmup_count,
        forall|i: int| 0 <= i < outcomes.len() - 1 ==> (#[trigger] outcomes[i]) is Succeeded,
        outcomes.last() is Failed,
    ensures
        course_after(run_count, warmup_count, outcomes) == Course::Aborted(
            Failure::WarmupFailed(outcomes.last()->Failed_0),
        ),
{
    lemma_course_of_successes(run_count, warmup_count, outcomes.drop_last());
}

} // verus!
