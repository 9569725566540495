use grf::benchmark::{BenchmarkError, BenchmarkStats, Benchmarker, Execution, Step};

/// Runs a benchmark against the given outcomes and says how many warmups and
/// measured executions were asked for, and how it ended.
fn drive(run_count: usize, warmup_count: usize, outcomes: Vec<Execution>) -> (usize, usize, Step) {
    let mut outcomes = outcomes.into_iter();
    let mut warmups = 0;
    let mut measured = 0;
    let mut step = Benchmarker::start(run_count, warmup_count);
    loop {
        step = match step {
            Step::Warmup(benchmarker) => {
                warmups += 1;
                benchmarker.advance(outcomes.next().expect("an outcome for the warmup"))
            }
            Step::Measure(benchmarker) => {
                measured += 1;
                benchmarker.advance(outcomes.next().expect("an outcome for the run"))
            }
            ended => {
                assert!(outcomes.next().is_none());
                return (warmups, measured, ended);
            }
        };
    }
}

fn successes(durations: &[u64]) -> Vec<Execution> {
    durations.iter().map(|d| Execution::Succeeded(*d)).collect()
}

#[test]
fn warmups_come_first_and_are_not_measured() {
    let (warmups, measured, end) = drive(3, 2, successes(&[900, 800, 30, 10, 20]));
    assert_eq!(warmups, 2);
    assert_eq!(measured, 3);
    match end {
        Step::Finished(stats) => {
            assert_eq!(stats.run_count(), 3);
            assert_eq!(stats.warmup_count(), 2);
            assert_eq!(stats.durations(), &vec![30, 10, 20]);
            assert_eq!(stats.min(), Some(10));
            assert_eq!(stats.max(), Some(30));
            assert_eq!(stats.mean(), Some(20));
        }
        _ => panic!("statistics expected"),
    }
}

#[test]
fn benchmark_of_nothing_reports_no_data() {
    let (warmups, measured, end) = drive(0, 0, vec![]);
    assert_eq!((warmups, measured), (0, 0));
    match end {
        Step::Finished(stats) => {
            assert_eq!(stats.durations().len(), 0);
            assert_eq!(stats.min(), None);
            assert_eq!(stats.max(), None);
            assert_eq!(stats.mean(), None);
        }
        _ => panic!("statistics expected"),
    }
}

#[test]
fn warmups_alone_give_an_empty_sample() {
    let (warmups, measured, end) = drive(0, 4, successes(&[1, 2, 3, 4]));
    assert_eq!((warmups, measured), (4, 0));
    assert_eq!(end, Step::Finished(BenchmarkStats::from_durations(4, vec![])));
}

#[test]
fn no_warmups_measure_at_once() {
    let (warmups, measured, end) = drive(2, 0, successes(&[7, 8]));
    assert_eq!((warmups, measured), (0, 2));
    assert_eq!(end, Step::Finished(BenchmarkStats::from_durations(0, vec![7, 8])));
}

#[test]
fn failed_run_names_its_index() {
    let mut outcomes = successes(&[5, 5, 11, 12]);
    outcomes.push(Execution::Failed("connection dropped".to_string()));
    let (warmups, measured, end) = drive(5, 2, outcomes);
    assert_eq!((warmups, measured), (2, 3));
    assert_eq!(
        end,
        Step::Aborted(BenchmarkError::BenchmarkRunFailed {
            run_index: 2,
            message: "connection dropped".to_string()
        })
    );
}

#[test]
fn failure_of_the_first_run_has_index_zero() {
    let (_, measured, end) = drive(3, 0, vec![Execution::Failed("syntax error".to_string())]);
    assert_eq!(measured, 1);
    assert_eq!(
        end,
        Step::Aborted(BenchmarkError::BenchmarkRunFailed {
            run_index: 0,
            message: "syntax error".to_string()
        })
    );
}

#[test]
fn failed_warmup_gives_the_benchmark_up() {
    let (warmups, measured, end) =
        drive(3, 2, vec![Execution::Succeeded(1), Execution::Failed("timeout".to_string())]);
    assert_eq!((warmups, measured), (2, 0));
    assert_eq!(end, Step::Aborted(BenchmarkError::WarmupFailed("timeout".to_string())));
}

#[test]
fn mean_is_rounded_down() {
    let stats = BenchmarkStats::from_durations(0, vec![1, 2, 2]);
    assert_eq!(stats.mean(), Some(1));
    assert_eq!(stats.min(), Some(1));
    assert_eq!(stats.max(), Some(2));
}

#[test]
fn mean_of_the_longest_durations_does_not_overflow() {
    let stats = BenchmarkStats::from_durations(0, vec![u64::MAX, u64::MAX, u64::MAX - 3]);
    assert_eq!(stats.mean(), Some(u64::MAX - 1));
    assert_eq!(stats.min(), Some(u64::MAX - 3));
    assert_eq!(stats.max(), Some(u64::MAX));
}

#[test]
fn benchmarker_remembers_what_was_asked_for() {
    match Benchmarker::start(4, 1) {
        Step::Warmup(benchmarker) => {
            assert_eq!(benchmarker.run_count(), 4);
            assert_eq!(benchmarker.warmup_count(), 1);
        }
        _ => panic!("a warmup expected"),
    }
}
