use grf::app::{debug_info, delivery, plan, query_banner};
use grf::app::{AppError, Args, Command, Delivery, OutputOptions, Plan, QueryOptions};
use grf::benchmark::BenchmarkError;
use grf::cmds::{query_outcome, ConsoleError};
use grf::domain::{OutputFormat, QueryResults};
use grf::repository::ConfigurationError;
use grf::service::WriteError;
use grf::utils::EnvVarError;

fn output(page_results: bool, write_results: bool) -> OutputOptions {
    OutputOptions {
        page_results,
        write_results,
        results_directory: ".grf".to_string(),
        results_format: OutputFormat::Json,
    }
}

fn query(text: &str, benchmark: bool, page_results: bool, write_results: bool) -> Args {
    Args {
        debug: false,
        command: Command::Query(QueryOptions {
            query: text.to_string(),
            benchmark,
            bench_num_runs: 10,
            bench_num_warmup_runs: 3,
            print_query: true,
            output: output(page_results, write_results),
        }),
    }
}

fn rows() -> QueryResults {
    QueryResults::NonEmpty(vec![serde_json::from_str(r#"{"a":1}"#).unwrap()])
}

#[test]
fn debug_comes_before_everything_else() {
    let mut args = query("MATCH (n) RETURN n", true, false, true);
    args.debug = true;
    assert_eq!(plan(&args), Ok(Plan::PrintDebugInfo));
}

#[test]
fn console_command_opens_the_console() {
    let args = Args { debug: false, command: Command::Console(output(true, true)) };
    assert_eq!(plan(&args), Ok(Plan::OpenConsole));
}

#[test]
fn benchmark_and_written_results_exclude_each_other() {
    let args = query("MATCH (n) RETURN n", true, false, true);
    let error = plan(&args).unwrap_err();
    assert_eq!(
        error,
        AppError::Uncategorised("cannot benchmark and write results at the same time".to_string())
    );
    assert_eq!(error.message(), "cannot benchmark and write results at the same time");
    assert!(!error.is_unexpected());
    assert_eq!(error.follow_up(), None);
}

#[test]
fn benchmark_plan_carries_the_counts() {
    assert_eq!(
        plan(&query("RETURN 1", true, true, false)),
        Ok(Plan::Benchmark {
            needs_pager: true,
            query_from_stdin: false,
            print_query: true,
            runs: 10,
            warmups: 3
        })
    );
}

#[test]
fn a_hyphen_stands_for_a_query_from_standard_input() {
    assert_eq!(
        plan(&query("-", false, false, true)),
        Ok(Plan::Execute {
            needs_pager: false,
            query_from_stdin: true,
            print_query: true,
            write_results: true
        })
    );
    assert_eq!(
        plan(&query("--", false, true, false)),
        Ok(Plan::Execute {
            needs_pager: true,
            query_from_stdin: false,
            print_query: true,
            write_results: false
        })
    );
}

#[test]
fn empty_results_are_neither_written_nor_shown() {
    for write_results in [false, true] {
        for has_pager in [false, true] {
            assert_eq!(delivery(&QueryResults::Empty, write_results, has_pager), Delivery::NoResults);
            assert_eq!(
                delivery(&QueryResults::NonEmpty(vec![]), write_results, has_pager),
                Delivery::NoResults
            );
        }
    }
}

#[test]
fn results_are_written_paged_or_printed() {
    assert_eq!(delivery(&rows(), true, false), Delivery::WriteToDirectory { page: false });
    assert_eq!(delivery(&rows(), true, true), Delivery::WriteToDirectory { page: true });
    assert_eq!(delivery(&rows(), false, true), Delivery::PageFromTemporaryDirectory);
    assert_eq!(delivery(&rows(), false, false), Delivery::PrintTable);
}

#[test]
fn query_is_shown_between_rulers() {
    assert_eq!(query_banner("RETURN 1"), "---\nRETURN 1\n---\n");
}

#[test]
fn debug_information_of_a_query_names_the_command() {
    let args = Args {
        debug: true,
        command: Command::Query(QueryOptions {
            query: "RETURN 1".to_string(),
            benchmark: false,
            bench_num_runs: 1,
            bench_num_warmup_runs: 0,
            print_query: false,
            output: OutputOptions {
                page_results: true,
                write_results: false,
                results_directory: "out".to_string(),
                results_format: OutputFormat::Csv,
            },
        }),
    };
    assert_eq!(
        debug_info(&args),
        "DEBUG INFO\n\ncommand:                    query\ndisplay results via pager:  true\nwrite results:              false\nresults directory:          out\nresults format:             csv\n"
    );
}

#[test]
fn only_a_missing_home_directory_is_unexpected() {
    let xdg = AppError::XdgError("no home".to_string());
    assert!(xdg.is_unexpected());
    assert_eq!(xdg.follow_up(), None);
    assert_eq!(xdg.message(), "couldn't determine your home directory: no home");
    let cmd = AppError::ConsoleCmdError(ConsoleError::QueryExecutionFailed("boom".to_string()));
    assert!(!cmd.is_unexpected());
    assert_eq!(cmd.follow_up(), None);
    assert_eq!(cmd.message(), "boom");
    let other = AppError::Uncategorised("anything".to_string());
    assert!(!other.is_unexpected());
    assert_eq!(other.follow_up(), None);
}

#[test]
fn a_failed_query_keeps_the_backend_message() {
    let outcome = query_outcome(Err("Syntax error at line 1".to_string()));
    match outcome {
        Err(ConsoleError::QueryExecutionFailed(message)) => {
            assert_eq!(message, "Syntax error at line 1")
        }
        _ => panic!("a failed query expected"),
    }
}

#[test]
fn an_answered_query_is_normalised() {
    let answer = serde_json::from_str(r#"{"results":[{"a":1},{"a":2}]}"#).unwrap();
    match query_outcome(Ok(answer)) {
        Ok(QueryResults::NonEmpty(rows)) => assert_eq!(rows.len(), 2),
        _ => panic!("two rows expected"),
    }
    let nothing = serde_json::from_str(r#"{"results":[]}"#).unwrap();
    assert!(matches!(query_outcome(Ok(nothing)), Ok(QueryResults::Empty)));
}

#[test]
fn command_errors_speak_for_themselves() {
    assert_eq!(
        ConsoleError::CredentialsUnavailable("no provider".to_string()).message(),
        "couldn't find credentials: no provider"
    );
    assert_eq!(
        ConsoleError::ConnectionFailed("refused".to_string()).message(),
        "couldn't connect to the database: refused"
    );
    assert_eq!(
        ConsoleError::Benchmark(BenchmarkError::BenchmarkRunFailed {
            run_index: 120,
            message: "timeout".to_string()
        })
        .message(),
        "benchmark run 120 failed: timeout"
    );
    assert_eq!(
        ConsoleError::Benchmark(BenchmarkError::WarmupFailed("down".to_string())).message(),
        "warmup run failed: down"
    );
    assert_eq!(
        ConsoleError::Write(WriteError::UnsupportedFormat(OutputFormat::Csv)).message(),
        "unsupported results format: csv"
    );
    assert_eq!(
        ConsoleError::Configuration(ConfigurationError::MissingConfiguration(
            "NEO4J_USER".to_string()
        ))
        .message(),
        "NEO4J_USER is not set"
    );
    assert_eq!(
        ConsoleError::Configuration(ConfigurationError::InvalidEnvironment(
            EnvVarError::EnvVarIsInvalid("DB_URI".to_string())
        ))
        .message(),
        "environment variable \"DB_URI\" is not valid unicode"
    );
}

#[test]
fn query_from_standard_input_is_trimmed() {
    assert_eq!(grf::app::resolve_query("-", "  MATCH (n)\n RETURN n \n\n"), "MATCH (n)\n RETURN n");
    assert_eq!(grf::app::resolve_query("RETURN 1 ", "ignored"), "RETURN 1 ");
    assert_eq!(grf::app::resolve_query("-", "\u{2003}\t"), "");
}
