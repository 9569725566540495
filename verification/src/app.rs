//! The decisions of one invocation: what to do for the given arguments, and
//! what to do with the results of a query.

use crate::cmds::ConsoleError;
use crate::domain::OutputFormat;
use crate::domain::QueryResults;
use crate::text::trim;
use crate::text::trimmed;
use crate::text::truth;
use crate::view::drawn;
use crate::view::entries_of;
use crate::text::truth_text;
use vstd::prelude::*;
use vstd::string::StringExecFns;

verus! {

/// Why an invocation failed.
#[derive(Debug, Clone, PartialEq, Eq)]
pub enum AppError {
    /// The home directory could not be determined; the text says why.
    XdgError(String),
    /// A command failed.
    ConsoleCmdError(ConsoleError),
    /// Anything else, in its own words.
    Uncategorised(String),
}

impl AppError {
    /// The error as a sentence for the user.
    pub open spec fn message_text(&self) -> Seq<char> {
        match self {
            AppError::XdgError(reason) => "couldn't determine your home directory: "@ + reason@,
            AppError::ConsoleCmdError(e) => e.message_text(),
            AppError::Uncategorised(message) => message@,
        }
    }

    /// The error as a sentence for the user.
    pub fn message(&self) -> (r: String)
        ensures
            r@ == self.message_text(),
    {
        match self {
            AppError::XdgError(reason) => String::from_str(
                "couldn't determine your home directory: ",
            ).concat(reason.as_str()),
            AppError::ConsoleCmdError(e) => e.message(),
            AppError::Uncategorised(message) => message.clone(),
        }
    }

    /// A hint that is shown after the error: no error has one.
    pub fn follow_up(&self) -> (r: Option<String>)
        ensures
            r is None,
    {
        match self {
            AppError::XdgError(_) => None,
            AppError::ConsoleCmdError(_) => None,
            AppError::Uncategorised(_) => None,
        }
    }

    /// Whether the error is one that the user could not have caused: only a
    /// home directory that cannot be determined is.
    pub fn is_unexpected(&self) -> (r: bool)
        ensures
            r == (self is XdgError),
    {
        match self {
            AppError::XdgError(_) => true,
            AppError::ConsoleCmdError(_) => false,
            AppError::Uncategorised(_) => false,
        }
    }
}

/// Where results go, as given on the command line.
#[derive(Debug, Clone, PartialEq, Eq)]
pub struct OutputOptions {
    pub page_results: bool,
    pub write_results: bool,
    pub results_directory: String,
    pub results_format: OutputFormat,
}

/// A query and how to run it, as given on the command line.
#[derive(Debug, Clone, PartialEq, Eq)]
pub struct QueryOptions {
    /// The query, or `-` for a query that is read from standard input.
    pub query: String,
    pub benchmark: bool,
    pub bench_num_runs: usize,
    pub bench_num_warmup_runs: usize,
    pub print_query: bool,
    pub output: OutputOptions,
}

/// The command of an invocation.
#[derive(Debug, Clone, PartialEq, Eq)]
pub enum Command {
    Console(OutputOptions),
    Query(QueryOptions),
}

/// The arguments of an invocation.
#[derive(Debug, Clone, PartialEq, Eq)]
pub struct Args {
    pub debug: bool,
    pub command: Command,
}

/// What an invocation is to do.
#[derive(Debug, Clone, Copy, PartialEq, Eq, Structural)]
pub enum Plan {
    /// Print the arguments and do nothing else.
    PrintDebugInfo,
    /// Open the console.
    OpenConsole,
    /// Benchmark the query.
    Benchmark {
        needs_pager: bool,
        query_from_stdin: bool,
        print_query: bool,
        runs: usize,
        warmups: usize,
    },
    /// Execute the query once and deliver its results.
    Execute { needs_pager: bool, query_from_stdin: bool, print_query: bool, write_results: bool },
}

/// What is done with the results of a query.
#[derive(Debug, Clone, Copy, PartialEq, Eq, Structural)]
pub enum Delivery {
    /// There are no rows: say so, and write and show nothing.
    NoResults,
    /// Write the results to the results directory, and show the file in the
    /// pager if `page` is set.
    WriteToDirectory { page: bool },
    /// Write the results to a temporary directory and show the file in the
    /// pager.
    PageFromTemporaryDirectory,
    /// Print the results as a table.
    PrintTable,
}

impl Command {
    /// Where the results of the command go.
    pub open spec fn output(&self) -> OutputOptions {
        match self {
            Command::Console(output) => *output,
            Command::Query(options) => options.output,
        }
    }

    /// The name of the command.
    pub open spec fn name(&self) -> Seq<char> {
        match self {
            Command::Console(_) => "console"@,
            Command::Query(_) => "query"@,
        }
    }
}

/// The plan for the given arguments; `None` where they ask both for a
/// benchmark and for written results. A request for debug information comes
/// before everything else.
pub open spec fn plan_of(args: Args) -> Option<Plan> {
    if args.debug {
        Some(Plan::PrintDebugInfo)
    } else {
        match args.command {
            Command::Console(_) => Some(Plan::OpenConsole),
            Command::Query(options) => if options.benchmark && options.output.write_results {
                None
            } else if options.benchmark {
                Some(
                    Plan::Benchmark {
                        needs_pager: options.output.page_results,
                        query_from_stdin: options.query@ == "-"@,
                        print_query: options.print_query,
                        runs: options.bench_num_runs,
                        warmups: options.bench_num_warmup_runs,
                    },
                )
            } else {
                Some(
                    Plan::Execute {
                        needs_pager: options.output.page_results,
                        query_from_stdin: options.query@ == "-"@,
                        print_query: options.print_query,
                        write_results: options.output.write_results,
                    },
                )
            },
        }
    }
}

/// Decides what an invocation is to do. Asking for a benchmark and for
/// written results at once is an error.
pub fn plan(args: &Args) -> (r: Result<Plan, AppError>)
    ensures
        match plan_of(*args) {
            Some(p) => r == Ok::<Plan, AppError>(p),
            None => r is Err && r->Err_0 is Uncategorised && r->Err_0->Uncategorised_0@
                == "cannot benchmark and write results at the same time"@,
        },
{
    if args.debug {
        return Ok(Plan::PrintDebugInfo);
    }
    match &args.command {
        Command::Console(_) => Ok(Plan::OpenConsole),
        Command::Query(options) => {
            if options.benchmark && options.output.write_results {
                return Err(
                    AppError::Uncategorised(
                        String::from_str("cannot benchmark and write results at the same time"),
                    ),
                );
            }
            let stdin_marker = String::from_str("-");
            let query_from_stdin = options.query == stdin_marker;
            if options.benchmark {
                Ok(
                    Plan::Benchmark {
                        needs_pager: options.output.page_results,
                        query_from_stdin,
                        print_query: options.print_query,
                        runs: options.bench_num_runs,
                        warmups: options.bench_num_warmup_runs,
                    },
                )
            } else {
                Ok(
                    Plan::Execute {
                        needs_pager: options.output.page_results,
                        query_from_stdin,
                        print_query: options.print_query,
                        write_results: options.output.write_results,
                    },
                )
            }
        },
    }
}

/// What is done with results: nothing where there are no rows; else they
/// are written where that was asked for, shown in the pager where one was
/// chosen, and printed as a table otherwise.
pub open spec fn delivery_of(rows: Seq<serde_json::Value>, write_results: bool, has_pager: bool)
    -> Delivery {
    if rows.len() == 0 {
        Delivery::NoResults
    } else if write_results {
        Delivery::WriteToDirectory { page: has_pager }
    } else if has_pager {
        Delivery::PageFromTemporaryDirectory
    } else {
        Delivery::PrintTable
    }
}

/// Decides what is done with the results of a query.
pub fn delivery(results: &QueryResults, write_results: bool, has_pager: bool) -> (r: Delivery)
    ensures
        r == delivery_of(results.rows(), write_results, has_pager),
{
    if results.is_empty() {
        Delivery::NoResults
    } else if write_results {
        Delivery::WriteToDirectory { page: has_pager }
    } else if has_pager {
        Delivery::PageFromTemporaryDirectory
    } else {
        Delivery::PrintTable
    }
}

/// Results without rows give no table, and nothing is written or shown for
/// them, whatever was asked for.
pub proof fn lemma_nothing_for_empty_results(
    results: QueryResults,
    write_results: bool,
    has_pager: bool,
)
    requires
        results is Empty || results.rows().len() == 0,
    ensures
        drawn(entries_of(results.rows())) is None,
        delivery_of(results.rows(), write_results, has_pager) == Delivery::NoResults,
{
}

/// The query to run: the one given, or, where a hyphen was given in its
/// place, what was read from standard input, without the white space around
/// it.
pub open spec fn query_text(given: Seq<char>, input: Seq<char>) -> Seq<char> {
    if given == "-"@ {
        trimmed(input)
    } else {
        given
    }
}

/// Settles the query to run, once standard input has been read where the
/// plan asked for it; `input` is not looked at otherwise.
pub fn resolve_query(given: &str, input: &str) -> (r: String)
    ensures
        r@ == query_text(given@, input@),
{
    let stdin_marker = String::from_str("-");
    if given.to_owned() == stdin_marker {
        trim(input).to_owned()
    } else {
        given.to_owned()
    }
}

/// The query between two rulers, as it is shown before it runs.
pub fn query_banner(query: &str) -> (r: String)
    ensures
        r@ == "---\n"@ + query@ + "\n---\n"@,
{
    String::from_str("---\n").concat(query).concat("\n---\n")
}

/// The debug information for the given arguments: the command and where its
/// results go, one line each.
pub open spec fn debug_text(args: Args) -> Seq<char> {
    "DEBUG INFO\n\ncommand:                    "@ + args.command.name()
        + "\ndisplay results via pager:  "@ + truth_text(args.command.output().page_results)
        + "\nwrite results:              "@ + truth_text(args.command.output().write_results)
        + "\nresults directory:          "@ + args.command.output().results_directory@
        + "\nresults format:             "@ + args.command.output().results_format.extension_text()
        + "\n"@
}

/// Writes the debug information for the given arguments.
pub fn debug_info(args: &Args) -> (r: String)
    ensures
        r@ == debug_text(*args),
{
    let (name, output) = match &args.command {
        Command::Console(output) => ("console", output),
        Command::Query(options) => ("query", &options.output),
    };
    String::from_str("DEBUG INFO\n\ncommand:                    ").concat(name).concat(
        "\ndisplay results via pager:  ",
    ).concat(truth(output.page_results)).concat("\nwrite results:              ").concat(
        truth(output.write_results),
    ).concat("\nresults directory:          ").concat(output.results_directory.as_str()).concat(
        "\nresults format:             ",
    ).concat(output.results_format.extension()).concat("\n")
}

} // verus!
