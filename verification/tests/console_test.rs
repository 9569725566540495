use grf::app::{debug_info, Args, Command, OutputOptions};
use grf::domain::OutputFormat;

fn console(page_results: bool, write_results: bool, directory: &str) -> Args {
    Args {
        debug: true,
        command: Command::Console(OutputOptions {
            page_results,
            write_results,
            results_directory: directory.to_string(),
            results_format: OutputFormat::Json,
        }),
    }
}

#[test]
fn debug_flag_works_for_defaults() {
    // GIVEN
    let args = console(false, false, ".grf");

    // WHEN
    let stdout = debug_info(&args);

    // THEN
    assert_eq!(
        stdout,
        "DEBUG INFO\n\
         \n\
         command:                    console\n\
         display results via pager:  false\n\
         write results:              false\n\
         results directory:          .grf\n\
         results format:             json\n"
    );
}

#[test]
fn debug_flag_works_for_overridden_flags() {
    // GIVEN
    let args = console(false, true, "path/to/results/dir");

    // WHEN
    let stdout = debug_info(&args);

    // THEN
    assert_eq!(
        stdout,
        "DEBUG INFO\n\
         \n\
         command:                    console\n\
         display results via pager:  false\n\
         write results:              true\n\
         results directory:          path/to/results/dir\n\
         results format:             json\n"
    );
}
