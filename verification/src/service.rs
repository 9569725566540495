//! Results as a file: its name and its contents.
//!
//! The file is named by the reference time and the format's extension, and
//! holds every member of every row. Writing it is left to the caller.

use crate::calendar::ReferenceTime;
use crate::domain::OutputFormat;
use crate::json::pretty_text;
use crate::json::to_pretty_text;
use serde_json::Value;
use vstd::prelude::*;
use vstd::string::StringExecFns;

verus! {

/// Why results could not be written.
#[derive(Debug, Clone, PartialEq, Eq)]
pub enum WriteError {
    /// The format has no writer.
    UnsupportedFormat(OutputFormat),
    /// The rows could not be turned into text.
    SerializationFailed,
    /// The directory at the given path could not be created.
    DirectoryCreationFailed(String),
    /// The file at the given path could not be opened.
    FileCreationFailed(String),
    /// The file at the given path could not be written in full.
    WriteFailed(String),
}

/// A file to be written: its name within the results directory, and its text.
#[derive(Debug, Clone, PartialEq, Eq)]
pub struct ResultsFile {
    pub name: String,
    pub contents: String,
}

impl OutputFormat {
    /// Whether results can be written in this format.
    pub open spec fn supported(self) -> bool {
        self is Json
    }

    /// The extension of a file in this format.
    pub open spec fn extension_text(self) -> Seq<char> {
        match self {
            OutputFormat::Csv => "csv"@,
            OutputFormat::Json => "json"@,
        }
    }

    /// The extension of a file in this format.
    pub fn extension(&self) -> (r: &'static str)
        ensures
            r@ == self.extension_text(),
    {
        match self {
            OutputFormat::Csv => "csv",
            OutputFormat::Json => "json",
        }
    }
}

impl WriteError {
    /// The error as a sentence for the user.
    pub open spec fn message_text(&self) -> Seq<char> {
        match self {
            WriteError::UnsupportedFormat(format) => "unsupported results format: "@
                + format.extension_text(),
            WriteError::SerializationFailed => "couldn't serialize results to JSON"@,
            WriteError::DirectoryCreationFailed(path) => "failed to create results directory: "@
                + path@,
            WriteError::FileCreationFailed(path) => "couldn't open output file: "@ + path@,
            WriteError::WriteFailed(path) => "couldn't write bytes to file: "@ + path@,
        }
    }

    /// The error as a sentence for the user.
    pub fn message(&self) -> (r: String)
        ensures
            r@ == self.message_text(),
    {
        match self {
            WriteError::UnsupportedFormat(format) => String::from_str(
                "unsupported results format: ",
            ).concat(format.extension()),
            WriteError::SerializationFailed => String::from_str(
                "couldn't serialize results to JSON",
            ),
            WriteError::DirectoryCreationFailed(path) => String::from_str(
                "failed to create results directory: ",
            ).concat(path.as_str()),
            WriteError::FileCreationFailed(path) => String::from_str(
                "couldn't open output file: ",
            ).concat(path.as_str()),
            WriteError::WriteFailed(path) => String::from_str(
                "couldn't write bytes to file: ",
            ).concat(path.as_str()),
        }
    }
}

/// The name of the results file for a reference time: the time's stamp, a
/// dot, and the format's extension.
pub open spec fn file_name_of(format: OutputFormat, stamp: Seq<char>) -> Seq<char> {
    stamp + seq!['.'] + format.extension_text()
}

/// Names the results file. A format without a writer gets no name.
pub fn results_file_name(format: &OutputFormat, reference_time: &ReferenceTime) -> (r: Result<
    String,
    WriteError,
>)
    ensures
        match r {
            Ok(name) => format.supported() && name@ == file_name_of(
                *format,
                reference_time@.stamp(),
            ),
            Err(e) => !format.supported() && e == WriteError::UnsupportedFormat(*format),
        },
{
    match format {
        OutputFormat::Csv => Err(WriteError::UnsupportedFormat(OutputFormat::Csv)),
        OutputFormat::Json => {
            let name = reference_time.stamp().concat(".").concat(format.extension());
            proof {
                reveal_strlit(".");
                assert("."@ =~= seq!['.']);
            }
            Ok(name)
        },
    }
}

/// The text of the rows in a format, once the serialiser has answered: `None`
/// stands for its failure.
pub open spec fn serialized(format: OutputFormat, pretty: Option<Seq<char>>) -> Result<
    Seq<char>,
    WriteError,
> {
    match format {
        OutputFormat::Csv => Err(WriteError::UnsupportedFormat(format)),
        OutputFormat::Json => match pretty {
            Some(text) => Ok(text),
            None => Err(WriteError::SerializationFailed),
        },
    }
}

/// Whatever the rows and whatever the serialiser answers, results in CSV
/// end in the error of an unsupported format, and never in text for a file.
pub proof fn lemma_csv_is_refused(pretty: Option<Seq<char>>)
    ensures
        !OutputFormat::Csv.supported(),
        serialized(OutputFormat::Csv, pretty) == Err::<Seq<char>, WriteError>(
            WriteError::UnsupportedFormat(OutputFormat::Csv),
        ),
{
}

/// The contents of a JSON file, once the serialiser has answered: its text,
/// or the error of a failed serialisation.
pub fn json_contents(answer: Result<String, serde_json::Error>) -> (r: Result<String, WriteError>)
    ensures
        match answer {
            Ok(text) => r == Ok::<String, WriteError>(text),
            Err(_) => r == Err::<String, WriteError>(WriteError::SerializationFailed),
        },
{
    match answer {
        Ok(text) => Ok(text),
        Err(_) => Err(WriteError::SerializationFailed),
    }
}

/// Serialises rows for a file: as an indented JSON array that holds every
/// member of every row. A format without a writer is refused.
pub fn render_to_format(results: &[Value], format: &OutputFormat) -> (r: Result<
    String,
    WriteError,
>)
    ensures
        match serialized(*format, pretty_text(results@)) {
            Ok(text) => r is Ok && r->Ok_0@ == text,
            Err(e) => r == Err::<String, WriteError>(e),
        },
{
    match format {
        OutputFormat::Csv => Err(WriteError::UnsupportedFormat(OutputFormat::Csv)),
        OutputFormat::Json => json_contents(to_pretty_text(results)),
    }
}

/// Prepares the results file: its name by the reference time, its contents
/// by the format. Nothing is prepared for a format without a writer.
pub fn results_file(
    results: &[Value],
    format: &OutputFormat,
    reference_time: &ReferenceTime,
) -> (r: Result<ResultsFile, WriteError>)
    ensures
        match serialized(*format, pretty_text(results@)) {
            Ok(text) => r is Ok && r->Ok_0.contents@ == text && r->Ok_0.name@ == file_name_of(
                *format,
                reference_time@.stamp(),
            ),
            Err(e) => r == Err::<ResultsFile, WriteError>(e),
        },
{
    let name = match results_file_name(format, reference_time) {
        Ok(name) => name,
        Err(e) => {
            return Err(e);
        },
    };
    match render_to_format(results, format) {
        Ok(contents) => Ok(ResultsFile { name, contents }),
        Err(e) => Err(e),
    }
}

} // verus!
