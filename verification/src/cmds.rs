//! What the commands do with a backend's answers, and how they fail.

use crate::benchmark::BenchmarkError;
use crate::domain::QueryResults;
use crate::query::normalize;
use crate::query::payload_rows;
use crate::repository::ConfigurationError;
use crate::service::WriteError;
use serde_json::Value;
use vstd::prelude::*;
use vstd::string::StringExecFns;

verus! {

/// Why a command failed.
#[derive(Debug, Clone, PartialEq, Eq)]
pub enum ConsoleError {
    /// The connection URI or a variable that it calls for is not in order.
    Configuration(ConfigurationError),
    /// No credentials for the managed service could be found.
    CredentialsUnavailable(String),
    /// The session with the database could not be opened.
    ConnectionFailed(String),
    /// The backend refused or failed the query; the message is its own.
    QueryExecutionFailed(String),
    /// A benchmark was given up.
    Benchmark(BenchmarkError),
    /// The results could not be written.
    Write(WriteError),
}

impl ConsoleError {
    /// The error as a sentence for the user.
    pub open spec fn message_text(&self) -> Seq<char> {
        match self {
            ConsoleError::Configuration(e) => e.message_text(),
            ConsoleError::CredentialsUnavailable(message) => "couldn't find credentials: "@
                + message@,
            ConsoleError::ConnectionFailed(message) => "couldn't connect to the database: "@
                + message@,
            ConsoleError::QueryExecutionFailed(message) => message@,
            ConsoleError::Benchmark(e) => e@.message_text(),
            ConsoleError::Write(e) => e.message_text(),
        }
    }

    /// The error as a sentence for the user. A failed query is reported in
    /// the backend's own words.
    pub fn message(&self) -> (r: String)
        ensures
            r@ == self.message_text(),
    {
        match self {
            ConsoleError::Configuration(e) => e.message(),
            ConsoleError::CredentialsUnavailable(message) => String::from_str(
                "couldn't find credentials: ",
            ).concat(message.as_str()),
            ConsoleError::ConnectionFailed(message) => String::from_str(
                "couldn't connect to the database: ",
            ).concat(message.as_str()),
            ConsoleError::QueryExecutionFailed(message) => message.clone(),
            ConsoleError::Benchmark(e) => e.message(),
            ConsoleError::Write(e) => e.message(),
        }
    }
}

/// What a query gave, once the backend has answered or failed: the rows of
/// the answer in canonical shape, or the failure with the backend's message
/// as it came. Nothing is tried again.
pub fn query_outcome(answer: Result<Value, String>) -> (r: Result<QueryResults, ConsoleError>)
    ensures
        match answer {
            Ok(raw) => r is Ok && r->Ok_0.rows() == (match payload_rows(raw) {
                Some(rows) => rows,
                None => Seq::empty(),
            }) && (r->Ok_0 is Empty <==> r->Ok_0.rows().len() == 0),
            Err(message) => r is Err && r->Err_0 is QueryExecutionFailed
                && r->Err_0->QueryExecutionFailed_0@ == message@,
        },
{
    match answer {
        Ok(raw) => Ok(normalize(&raw)),
        Err(message) => Err(ConsoleError::QueryExecutionFailed(message)),
    }
}

} // verus!
