//! The values that the components hand to one another.

use serde_json::Value;
use vstd::prelude::*;
use vstd::string::StringExecFns;

verus! {

/// What a query gave, whichever backend answered it.
#[derive(Debug, Clone, PartialEq)]
pub enum QueryResults {
    /// No rows.
    Empty,
    /// The rows, in the order in which the backend gave them.
    NonEmpty(Vec<Value>),
}

impl QueryResults {
    /// The rows, in order; none for `Empty`.
    pub open spec fn rows(&self) -> Seq<Value> {
        match self {
            QueryResults::Empty => Seq::empty(),
            QueryResults::NonEmpty(rows) => rows@,
        }
    }

    /// The canonical shape of a row sequence: `Empty` where there is no row.
    pub fn from_rows(rows: Vec<Value>) -> (r: QueryResults)
        ensures
            r.rows() == rows@,
            r is Empty <==> rows@.len() == 0,
    {
        if rows.len() == 0 {
            QueryResults::Empty
        } else {
            QueryResults::NonEmpty(rows)
        }
    }

    /// Whether there is no row to show or to write.
    pub fn is_empty(&self) -> (r: bool)
        ensures
            r == (self.rows().len() == 0),
    {
        match self {
            QueryResults::Empty => true,
            QueryResults::NonEmpty(rows) => rows.len() == 0,
        }
    }
}

/// The formats in which results are written to a file.
#[derive(Debug, Clone, Copy, PartialEq, Eq, Structural)]
pub enum OutputFormat {
    Csv,
    Json,
}

/// The program through which long output is shown.
#[derive(Debug, Clone, PartialEq, Eq)]
pub struct Pager {
    command: String,
}

/// Why a command cannot serve as a pager.
#[derive(Debug, Clone, Copy, PartialEq, Eq)]
pub enum PagerError {
    /// The command is empty.
    EmptyCommand,
}

impl PagerError {
    /// The error as a sentence for the user.
    pub fn message(&self) -> (r: String)
        ensures
            r@ == "the pager command is empty"@,
    {
        match self {
            PagerError::EmptyCommand => String::from_str("the pager command is empty"),
        }
    }
}

impl View for Pager {
    type V = Seq<char>;

    /// The command that starts the pager.
    closed spec fn view(&self) -> Seq<char> {
        self.command@
    }
}

impl Pager {
    /// The command of the pager that is used where none is configured.
    pub open spec fn default_command() -> Seq<char> {
        "less"@
    }

    /// A pager started by `command`, which must not be empty.
    pub fn custom(command: &str) -> (r: Result<Pager, PagerError>)
        ensures
            command@.len() == 0 ==> r == Err::<Pager, PagerError>(PagerError::EmptyCommand),
            command@.len() != 0 ==> r is Ok && r->Ok_0@ == command@,
    {
        if command.is_empty() {
            Err(PagerError::EmptyCommand)
        } else {
            Ok(Pager { command: command.to_owned() })
        }
    }

    /// The pager that is used where none is configured.
    pub fn default() -> (r: Pager)
        ensures
            r@ == Pager::default_command(),
    {
        Pager { command: String::from_str("less") }
    }

    /// The command that starts the pager.
    pub fn command(&self) -> (r: &str)
        ensures
            r@ == self@,
    {
        self.command.as_str()
    }
}

} // verus!
