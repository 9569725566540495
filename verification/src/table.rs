//! Text tables, drawn by `tabled`.
//!
//! A [`Builder`] collects the records of a table and is carried through the
//! library unopened. Every item of this file is believed rather than proved:
//! each states what the `tabled` function it calls does.

use tabled::builder::Builder;
use tabled::settings::style::Style;
use vstd::prelude::*;

verus! {

/// `tabled::builder::Builder`, of which the library sees nothing but what
/// the functions below tell.
#[verifier::external_type_specification]
#[verifier::external_body]
pub struct ExBuilder(tabled::builder::Builder);

/// What a builder holds: its records in the order in which they were pushed,
/// each as the texts of its cells.
pub uninterp spec fn records(b: Builder) -> Seq<Seq<Seq<char>>>;

/// The number of columns that a builder counts.
pub uninterp spec fn columns(b: Builder) -> nat;

/// The text that `tabled` draws for the given records in its `psql` style:
/// the first record above a ruler, columns parted by bars, no outer frame.
pub uninterp spec fn psql_table(records: Seq<Seq<Seq<char>>>) -> Seq<char>;

/// The text of a table: the drawing of its records, and nothing where it
/// has no record or no column.
pub open spec fn table_text(records: Seq<Seq<Seq<char>>>) -> Seq<char> {
    if records.len() == 0 || records[0].len() == 0 {
        Seq::empty()
    } else {
        psql_table(records)
    }
}

/// The texts of a record's cells.
pub open spec fn texts(record: Seq<String>) -> Seq<Seq<char>> {
    Seq::new(record.len(), |i: int| record[i]@)
}

/// `Builder::default`: a builder without records or columns.
pub assume_specification[ <tabled::builder::Builder as Default>::default ]() -> (b: Builder)
    ensures
        records(b) == Seq::<Seq<Seq<char>>>::empty(),
        columns(b) == 0,
;

/// `Builder::push_record` with a record as wide as the builder, or with the
/// first record of a builder that counts no more columns than it has cells:
/// the record is appended as it is. (Other widths make `tabled` fill cells
/// in; the library pushes none.)
#[verifier::external_body]
pub(crate) fn push_record(builder: &mut Builder, record: &Vec<String>)
    requires
        record@.len() == columns(*old(builder)) || (records(*old(builder)).len() == 0
            && record@.len() >= columns(*old(builder))),
    ensures
        records(*final(builder)) == records(*old(builder)).push(texts(record@)),
        columns(*final(builder)) == record@.len(),
{
    builder.push_record(record);
}

/// `Builder::build`, `Table::with` given `Style::psql()`, and the table's
/// `to_string`, for records of one width: the drawing of the builder's
/// records. A table without rows or without columns is drawn as nothing.
#[verifier::external_body]
pub(crate) fn build_psql(builder: Builder) -> (text: String)
    requires
        forall|i: int|
            0 <= i < records(builder).len() ==> (#[trigger] records(builder)[i]).len() == records(
                builder,
            )[0].len(),
    ensures
        text@ == if records(builder).len() == 0 || records(builder)[0].len() == 0 {
            Seq::<char>::empty()
        } else {
            psql_table(records(builder))
        },
{
    builder.build().with(Style::psql()).to_string()
}

} // verus!
