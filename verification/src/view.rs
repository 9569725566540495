//! Query results as a text table.
//!
//! The header of the table is made of the keys of the first row, in the
//! order in which that row holds them. Every row that is an object gives
//! one line: under each header column the row's value for that key, or an
//! empty cell where the row lacks the key. Keys that only later rows hold
//! are not shown.

use crate::domain::QueryResults;
use crate::json::compact_text;
use crate::json::get_member;
use crate::json::is_json_null;
use crate::json::keys_of;
use crate::json::member_value;
use crate::json::members;
use crate::json::object_map;
use crate::json::string_content;
use crate::json::to_compact_text;
use crate::query::payload_rows;
use crate::query::rows_of;
use crate::table::build_psql;
use crate::table::columns;
use crate::table::push_record;
use crate::table::records;
use crate::table::table_text;
use crate::table::texts;
use serde_json::Value;
use tabled::builder::Builder;
use vstd::prelude::*;
use vstd::string::StringExecFns;

verus! {

/// What a table cell shows of a value.
#[derive(Debug, Clone, PartialEq, Eq)]
pub enum Cell {
    /// JSON `null`.
    Null,
    /// A JSON string, shown as it is.
    Text(String),
    /// Any other value, by its JSON text.
    Other(String),
}

/// One member of a row: a column name and the value under it.
#[derive(Debug, Clone, PartialEq, Eq)]
pub struct Field {
    pub name: String,
    pub value: Cell,
}

/// One element of a row sequence.
#[derive(Debug, Clone, PartialEq, Eq)]
pub enum Entry {
    /// A row: its members in order. Where a name occurs twice, the first
    /// member counts.
    Object(Vec<Field>),
    /// An element that is no object and gives no line.
    Other,
}

/// A member of a row as the table sees it: the column name and the text shown.
pub struct FieldView {
    pub name: Seq<char>,
    pub text: Seq<char>,
}

impl Cell {
    /// The text that the cell shows.
    pub open spec fn shown(&self) -> Seq<char> {
        match self {
            Cell::Null => "null"@,
            Cell::Text(s) => s@,
            Cell::Other(s) => s@,
        }
    }

    /// The text that the cell shows.
    pub fn text(&self) -> (r: String)
        ensures
            r@ == self.shown(),
    {
        match self {
            Cell::Null => String::from_str("null"),
            Cell::Text(s) => s.clone(),
            Cell::Other(s) => s.clone(),
        }
    }
}

impl View for Field {
    type V = FieldView;

    open spec fn view(&self) -> FieldView {
        FieldView { name: self.name@, text: self.value.shown() }
    }
}

/// The members of a row as the table sees them.
pub open spec fn field_views(fields: Seq<Field>) -> Seq<FieldView> {
    Seq::new(fields.len(), |i: int| fields[i]@)
}

impl View for Entry {
    type V = Option<Seq<FieldView>>;

    open spec fn view(&self) -> Option<Seq<FieldView>> {
        match self {
            Entry::Object(fields) => Some(field_views(fields@)),
            Entry::Other => None,
        }
    }
}

/// The elements of a row sequence as the table sees them.
pub open spec fn entry_views(entries: Seq<Entry>) -> Seq<Option<Seq<FieldView>>> {
    Seq::new(entries.len(), |i: int| entries[i]@)
}

/// The text shown for column `name` in a row: that of the first member with
/// that name, or nothing where the row has none.
pub open spec fn cell_text(fields: Seq<FieldView>, name: Seq<char>) -> Seq<char>
    decreases fields.len(),
{
    if fields.len() == 0 {
        Seq::empty()
    } else if fields[0].name == name {
        fields[0].text
    } else {
        cell_text(fields.drop_first(), name)
    }
}

/// The header that a row gives: the names of its members, in order.
pub open spec fn header_of(fields: Seq<FieldView>) -> Seq<Seq<char>> {
    Seq::new(fields.len(), |i: int| fields[i].name)
}

/// The line that a row gives under `header`.
pub open spec fn line_of(fields: Seq<FieldView>, header: Seq<Seq<char>>) -> Seq<Seq<char>> {
    Seq::new(header.len(), |j: int| cell_text(fields, header[j]))
}

/// The lines under `header`: one for each element that is an object, in
/// order.
pub open spec fn lines_of(entries: Seq<Option<Seq<FieldView>>>, header: Seq<Seq<char>>) -> Seq<
    Seq<Seq<char>>,
>
    decreases entries.len(),
{
    if entries.len() == 0 {
        Seq::empty()
    } else {
        let before = lines_of(entries.drop_last(), header);
        match entries.last() {
            Some(fields) => before.push(line_of(fields, header)),
            None => before,
        }
    }
}

/// The records of the table for a row sequence: the header that the first
/// element gives, then the lines. Where the first element is no object, or
/// there is none, the table has no records.
pub open spec fn table_of(entries: Seq<Option<Seq<FieldView>>>) -> Seq<Seq<Seq<char>>> {
    if entries.len() > 0 && entries[0] is Some {
        let header = header_of(entries[0]->Some_0);
        seq![header] + lines_of(entries, header)
    } else {
        Seq::empty()
    }
}

/// The texts of the cells of each record.
pub open spec fn record_texts(records: Seq<Vec<String>>) -> Seq<Seq<Seq<char>>> {
    Seq::new(records.len(), |i: int| texts(records[i]@))
}

/// Every line under a header is as wide as the header.
pub proof fn lemma_lines_width(entries: Seq<Option<Seq<FieldView>>>, header: Seq<Seq<char>>)
    ensures
        forall|i: int|
            0 <= i < lines_of(entries, header).len() ==> (#[trigger] lines_of(
                entries,
                header,
            )[i]).len() == header.len(),
    decreases entries.len(),
{
    if entries.len() > 0 {
        let before = lines_of(entries.drop_last(), header);
        lemma_lines_width(entries.drop_last(), header);
        assert forall|i: int| 0 <= i < lines_of(entries, header).len() implies (#[trigger] lines_of(
            entries,
            header,
        )[i]).len() == header.len() by {
            if i < before.len() {
                assert(lines_of(entries, header)[i] == before[i]);
            } else {
                assert(lines_of(entries, header)[i] == line_of(entries.last()->Some_0, header));
            }
        }
    }
}

/// Every record of a table is as wide as its first, the header.
pub proof fn lemma_table_is_rectangular(entries: Seq<Option<Seq<FieldView>>>)
    ensures
        forall|i: int|
            0 <= i < table_of(entries).len() ==> (#[trigger] table_of(entries)[i]).len()
                == table_of(entries)[0].len(),
{
    if entries.len() > 0 && entries[0] is Some {
        lemma_lines_width(entries, header_of(entries[0]->Some_0));
    }
}

/// A row that has no member of a name shows nothing in the column of that
/// name.
pub proof fn lemma_missing_key_gives_empty_cell(fields: Seq<FieldView>, name: Seq<char>)
    requires
        forall|i: int| 0 <= i < fields.len() ==> (#[trigger] fields[i]).name != name,
    ensures
        cell_text(fields, name) == Seq::<char>::empty(),
    decreases fields.len(),
{
    if fields.len() > 0 {
        assert(fields[0].name != name);
        assert forall|i: int| 0 <= i < fields.drop_first().len() implies (
        #[trigger] fields.drop_first()[i]).name != name by {
            assert(fields.drop_first()[i] == fields[i + 1]);
        }
        lemma_missing_key_gives_empty_cell(fields.drop_first(), name);
    }
}

/// A row shows in the column of a name the text of its first member of that
/// name.
pub proof fn lemma_first_member_is_shown(fields: Seq<FieldView>, name: Seq<char>, at: int)
    requires
        0 <= at < fields.len(),
        fields[at].name == name,
        forall|i: int| 0 <= i < at ==> (#[trigger] fields[i]).name != name,
    ensures
        cell_text(fields, name) == fields[at].text,
    decreases fields.len(),
{
    if at > 0 {
        assert(fields[0].name != name);
        assert forall|i: int| 0 <= i < at - 1 implies (#[trigger] fields.drop_first()[i]).name
            != name by {
            assert(fields.drop_first()[i] == fields[i + 1]);
        }
        assert(fields.drop_first()[at - 1] == fields[at]);
        lemma_first_member_is_shown(fields.drop_first(), name, at - 1);
    }
}

/// The first record of a table is the header: the names of the members of
/// the first row, in the row's order. The second is the line of that row.
pub proof fn lemma_header_is_first_row(entries: Seq<Option<Seq<FieldView>>>)
    requires
        entries.len() > 0,
        entries[0] is Some,
    ensures
        table_of(entries).len() >= 2,
        table_of(entries)[0] == header_of(entries[0]->Some_0),
        table_of(entries)[1] == line_of(entries[0]->Some_0, header_of(entries[0]->Some_0)),
{
    let header = header_of(entries[0]->Some_0);
    lemma_first_line(entries, header);
}

/// The first line under a header is that of the first row that is an object.
proof fn lemma_first_line(entries: Seq<Option<Seq<FieldView>>>, header: Seq<Seq<char>>)
    requires
        entries.len() > 0,
        entries[0] is Some,
    ensures
        lines_of(entries, header).len() >= 1,
        lines_of(entries, header)[0] == line_of(entries[0]->Some_0, header),
    decreases entries.len(),
{
    let before = lines_of(entries.drop_last(), header);
    if entries.len() > 1 {
        assert(entries.drop_last()[0] == entries[0]);
        lemma_first_line(entries.drop_last(), header);
        assert(before.len() >= 1);
        if entries.last() is Some {
            assert(lines_of(entries, header) == before.push(
                line_of(entries.last()->Some_0, header),
            ));
            assert(lines_of(entries, header)[0] == before[0]);
        }
    } else {
        assert(entries.drop_last().len() == 0);
        assert(before.len() == 0);
        assert(entries.last() == entries[0]);
        assert(lines_of(entries, header) == before.push(line_of(entries[0]->Some_0, header)));
    }
}

/// The text shown for column `name` in a row.
fn column_text(fields: &Vec<Field>, name: &String) -> (r: String)
    ensures
        r@ == cell_text(field_views(fields@), name@),
{
    let ghost all = field_views(fields@);
    let mut i: usize = 0;
    assert(all.skip(0) =~= all);
    while i < fields.len()
        invariant
            i <= fields.len(),
            all == field_views(fields@),
            cell_text(all, name@) == cell_text(all.skip(i as int), name@),
        decreases fields.len() - i,
    {
        let ghost rest = all.skip(i as int);
        assert(rest.len() > 0 && rest[0] == fields@[i as int]@);
        assert(rest.drop_first() =~= all.skip(i + 1));
        if fields[i].name == *name {
            return fields[i].value.text();
        }
        i += 1;
    }
    String::new()
}

/// The names of a row's members, in order.
fn header_names(fields: &Vec<Field>) -> (r: Vec<String>)
    ensures
        texts(r@) == header_of(field_views(fields@)),
{
    let mut names: Vec<String> = Vec::new();
    let mut i: usize = 0;
    while i < fields.len()
        invariant
            i <= fields.len(),
            names@.len() == i,
            forall|k: int| 0 <= k < i ==> (#[trigger] names@[k])@ == fields@[k].name@,
        decreases fields.len() - i,
    {
        names.push(fields[i].name.clone());
        i += 1;
    }
    assert(texts(names@) =~= header_of(field_views(fields@)));
    names
}

/// The line that a row gives under `header`.
fn line(fields: &Vec<Field>, header: &Vec<String>) -> (r: Vec<String>)
    ensures
        texts(r@) == line_of(field_views(fields@), texts(header@)),
{
    let mut cells: Vec<String> = Vec::new();
    let mut j: usize = 0;
    while j < header.len()
        invariant
            j <= header.len(),
            cells@.len() == j,
            forall|k: int|
                0 <= k < j ==> (#[trigger] cells@[k])@ == cell_text(
                    field_views(fields@),
                    header@[k]@,
                ),
        decreases header.len() - j,
    {
        cells.push(column_text(fields, &header[j]));
        j += 1;
    }
    assert(texts(cells@) =~= line_of(field_views(fields@), texts(header@)));
    cells
}

/// The records of the table for a row sequence: the header that the first
/// element gives, then one line for each element that is an object.
pub fn table_records(entries: &Vec<Entry>) -> (r: Vec<Vec<String>>)
    ensures
        record_texts(r@) == table_of(entry_views(entries@)),
{
    let mut out: Vec<Vec<String>> = Vec::new();
    if entries.len() == 0 {
        assert(record_texts(out@) =~= table_of(entry_views(entries@)));
        return out;
    }
    match &entries[0] {
        Entry::Other => {
            assert(entry_views(entries@)[0] is None);
            assert(record_texts(out@) =~= table_of(entry_views(entries@)));
            out
        },
        Entry::Object(first) => {
            let ghost all = entry_views(entries@);
            assert(all[0] == Some(field_views(first@)));
            let header = header_names(first);
            let mut lines: Vec<Vec<String>> = Vec::new();
            let mut k: usize = 0;
            assert(all.take(0) =~= Seq::empty());
            while k < entries.len()
                invariant
                    k <= entries.len(),
                    all == entry_views(entries@),
                    record_texts(lines@) == lines_of(all.take(k as int), texts(header@)),
                decreases entries.len() - k,
            {
                let ghost before = lines@;
                assert(all.take(k + 1).drop_last() =~= all.take(k as int));
                assert(all.take(k + 1).last() == entries@[k as int]@);
                match &entries[k] {
                    Entry::Object(fields) => {
                        let cells = line(fields, &header);
                        lines.push(cells);
                        assert(record_texts(lines@) =~= record_texts(before).push(
                            texts(cells@),
                        ));
                    },
                    Entry::Other => {},
                }
                k += 1;
            }
            assert(all.take(entries.len() as int) =~= all);
            let ghost head = texts(header@);
            let ghost body = lines@;
            out.push(header);
            out.append(&mut lines);
            assert(record_texts(out@) =~= seq![head] + record_texts(body));
            out
        },
    }
}

/// Draws records of one width as a table.
fn draw(rows: &Vec<Vec<String>>) -> (text: String)
    requires
        forall|i: int| 0 <= i < rows@.len() ==> (#[trigger] rows@[i])@.len() == rows@[0]@.len(),
    ensures
        text@ == table_text(record_texts(rows@)),
{
    let mut builder = Builder::default();
    let mut i: usize = 0;
    while i < rows.len()
        invariant
            i <= rows.len(),
            forall|k: int|
                0 <= k < rows@.len() ==> (#[trigger] rows@[k])@.len() == rows@[0]@.len(),
            records(builder) == record_texts(rows@).take(i as int),
            columns(builder) == (if i == 0 {
                0
            } else {
                rows@[0]@.len()
            }),
        decreases rows.len() - i,
    {
        push_record(&mut builder, &rows[i]);
        assert(record_texts(rows@).take(i + 1) =~= record_texts(rows@).take(i as int).push(
            texts(rows@[i as int]@),
        ));
        i += 1;
    }
    assert(record_texts(rows@).take(rows.len() as int) =~= record_texts(rows@));
    assert forall|k: int| 0 <= k < records(builder).len() implies (#[trigger] records(
        builder,
    )[k]).len() == records(builder)[0].len() by {
        assert(records(builder)[k] == texts(rows@[k]@));
        assert(records(builder)[0] == texts(rows@[0]@));
    }
    build_psql(builder)
}

/// The table that a row sequence gives, as text.
pub open spec fn drawn(entries: Seq<Option<Seq<FieldView>>>) -> Option<Seq<char>> {
    if entries.len() == 0 {
        None
    } else {
        Some(table_text(table_of(entries)))
    }
}

/// Renders a row sequence as a table. An empty sequence gives no table.
pub fn render_entries(entries: &Vec<Entry>) -> (r: Option<String>)
    ensures
        match drawn(entry_views(entries@)) {
            Some(text) => r is Some && r->Some_0@ == text,
            None => r is None,
        },
{
    if entries.len() == 0 {
        return None;
    }
    let rows = table_records(entries);
    proof {
        lemma_table_is_rectangular(entry_views(entries@));
        assert forall|i: int| 0 <= i < rows@.len() implies (#[trigger] rows@[i])@.len()
            == rows@[0]@.len() by {
            assert(record_texts(rows@)[i].len() == rows@[i]@.len());
            assert(record_texts(rows@)[0].len() == rows@[0]@.len());
        }
    }
    Some(draw(&rows))
}

/// The text that a table shows for a value: a string as it is, `null` for
/// null, and the JSON text of any other value.
pub open spec fn value_text(v: Value) -> Seq<char> {
    match string_content(v) {
        Some(s) => s,
        None => if is_json_null(v) {
            "null"@
        } else {
            compact_text(v)
        },
    }
}

/// The members of an object as the table sees them: under each key the text
/// of the value that the object gives for that key.
pub open spec fn fields_of(ms: Seq<(Seq<char>, Value)>) -> Seq<FieldView> {
    Seq::new(
        ms.len(),
        |i: int|
            FieldView {
                name: ms[i].0,
                text: match member_value(ms, ms[i].0) {
                    Some(v) => value_text(v),
                    None => Seq::empty(),
                },
            },
    )
}

/// A value as the table sees it: the members of an object, nothing of any
/// other value.
pub open spec fn entry_of(v: Value) -> Option<Seq<FieldView>> {
    match object_map(v) {
        Some(m) => Some(fields_of(members(m))),
        None => None,
    }
}

/// A row sequence as the table sees it.
pub open spec fn entries_of(rows: Seq<Value>) -> Seq<Option<Seq<FieldView>>> {
    Seq::new(rows.len(), |i: int| entry_of(rows[i]))
}

/// What a table cell shows of a value.
pub fn cell_of(v: &Value) -> (c: Cell)
    ensures
        c.shown() == value_text(*v),
        c is Text <==> string_content(*v) is Some,
        c is Null <==> string_content(*v) is None && is_json_null(*v),
{
    match v.as_str() {
        Some(s) => Cell::Text(s.to_owned()),
        None => if v.is_null() {
            Cell::Null
        } else {
            Cell::Other(to_compact_text(v))
        },
    }
}

/// Reads one element of a row sequence.
pub fn entry_of_value(v: &Value) -> (e: Entry)
    ensures
        e@ == entry_of(*v),
{
    match v.as_object() {
        None => Entry::Other,
        Some(m) => {
            let keys = keys_of(m);
            let mut fields: Vec<Field> = Vec::new();
            let mut i: usize = 0;
            while i < keys.len()
                invariant
                    i <= keys.len(),
                    keys@.len() == members(*m).len(),
                    forall|k: int|
                        0 <= k < keys@.len() ==> (#[trigger] keys@[k])@ == members(*m)[k].0,
                    fields@.len() == i,
                    forall|k: int|
                        0 <= k < i ==> (#[trigger] fields@[k])@ == fields_of(members(*m))[k],
                decreases keys.len() - i,
            {
                let value = match get_member(m, keys[i].as_str()) {
                    Some(found) => cell_of(found),
                    None => Cell::Text(String::new()),
                };
                fields.push(Field { name: keys[i].clone(), value });
                i += 1;
            }
            assert(field_views(fields@) =~= fields_of(members(*m)));
            Entry::Object(fields)
        },
    }
}

/// Reads a row sequence.
pub fn entries_of_values(rows: &Vec<Value>) -> (r: Vec<Entry>)
    ensures
        entry_views(r@) == entries_of(rows@),
{
    let mut entries: Vec<Entry> = Vec::new();
    let mut i: usize = 0;
    while i < rows.len()
        invariant
            i <= rows.len(),
            entries@.len() == i,
            forall|k: int| 0 <= k < i ==> (#[trigger] entries@[k])@ == entry_of(rows@[k]),
        decreases rows.len() - i,
    {
        entries.push(entry_of_value(&rows[i]));
        i += 1;
    }
    assert(entry_views(entries@) =~= entries_of(rows@));
    entries
}

/// Renders rows as a table. No rows give no table.
fn render_rows(rows: &Vec<Value>) -> (r: Option<String>)
    ensures
        match drawn(entries_of(rows@)) {
            Some(text) => r is Some && r->Some_0@ == text,
            None => r is None,
        },
{
    let entries = entries_of_values(rows);
    render_entries(&entries)
}

/// Renders query results as a table for the terminal. `Empty`, or a row
/// sequence without rows, gives no table.
pub fn render(results: &QueryResults) -> (r: Option<String>)
    ensures
        match drawn(entries_of(results.rows())) {
            Some(text) => r is Some && r->Some_0@ == text,
            None => r is None,
        },
{
    match results {
        QueryResults::Empty => None,
        QueryResults::NonEmpty(rows) => render_rows(rows),
    }
}

/// Renders what a backend answered as a table: the rows of the answer where
/// it has any, else no table.
pub fn get_results(results: &Value) -> (r: Option<String>)
    ensures
        match payload_rows(*results) {
            Some(rows) => match drawn(entries_of(rows)) {
                Some(text) => r is Some && r->Some_0@ == text,
                None => r is None,
            },
            None => r is None,
        },
{
    match rows_of(results) {
        Some(rows) => render_rows(rows),
        None => None,
    }
}

} // verus!
