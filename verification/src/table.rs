//! Bindings to `csv`: the rows that a text in comma-separated values spells,
//! named and not spelled out.  The contracts in this file are not proved.
//! Each says that what the crate reads depends on the text alone.

use crate::text::texts;
use vstd::prelude::*;

verus! {

/// The first row of `text`, which names the columns; nothing where the crate
/// reports an error instead.
pub uninterp spec fn csv_header_row(text: Seq<char>) -> Option<Seq<Seq<char>>>;

/// The rows of `text` after the first, in order; nothing in the place of a
/// row for which the crate reports an error.
pub uninterp spec fn csv_record_rows(text: Seq<char>) -> Seq<Option<Seq<Seq<char>>>>;

/// The cells of `row`, where it is one.
pub open spec fn row_view(row: Result<Vec<String>, csv::Error>) -> Option<Seq<Seq<char>>> {
    match row {
        Ok(cells) => Some(texts(cells@)),
        Err(_) => None,
    }
}

/// The cells of each of `rows` that is one.
pub open spec fn rows_view(rows: Seq<Result<Vec<String>, csv::Error>>) -> Seq<
    Option<Seq<Seq<char>>>,
> {
    rows.map_values(|row: Result<Vec<String>, csv::Error>| row_view(row))
}

/// `Reader::headers` on a reader of `text` with the crate's defaults: the
/// cells of the first row.
#[verifier::external_body]
pub(crate) fn csv_headers(text: &str) -> (row: Result<Vec<String>, csv::Error>)
    ensures
        row_view(row) == csv_header_row(text@),
{
    let mut reader = csv::Reader::from_reader(text.as_bytes());
    reader.headers().map(|row| row.iter().map(|cell| cell.to_owned()).collect())
}

/// `Reader::records` on a reader of `text` with the crate's defaults,
/// collected: for each row after the first its cells, or the error that the
/// crate reports for it.
#[verifier::external_body]
pub(crate) fn csv_records(text: &str) -> (rows: Vec<Result<Vec<String>, csv::Error>>)
    ensures
        rows_view(rows@) == csv_record_rows(text@),
{
    let mut reader = csv::Reader::from_reader(text.as_bytes());
    reader.records().map(
        |row| row.map(|cells| cells.iter().map(|cell| cell.to_owned()).collect()),
    ).collect()
}

} // verus!
