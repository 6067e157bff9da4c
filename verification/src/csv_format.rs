//! The delimited-text table format, as the `csv` crate reads and writes it.
//! Nothing in this file is proved: each item states what the crate does.

use vstd::prelude::*;

verus! {

/// A `csv::Writer` that writes into memory.
#[verifier::external_body]
pub struct TableWriter {
    inner: csv::Writer<Vec<u8>>,
}

/// The `csv` crate's error.
#[verifier::external_type_specification]
#[verifier::external_body]
pub struct ExCsvError(csv::Error);

/// The fields of a record, each as a sequence of characters.
pub open spec fn fields_view(fields: Seq<String>) -> Seq<Seq<char>> {
    fields.map_values(|f: String| f@)
}

/// A record as it was read: its fields, or nothing where it could not be
/// read.
pub open spec fn record_view(record: Option<Vec<String>>) -> Option<Seq<Seq<char>>> {
    match record {
        Some(fields) => Some(fields_view(fields@)),
        None => None,
    }
}

/// The records of a table as they were read, in order.
pub open spec fn records_view(records: Seq<Option<Vec<String>>>) -> Seq<Option<Seq<Seq<char>>>> {
    records.map_values(|r: Option<Vec<String>>| record_view(r))
}

/// The bytes that a writer has been given so far, in order.
pub uninterp spec fn written(w: TableWriter) -> Seq<u8>;

/// The number of fields of the first record that a writer was given, once
/// it was given one.
pub uninterp spec fn first_width(w: TableWriter) -> Option<nat>;

/// The line that stands for one record: its fields, quoted where needed,
/// between delimiters, and the line's end.
pub uninterp spec fn record_line(fields: Seq<Seq<char>>) -> Seq<u8>;

/// The records that a text holds, first line included, in order. A record
/// that is not valid UTF-8, or that has another number of fields than the
/// first, stands as `None`.
pub uninterp spec fn records_in(bytes: Seq<u8>) -> Seq<Option<Seq<Seq<char>>>>;

/// `csv::Writer::from_writer` on an empty `Vec<u8>`: a writer in the default
/// configuration that has written nothing.
#[verifier::external_body]
pub(crate) fn new_writer() -> (w: TableWriter)
    ensures
        written(w) == Seq::<u8>::empty(),
        first_width(w) is None,
{
    TableWriter { inner: csv::Writer::from_writer(Vec::new()) }
}

/// `csv::Writer::write_record` appends the record's line. It fails exactly
/// where the record has another number of fields than the first record
/// written: writing to a `Vec<u8>` itself cannot fail. A writer that failed
/// is not handed back.
#[verifier::external_body]
pub(crate) fn write_record(w: TableWriter, fields: &Vec<String>) -> (r: Result<
    TableWriter,
    csv::Error,
>)
    ensures
        r is Ok <==> (first_width(w) is None || first_width(w) == Some(fields@.len())),
        r is Ok ==> written(r->Ok_0) == written(w) + record_line(fields_view(fields@))
            && first_width(r->Ok_0) == Some(fields@.len()),
{
    let mut w = w;
    w.inner.write_record(fields)?;
    Ok(w)
}

/// `csv::Writer::into_inner` flushes the writer and hands back the `Vec<u8>`
/// with every byte written. Flushing into a `Vec<u8>` cannot fail.
#[verifier::external_body]
pub(crate) fn into_bytes(w: TableWriter) -> (r: Option<Vec<u8>>)
    ensures
        r is Some,
        r->0@ == written(w),
{
    w.inner.into_inner().ok()
}

/// `csv::Reader::into_records`, on a reader that `csv::ReaderBuilder` makes
/// over `bytes` with the default configuration but for `has_headers(false)`,
/// so that the first line counts as a record. The records depend on the
/// bytes alone. Each is handed out as its fields; one for which the reader
/// gives an error, as `None`.
#[verifier::external_body]
pub(crate) fn read_records(bytes: &[u8]) -> (records: Vec<Option<Vec<String>>>)
    ensures
        records_view(records@) == records_in(bytes@),
{
    csv::ReaderBuilder::new()
        .has_headers(false)
        .from_reader(bytes)
        .into_records()
        .map(|r| r.ok().map(|record| record.iter().map(String::from).collect()))
        .collect()
}

} // verus!
