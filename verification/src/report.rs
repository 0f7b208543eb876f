//! The persisted result file of one batch.
//!
//! One delimited file per size class: a header, then a summary row holding
//! only the batch's total time, then one row per task result in completion
//! order.  Absence markers and the summary row's empty fields serialize as
//! the literal token `NaN`.  This module builds the rows and states the
//! file's exact bytes; writing them to disk stays outside the library.

use vstd::prelude::*;
use vstd::string::StringExecFns;

use crate::decimal::dec_of;
use crate::decimal::digit_char;
use crate::decimal::lemma_dec_of_digits;
use crate::decimal::u64_to_dec;
use crate::sample::BatchOutcome;
use crate::sample::Sample;
use crate::sample::TaskResult;

verus! {

/// A character that the delimited encoding passes through verbatim: plain
/// ASCII, and none of the delimiter, the quote, or a record terminator.
pub open spec fn plain_char(c: char) -> bool {
    &&& (c as u32) < 128
    &&& c != ','
    &&& c != '"'
    &&& c != '\n'
    &&& c != '\r'
}

/// A field that the delimited encoding passes through verbatim.
pub open spec fn csv_plain(s: Seq<char>) -> bool {
    forall|i: int| 0 <= i < s.len() ==> plain_char(#[trigger] s[i])
}

/// The bytes of an ASCII text, one byte per character.
pub open spec fn bytes_of_ascii(s: Seq<char>) -> Seq<u8> {
    Seq::new(s.len(), |i: int| s[i] as u8)
}

/// The fields of one record, joined by the comma delimiter.
pub open spec fn csv_fields(row: Seq<Seq<char>>) -> Seq<char>
    decreases row.len(),
{
    if row.len() == 0 {
        Seq::empty()
    } else if row.len() == 1 {
        row.first()
    } else {
        row.first().push(',') + csv_fields(row.drop_first())
    }
}

/// One record: its joined fields, terminated by a line feed.
pub open spec fn csv_record(row: Seq<Seq<char>>) -> Seq<char> {
    csv_fields(row).push('\n')
}

/// A whole delimited text: the concatenation of its records.
pub open spec fn csv_text(rows: Seq<Seq<Seq<char>>>) -> Seq<char>
    decreases rows.len(),
{
    if rows.len() == 0 {
        Seq::empty()
    } else {
        csv_record(rows.first()) + csv_text(rows.drop_first())
    }
}

/// Relies on csv::Writer over an in-memory buffer: with the default
/// configuration — comma delimiter, line-feed terminator, quoting only where
/// needed — fields free of the delimiter, the quote and the terminators are
/// written verbatim, so the buffer holds exactly the comma-joined,
/// line-feed-terminated records.  A record that is a single empty field
/// would instead be written as a quoted empty field, so records here have at
/// least two fields.  Records of equal width never make `write_record`
/// fail, and writing to a byte vector cannot fail.
#[verifier::external_body]
fn csv_encode(rows: &Vec<Vec<String>>) -> (r: Vec<u8>)
    requires
        1 <= rows.deep_view().len(),
        2 <= rows.deep_view()[0].len(),
        forall|i: int|
            0 <= i < rows.deep_view().len() ==> (#[trigger] rows.deep_view()[i]).len()
                == rows.deep_view()[0].len(),
        forall|i: int, j: int|
            0 <= i < rows.deep_view().len() && 0 <= j < rows.deep_view()[i].len() ==> csv_plain(
                #[trigger] rows.deep_view()[i][j],
            ),
    ensures
        r@ == bytes_of_ascii(csv_text(rows.deep_view())),
{
    let mut writer = csv::Writer::from_writer(Vec::new());
    for row in rows {
        writer.write_record(row).unwrap();
    }
    writer.into_inner().unwrap()
}

/// The absence token of the result file.
pub open spec fn nan_text() -> Seq<char> {
    seq!['N', 'a', 'N']
}

/// The header record's field names.
pub open spec fn header_row() -> Seq<Seq<char>> {
    seq![
        seq!['J', 's', 'o', 'n', 'R', 'e', 's'],
        seq!['X', 'm', 'l', 'R', 'e', 's'],
        seq!['T', 'o', 't', 'a', 'l', 'T', 'i', 'm', 'e'],
    ]
}

/// The summary record: no per-encoding value, only the batch's total
/// wall-clock milliseconds.
pub open spec fn summary_row(total_ms: int) -> Seq<Seq<char>> {
    seq![nan_text(), nan_text(), dec_of(total_ms)]
}

/// How one sample prints: its nanoseconds, or the absence token.
pub open spec fn sample_field(s: Sample) -> Seq<char> {
    if s.is_measurement() {
        dec_of(s.value())
    } else {
        nan_text()
    }
}

/// The record of one task result; its third field is always the absence
/// token, the total time standing only in the summary record.
pub open spec fn result_row(r: TaskResult) -> Seq<Seq<char>> {
    seq![sample_field(r.structured), sample_field(r.markup), nan_text()]
}

/// All records of one batch's result file, in order.
pub open spec fn outcome_rows(results: Seq<TaskResult>, total_ms: int) -> Seq<Seq<Seq<char>>> {
    seq![header_row(), summary_row(total_ms)] + results.map_values(|r: TaskResult| result_row(r))
}

/// The whole result file of one batch, as text.
pub open spec fn results_file_text(results: Seq<TaskResult>, total_ms: int) -> Seq<char> {
    csv_text(outcome_rows(results, total_ms))
}

/// Each decimal digit passes through the delimited encoding verbatim.
proof fn lemma_digit_char_plain(d: int)
    ensures
        plain_char(digit_char(d)),
{
}

/// A decimal rendering is a plain field.
proof fn lemma_dec_of_plain(n: int)
    ensures
        csv_plain(dec_of(n)),
{
    lemma_dec_of_digits(n);
    assert forall|i: int| 0 <= i < dec_of(n).len() implies plain_char(#[trigger] dec_of(n)[i]) by {
        let c = dec_of(n)[i];
        assert('0' <= c && c <= '9');
        assert(('0' as u32) <= (c as u32) <= ('9' as u32));
    }
}

/// The absence token is a plain field.
proof fn lemma_nan_plain()
    ensures
        csv_plain(nan_text()),
{
    assert forall|i: int| 0 <= i < nan_text().len() implies plain_char(#[trigger] nan_text()[i]) by {
        assert(nan_text()[i] == 'N' || nan_text()[i] == 'a');
    }
}

/// Every field of a result row is plain.
proof fn lemma_result_row_plain(r: TaskResult)
    ensures
        forall|j: int| 0 <= j < result_row(r).len() ==> csv_plain(#[trigger] result_row(r)[j]),
{
    lemma_nan_plain();
    lemma_dec_of_plain(r.structured.value());
    lemma_dec_of_plain(r.markup.value());
}

/// The absence token, as a string.
fn nan_string() -> (s: String)
    ensures
        s@ == nan_text(),
{
    proof {
        reveal_strlit("NaN");
        assert("NaN"@ =~= nan_text());
    }
    "NaN".to_owned()
}

/// How one sample prints, as a string.
pub fn sample_field_string(s: &Sample) -> (r: String)
    ensures
        r@ == sample_field(*s),
{
    match s {
        Sample::Measurement { nanos } => u64_to_dec(*nanos),
        Sample::Absence => nan_string(),
    }
}

/// The header record, as strings.
fn header_strings() -> (r: Vec<String>)
    ensures
        r.deep_view() == header_row(),
{
    proof {
        reveal_strlit("JsonRes");
        reveal_strlit("XmlRes");
        reveal_strlit("TotalTime");
        assert("JsonRes"@ =~= header_row()[0]);
        assert("XmlRes"@ =~= header_row()[1]);
        assert("TotalTime"@ =~= header_row()[2]);
    }
    let mut r: Vec<String> = Vec::new();
    r.push("JsonRes".to_owned());
    r.push("XmlRes".to_owned());
    r.push("TotalTime".to_owned());
    proof {
        assert(r.deep_view() =~= header_row());
    }
    r
}

/// The result file of one batch, as the exact bytes to persist: a header,
/// a summary record carrying only the total batch time, then one record per
/// task result in completion order, failed exchanges appearing as `NaN`.
pub fn results_file_bytes(outcome: &BatchOutcome) -> (r: Vec<u8>)
    ensures
        r@ == bytes_of_ascii(results_file_text(outcome.results@, outcome.total_ms as int)),
{
    let mut rows: Vec<Vec<String>> = Vec::new();
    rows.push(header_strings());

    let mut summary: Vec<String> = Vec::new();
    summary.push(nan_string());
    summary.push(nan_string());
    summary.push(u64_to_dec(outcome.total_ms));
    proof {
        assert(summary.deep_view() =~= summary_row(outcome.total_ms as int));
    }
    rows.push(summary);
    proof {
        assert(rows.deep_view() =~= outcome_rows(
            outcome.results@.take(0),
            outcome.total_ms as int,
        ));
    }

    let results = &outcome.results;
    let mut i: usize = 0;
    while i < results.len()
        invariant
            i <= results.len(),
            rows.deep_view() == outcome_rows(results@.take(i as int), outcome.total_ms as int),
        decreases results.len() - i,
    {
        let task = &results[i];
        let mut row: Vec<String> = Vec::new();
        row.push(sample_field_string(&task.structured));
        row.push(sample_field_string(&task.markup));
        row.push(nan_string());
        proof {
            assert(row.deep_view() =~= result_row(results@[i as int]));
        }
        let ghost prev = rows.deep_view();
        rows.push(row);
        proof {
            assert(rows.deep_view() =~= prev.push(row.deep_view()));
            assert(results@.take(i + 1int) =~= results@.take(i as int).push(results@[i as int]));
            assert(results@.take(i + 1int).map_values(|r: TaskResult| result_row(r)) =~= results@.take(
                i as int,
            ).map_values(|r: TaskResult| result_row(r)).push(result_row(results@[i as int])));
            assert(rows.deep_view() =~= outcome_rows(
                results@.take(i + 1int),
                outcome.total_ms as int,
            ));
        }
        i = i + 1;
    }
    proof {
        assert(results@.take(results@.len() as int) =~= results@);
        lemma_nan_plain();
        lemma_dec_of_plain(outcome.total_ms as int);
        assert forall|a: int, b: int|
            0 <= a < rows.deep_view().len() && 0 <= b < rows.deep_view()[a].len() implies csv_plain(
            #[trigger] rows.deep_view()[a][b],
        ) by {
            if a >= 2 {
                lemma_result_row_plain(results@[a - 2]);
            }
        }
    }
    csv_encode(&rows)
}

} // verus!
