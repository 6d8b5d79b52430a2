//! The rule file boundary. Rules persist as two-column tabular text; the
//! `csv` crate splits and renders it. Parsing and rendering are
//! deterministic functions of their input, named here by `csv_rows` and
//! `csv_text`.

use vstd::prelude::*;

verus! {

/// The records of fields that csv parsing yields for a text, or `None`
/// where the text is malformed.
pub uninterp spec fn csv_rows(text: Seq<char>) -> Option<Seq<Seq<Seq<char>>>>;

/// The text that csv rendering produces for the given records of fields.
pub uninterp spec fn csv_text(rows: Seq<Seq<Seq<char>>>) -> Seq<char>;

/// Two-field records, one per (host pattern, parameter pattern) row.
pub open spec fn pair_rows(pairs: Seq<(Seq<char>, Seq<char>)>) -> Seq<Seq<Seq<char>>> {
    Seq::new(pairs.len(), |i: int| seq![pairs[i].0, pairs[i].1])
}

/// Relies on csv::Reader without headers: it splits the text into records
/// of fields, or reports malformed input (an unclosed quote, rows of
/// unequal width).
#[verifier::external_body]
pub(crate) fn parse_csv(text: &str) -> (r: Option<Vec<Vec<String>>>)
    ensures
        r is Some <==> csv_rows(text@) is Some,
        r matches Some(rows) ==> csv_rows(text@) == Some(rows.deep_view()),
{
    let mut reader = csv::ReaderBuilder::new().has_headers(false).from_reader(text.as_bytes());
    let mut out: Vec<Vec<String>> = Vec::new();
    for record in reader.records() {
        match record {
            Ok(rec) => out.push(rec.iter().map(|field| field.to_string()).collect()),
            Err(_) => {
                return None;
            },
        }
    }
    Some(out)
}

/// Relies on csv::Writer: it renders each (host, param) pair as one
/// two-field record, quoting fields as needed. Writing uniform two-field
/// records into an in-memory buffer cannot fail: the buffer's writes never
/// error, the widths never differ, and the rendering of UTF-8 fields is
/// UTF-8, so the unwraps below never fire.
#[verifier::external_body]
pub(crate) fn write_csv(rows: &Vec<(String, String)>) -> (r: String)
    ensures
        r@ == csv_text(pair_rows(rows.deep_view())),
{
    let mut writer = csv::Writer::from_writer(Vec::<u8>::new());
    for (host, param) in rows.iter() {
        writer.write_record([host.as_str(), param.as_str()]).expect("a write into a Vec cannot fail");
    }
    let bytes = writer.into_inner().expect("flushing into a Vec cannot fail");
    String::from_utf8(bytes).expect("the rendering of UTF-8 fields is UTF-8")
}

} // verus!
