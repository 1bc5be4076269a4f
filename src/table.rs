//! The colour table: plain delimited text with no header row, one colour per
//! record and three fields per record (red, green, blue, in that order).
use vstd::prelude::*;

verus! {

/// The records that csv reads from `data` with no header row, each the
/// sequence of its fields; `None` where the reader reports an error.
pub uninterp spec fn csv_records(data: Seq<u8>) -> Option<Seq<Seq<Seq<char>>>>;

/// csv's error type, carried through opaquely.
#[verifier::external_type_specification]
#[verifier::external_body]
pub struct ExCsvError(csv::Error);

/// Relies on `csv::ReaderBuilder` with `has_headers(false)` and on
/// `Reader::records`: every record of `data` in order, each as its fields in
/// order, or the first error that the reader reports.
#[verifier::external_body]
fn read_records(data: &[u8]) -> (r: Result<Vec<Vec<String>>, csv::Error>)
    ensures
        match r {
            Ok(rows) => csv_records(data@) == Some(rows.deep_view()),
            Err(_) => csv_records(data@) is None,
        },
{
    let mut reader = csv::ReaderBuilder::new().has_headers(false).from_reader(data);
    reader.records().map(|rec| rec.map(|fields| fields.iter().map(String::from).collect())).collect()
}

/// The three text fields of one colour record.
#[derive(Clone, Debug, PartialEq, Eq)]
pub struct ColorText {
    pub r: String,
    pub g: String,
    pub b: String,
}

/// Why a colour table could not be read.
#[derive(Clone, Copy, Debug, PartialEq, Eq, Structural)]
pub enum TableError {
    /// The text is not well-formed delimited text.
    Malformed,
    /// Record `row` (counted from 0) holds `found` fields instead of three.
    FieldCount { row: usize, found: usize },
}

/// Every record holds exactly three fields.
pub open spec fn all_triples(records: Seq<Seq<Seq<char>>>) -> bool {
    forall|i: int| 0 <= i < records.len() ==> (#[trigger] records[i]).len() == 3
}

/// `row` is the first record that does not hold three fields, and it holds `found`.
pub open spec fn first_bad_record(records: Seq<Seq<Seq<char>>>, row: int, found: int) -> bool {
    &&& 0 <= row < records.len()
    &&& records[row].len() == found
    &&& found != 3
    &&& forall|i: int| 0 <= i < row ==> (#[trigger] records[i]).len() == 3
}

/// `texts` holds the three fields of each record, in order.
pub open spec fn texts_of(texts: Seq<ColorText>, records: Seq<Seq<Seq<char>>>) -> bool {
    &&& texts.len() == records.len()
    &&& forall|i: int|
        0 <= i < records.len() ==> {
            &&& (#[trigger] texts[i]).r@ == records[i][0]
            &&& texts[i].g@ == records[i][1]
            &&& texts[i].b@ == records[i][2]
        }
}

/// The outcome of turning `records` into colour fields.
pub open spec fn fields_result(records: Seq<Seq<Seq<char>>>, r: Result<Vec<ColorText>, TableError>) -> bool {
    &&& r is Ok <==> all_triples(records)
    &&& r matches Ok(texts) ==> texts_of(texts@, records)
    &&& r matches Err(e) ==> e matches TableError::FieldCount { row, found }
        && first_bad_record(records, row as int, found as int)
}

/// Takes the three fields of every record; fails on the first record that
/// does not hold exactly three.
pub fn color_fields(records: &Vec<Vec<String>>) -> (r: Result<Vec<ColorText>, TableError>)
    ensures
        fields_result(records.deep_view(), r),
{
    let ghost recs = records.deep_view();
    let mut texts: Vec<ColorText> = Vec::new();
    let mut i: usize = 0;
    while i < records.len()
        invariant
            i <= records@.len(),
            recs == records.deep_view(),
            forall|j: int| 0 <= j < i ==> (#[trigger] recs[j]).len() == 3,
            texts_of(texts@, recs.take(i as int)),
        decreases records@.len() - i,
    {
        let fields = &records[i];
        assert(recs[i as int] == fields.deep_view());
        if fields.len() != 3 {
            return Err(TableError::FieldCount { row: i, found: fields.len() });
        }
        texts.push(ColorText { r: fields[0].clone(), g: fields[1].clone(), b: fields[2].clone() });
        i = i + 1;
        assert(recs.take(i as int) =~= recs.take(i - 1).push(recs[i - 1]));
    }
    assert(recs.take(i as int) =~= recs);
    Ok(texts)
}

/// Reads a colour table: the three text fields of every record of `data`.
/// Fails with `Malformed` where the text is not well-formed delimited text,
/// else with `FieldCount` at the first record without exactly three fields.
pub fn read_color_table(data: &[u8]) -> (r: Result<Vec<ColorText>, TableError>)
    ensures
        match csv_records(data@) {
            None => r == Err::<Vec<ColorText>, TableError>(TableError::Malformed),
            Some(records) => fields_result(records, r),
        },
{
    match read_records(data) {
        Ok(records) => color_fields(&records),
        Err(_) => Err(TableError::Malformed),
    }
}

} // verus!
