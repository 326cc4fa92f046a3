use vstd::prelude::*;

verus! {

/// The views of a sequence of strings.
pub open spec fn strings_view(v: Seq<String>) -> Seq<Seq<char>> {
    v.map_values(|s: String| s@)
}

/// The views of a table of strings.
pub open spec fn rows_view(rows: Seq<Vec<String>>) -> Seq<Seq<Seq<char>>> {
    rows.map_values(|r: Vec<String>| strings_view(r@))
}

/// An in-memory CSV writer. Verus refuses a declaration of csv::Writer
/// itself (its type parameter is bound by std::io::Write), so the crate's
/// writer is held opaquely in this struct, and the trusted functions below
/// speak of its records through `csv_rows`.
#[verifier::external_body]
pub struct CsvBuffer {
    writer: csv::Writer<Vec<u8>>,
}

/// The records accepted so far by an in-memory CSV writer.
pub uninterp spec fn csv_rows(w: CsvBuffer) -> Seq<Seq<Seq<char>>>;

/// The encoded text of a CSV document holding exactly `rows`, as the csv
/// crate renders it with its default configuration: a function of the rows
/// alone.
pub uninterp spec fn csv_encoding(rows: Seq<Seq<Seq<char>>>) -> Seq<u8>;

/// Relies on csv::Writer::from_writer: a writer over a fresh in-memory
/// buffer holds no records.
#[verifier::external_body]
fn csv_writer_new() -> (w: CsvBuffer)
    ensures
        csv_rows(w) == Seq::<Seq<Seq<char>>>::empty(),
{
    CsvBuffer { writer: csv::Writer::from_writer(Vec::new()) }
}

/// Relies on csv::Writer::write_record: appends one record. The record must
/// have as many fields as the first record written: the crate's default
/// (non-flexible) configuration refuses any other length, and a refused write
/// leaves the writer's internal field count corrupted — so the mismatching
/// call is excluded here rather than described. Under that condition, over an
/// in-memory buffer whose writes are infallible, the call always succeeds.
#[verifier::external_body]
fn csv_write_record(w: &mut CsvBuffer, record: &Vec<String>) -> (ok: bool)
    requires
        csv_rows(*old(w)).len() == 0 || record@.len() == csv_rows(*old(w))[0].len(),
    ensures
        ok,
        csv_rows(*final(w)) == csv_rows(*old(w)).push(strings_view(record@)),
{
    w.writer.write_record(record).is_ok()
}

/// Relies on csv::Writer::into_inner: flushes and hands back the buffer,
/// which then holds the encoding of the accepted records. Flushing into a
/// plain byte buffer cannot fail, so the error arm is never taken.
#[verifier::external_body]
fn csv_into_bytes(w: CsvBuffer) -> (bytes: Vec<u8>)
    ensures
        bytes@ == csv_encoding(csv_rows(w)),
        csv_rows(w).len() > 0 ==> bytes@.len() > 0,
{
    match w.writer.into_inner() {
        Ok(bytes) => bytes,
        Err(_) => Vec::new(),
    }
}

/// One decimal digit.
pub open spec fn timestamp_digit(c: char) -> bool {
    c == '0' || c == '1' || c == '2' || c == '3' || c == '4' || c == '5' || c == '6' || c == '7'
        || c == '8' || c == '9'
}

/// The shape of a harness timestamp, year-month-day_hour-minute-second: a
/// year of four or more digits (a sign only beside a fifth digit), then
/// two-digit fields under fixed separators. Which instant it renders is left
/// open; the shape holds of every reading.
pub open spec fn timestamp_shape(s: Seq<char>) -> bool {
    let n = s.len() as int;
    &&& n >= 19
    &&& s[n - 15] == '-'
    &&& s[n - 12] == '-'
    &&& s[n - 9] == '_'
    &&& s[n - 6] == '-'
    &&& s[n - 3] == '-'
    &&& (forall|i: int|
        n - 15 < i < n && i != n - 12 && i != n - 9 && i != n - 6 && i != n - 3
            ==> timestamp_digit(#[trigger] s[i]))
    &&& (forall|i: int| 0 < i < n - 15 ==> timestamp_digit(#[trigger] s[i]))
    &&& (timestamp_digit(s[0]) || s[0] == '+')
    &&& (n == 19 ==> timestamp_digit(s[0]))
}

/// Relies on chrono::Utc::now and chrono's formatter: the current UTC time,
/// rendered as year-month-day_hour-minute-second. The formatter zero-pads
/// month, day, hour, minute and second to two digits and the year to at
/// least four, and signs only a year of ten thousand on — `Utc::now` sits at
/// the epoch or later, so no year is negative (a clock before the epoch
/// aborts the run, as the original's call does). Which instant is read is
/// not assumed.
#[verifier::external_body]
pub(crate) fn utc_timestamp() -> (s: String)
    ensures
        timestamp_shape(s@),
{
    chrono::Utc::now().format("%Y-%m-%d_%H-%M-%S").to_string()
}

/// Encodes `rows` as one CSV document; every row must have as many fields as
/// the first one.
pub fn encode_rows(rows: &Vec<Vec<String>>) -> (bytes: Vec<u8>)
    requires
        forall|i: int|
            0 <= i < rows@.len() ==> (#[trigger] rows@[i])@.len() == rows@[0]@.len(),
    ensures
        bytes@ == csv_encoding(rows_view(rows@)),
        rows@.len() > 0 ==> bytes@.len() > 0,
{
    let mut w = csv_writer_new();
    let mut i: usize = 0;
    while i < rows.len()
        invariant
            i <= rows@.len(),
            forall|k: int|
                0 <= k < rows@.len() ==> (#[trigger] rows@[k])@.len() == rows@[0]@.len(),
            csv_rows(w) == rows_view(rows@.subrange(0, i as int)),
        decreases rows@.len() - i,
    {
        proof {
            if i > 0 {
                assert(csv_rows(w)[0] == strings_view(rows@.subrange(0, i as int)[0]@));
                assert(csv_rows(w)[0].len() == rows@[0]@.len());
            }
        }
        csv_write_record(&mut w, &rows[i]);
        proof {
            assert(csv_rows(w) =~= rows_view(rows@.subrange(0, i + 1 as int)));
        }
        i += 1;
    }
    proof {
        assert(rows@.subrange(0, rows@.len() as int) =~= rows@);
    }
    csv_into_bytes(w)
}

/// One report document, ready for a tabular sink: the directory it belongs
/// under, its timestamped filename, its rows, their CSV encoding, and the
/// console note announcing the write.
pub struct Report {
    pub dir: String,
    pub filename: String,
    pub rows: Vec<Vec<String>>,
    pub bytes: Vec<u8>,
    pub note: String,
}

} // verus!
