//! CSV encoding of the (name, number) pairs, through the `csv` crate
//! writing into an in-memory buffer. The caller puts the bytes on disk.
//!
//! The byte-exact format is stated here and holds of the crate's default
//! writer: fields separated by a comma, records ended by a line feed, and
//! a field quoted, with its quotes doubled, exactly when it holds a quote,
//! comma, carriage return or line feed.

use vstd::prelude::*;
use vstd::string::StringSliceAdditionalSpecFns;
use vstd::utf8::encode_utf8;

verus! {

/// Whether the default writer must quote a field with these bytes.
pub open spec fn needs_quotes(f: Seq<u8>) -> bool {
    exists|i: int|
        0 <= i < f.len() && (f[i] == 34u8 || f[i] == 44u8 || f[i] == 13u8 || f[i] == 10u8)
}

/// The field bytes with every quote doubled.
pub open spec fn quotes_doubled(f: Seq<u8>) -> Seq<u8>
    decreases f.len(),
{
    if f.len() == 0 {
        Seq::empty()
    } else {
        (if f[0] == 34u8 {
            seq![34u8, 34u8]
        } else {
            seq![f[0]]
        }) + quotes_doubled(f.skip(1))
    }
}

/// One encoded field: quoted and doubled when quoting is needed, verbatim
/// otherwise.
pub open spec fn spec_field(f: Seq<u8>) -> Seq<u8> {
    if needs_quotes(f) {
        seq![34u8] + quotes_doubled(f) + seq![34u8]
    } else {
        f
    }
}

/// One encoded two-field record: the fields joined by a comma and ended
/// by a line feed.
pub open spec fn spec_record2(a: Seq<u8>, b: Seq<u8>) -> Seq<u8> {
    spec_field(a) + seq![44u8] + spec_field(b) + seq![10u8]
}

/// The body rows for (name, number) pairs: one record per pair, in order,
/// with the number in the first column and the name in the second.
pub open spec fn spec_rows(pairs: Seq<(Seq<char>, Seq<char>)>) -> Seq<u8>
    decreases pairs.len(),
{
    if pairs.len() == 0 {
        Seq::empty()
    } else {
        spec_record2(encode_utf8(pairs[0].1), encode_utf8(pairs[0].0)) + spec_rows(pairs.skip(1))
    }
}

/// The whole document for (name, number) pairs: the header record
/// `number,name`, then one row per pair.
pub open spec fn spec_contacts_csv(pairs: Seq<(Seq<char>, Seq<char>)>) -> Seq<u8> {
    spec_record2(encode_utf8("number"@), encode_utf8("name"@)) + spec_rows(pairs)
}

/// The element-wise views of owned (name, number) pairs.
pub open spec fn pairs_view(pairs: Seq<(String, String)>) -> Seq<(Seq<char>, Seq<char>)> {
    pairs.map_values(|p: (String, String)| (p.0@, p.1@))
}

/// Why CSV encoding failed.
#[derive(Debug)]
pub enum CsvError {
    /// A record could not be written to the buffer.
    Write,
    /// The buffer could not be handed back.
    Finish,
}

impl CsvError {
    /// A human-readable description of the error.
    pub fn message(&self) -> (r: &'static str)
        ensures
            r@ == match *self {
                CsvError::Write => "a CSV record could not be written"@,
                CsvError::Finish => "the CSV buffer could not be flushed"@,
            },
    {
        match *self {
            CsvError::Write => "a CSV record could not be written",
            CsvError::Finish => "the CSV buffer could not be flushed",
        }
    }
}

#[verifier::external_type_specification]
#[verifier::external_body]
pub struct ExCsvError(csv::Error);

/// A `csv::Writer` over an in-memory vector. The writer's own type takes
/// an `io::Write` bound that cannot be declared here, so it sits in a
/// hidden field instead.
#[verifier::external_body]
pub struct ContactsWriter {
    inner: csv::Writer<Vec<u8>>,
}

/// The bytes a writer has accepted so far, buffered or already moved into
/// the underlying vector.
pub uninterp spec fn csv_written(w: ContactsWriter) -> Seq<u8>;

/// Relies on `csv::Writer::from_writer`: a fresh writer over an empty
/// vector has written nothing.
#[verifier::external_body]
pub(crate) fn csv_writer_new() -> (w: ContactsWriter)
    ensures
        csv_written(w) == Seq::<u8>::empty(),
{
    ContactsWriter { inner: csv::Writer::from_writer(Vec::new()) }
}

/// Relies on `csv::Writer::write_record` under the default format: the
/// two fields are appended as one record, comma-separated,
/// line-feed-terminated, each quoted with quotes doubled exactly when it
/// holds a quote, comma, carriage return or line feed. The call cannot
/// fail: the vector's `io::Write` never errors, and every record a
/// `ContactsWriter` takes comes through here with exactly two fields, so
/// the unequal-lengths check never trips.
#[verifier::external_body]
pub(crate) fn csv_write_record2(w: &mut ContactsWriter, a: &str, b: &str) -> (r: Result<
    (),
    csv::Error,
>)
    ensures
        r is Ok,
        csv_written(*final(w)) == csv_written(*old(w)) + spec_record2(
            a.spec_bytes(),
            b.spec_bytes(),
        ),
{
    w.inner.write_record(&[a, b])
}

/// Relies on `csv::Writer::into_inner`: it flushes and hands back the
/// underlying vector, holding exactly the bytes written. The call cannot
/// fail: flushing moves the internal buffer into the vector, whose
/// `io::Write` never errors.
#[verifier::external_body]
pub(crate) fn csv_into_bytes(w: ContactsWriter) -> (r: Result<Vec<u8>, CsvError>)
    ensures
        r is Ok,
        r matches Ok(b) ==> b@ == csv_written(w),
{
    match w.inner.into_inner() {
        Ok(b) => Ok(b),
        Err(_) => Err(CsvError::Finish),
    }
}

/// Encodes (name, number) pairs as the contacts document: the header
/// `number,name`, then `number,name` columns, one row per pair in order.
/// Encoding into memory succeeds on every input, and the bytes are
/// exactly the document for these pairs.
pub fn csv_encode(pairs: &Vec<(String, String)>) -> (r: Result<Vec<u8>, CsvError>)
    ensures
        r is Ok,
        r matches Ok(b) ==> b@ == spec_contacts_csv(pairs_view(pairs@)),
{
    let ghost pv = pairs_view(pairs@);
    let mut w = csv_writer_new();
    match csv_write_record2(&mut w, "number", "name") {
        Ok(u) => u,
        Err(_) => { return Err(CsvError::Write) },
    };
    proof {
        assert(csv_written(w) =~= spec_record2(encode_utf8("number"@), encode_utf8("name"@)));
        assert(pv.skip(0) =~= pv);
    }
    let n: usize = pairs.len();
    let mut i: usize = 0;
    while i < n
        invariant
            n == pairs@.len(),
            i <= n,
            pv == pairs_view(pairs@),
            csv_written(w) + spec_rows(pv.skip(i as int)) =~= spec_contacts_csv(pv),
        decreases n - i,
    {
        let name: &String = &pairs[i].0;
        let number: &String = &pairs[i].1;
        match csv_write_record2(&mut w, number.as_str(), name.as_str()) {
            Ok(u) => u,
            Err(_) => { return Err(CsvError::Write) },
        };
        proof {
            let rest = pv.skip(i as int);
            assert(rest[0] == pv[i as int]);
            assert(rest.skip(1) =~= pv.skip(i as int + 1));
            assert(spec_rows(rest) == spec_record2(
                encode_utf8(rest[0].1),
                encode_utf8(rest[0].0),
            ) + spec_rows(rest.skip(1)));
            assert(csv_written(w) + spec_rows(pv.skip(i as int + 1)) =~= spec_contacts_csv(pv));
        }
        i = i + 1;
    }
    proof {
        assert(pv.skip(n as int) =~= Seq::<(Seq<char>, Seq<char>)>::empty());
        assert(csv_written(w) =~= spec_contacts_csv(pv));
    }
    csv_into_bytes(w)
}

} // verus!
