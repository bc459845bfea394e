//! The decision steps between the two network round-trips: turn the first
//! response into the fetch request body, and the second response into the
//! CSV document. The caller performs the transport around these.

use vstd::prelude::*;
use crate::csv_out::CsvError;
use crate::csv_out::csv_encode;
use crate::csv_out::pairs_view;
use crate::csv_out::spec_contacts_csv;
use crate::entities::Root;
use crate::entities::flatten;
use crate::entities::parse_root;
use crate::entities::spec_entities;
use crate::json::DecodeError;
use crate::json::extract_total_pages;
use crate::json::json_of;
use crate::json::parse_json;
use crate::json::spec_total_pages;
use crate::query::fetch_query;
use crate::query::spec_fetch_query;

verus! {

/// The total-pages count a response text reports, if it is valid JSON of
/// the expected shape.
pub open spec fn resp_total_pages(s: Seq<char>) -> Option<i64> {
    match json_of(s) {
        Some(j) => spec_total_pages(j),
        None => None,
    }
}

/// The (number, name) pairs a response text carries, if it is valid JSON
/// of the expected shape.
pub open spec fn resp_entities(s: Seq<char>) -> Option<Seq<(Seq<char>, Seq<char>)>> {
    match json_of(s) {
        Some(j) => spec_entities(j),
        None => None,
    }
}

/// The pairs with their components swapped.
pub open spec fn flip_pairs(s: Seq<(Seq<char>, Seq<char>)>) -> Seq<(Seq<char>, Seq<char>)> {
    s.map_values(|p: (Seq<char>, Seq<char>)| (p.1, p.0))
}

/// Builds the fetch request body out of the count-discovery response:
/// when the response reports `total_pages = n`, the body asks for a page
/// of exactly `n` records; a response without that count is rejected,
/// as invalid JSON or as the wrong shape.
pub fn fetch_body_for_count_response(resp: &str) -> (r: Result<String, DecodeError>)
    ensures
        match r {
            Ok(q) => resp_total_pages(resp@) is Some && q@ == spec_fetch_query(
                resp_total_pages(resp@).unwrap() as int,
            ),
            Err(e) => resp_total_pages(resp@) is None && (e == DecodeError::Syntax <==> json_of(
                resp@,
            ) is None),
        },
{
    let v = match parse_json(resp) {
        Ok(v) => v,
        Err(_) => { return Err(DecodeError::Syntax) },
    };
    let n = match extract_total_pages(&v) {
        Ok(n) => n,
        Err(e) => { return Err(e) },
    };
    Ok(fetch_query(n))
}

/// Decodes the fetch response into the typed structure; a response that
/// is not valid JSON or lacks the expected shape is rejected.
pub fn decode_entities(resp: &str) -> (r: Result<Root, DecodeError>)
    ensures
        match r {
            Ok(root) => resp_entities(resp@) == Some(root.entity_pairs()),
            Err(e) => resp_entities(resp@) is None && (e == DecodeError::Syntax <==> json_of(
                resp@,
            ) is None),
        },
{
    let v = match parse_json(resp) {
        Ok(v) => v,
        Err(_) => { return Err(DecodeError::Syntax) },
    };
    match parse_root(&v) {
        Ok(root) => Ok(root),
        Err(e) => Err(e),
    }
}

/// Why the export of the fetch response failed.
#[derive(Debug)]
pub enum ExportError {
    /// The response could not be decoded; no document is produced.
    Decode(DecodeError),
    /// The decoded pairs could not be encoded as CSV.
    Csv(CsvError),
}

impl ExportError {
    /// A human-readable description of the error.
    pub fn message(&self) -> (r: &'static str)
        ensures
            r@ == match *self {
                ExportError::Decode(d) => match d {
                    DecodeError::Syntax => "response is not valid JSON"@,
                    DecodeError::Shape => "response JSON does not have the expected shape"@,
                },
                ExportError::Csv(c) => match c {
                    CsvError::Write => "a CSV record could not be written"@,
                    CsvError::Finish => "the CSV buffer could not be flushed"@,
                },
            },
    {
        match self {
            ExportError::Decode(d) => d.message(),
            ExportError::Csv(c) => c.message(),
        }
    }
}

/// Turns the fetch response into the bytes of `contacts.csv`: decode the
/// entities, flatten them in order, and encode the document. It succeeds
/// exactly when the response holds a well-shaped entity list, and the
/// bytes are then exactly the document for the response's pairs; any
/// other response yields a decode error and no document.
pub fn csv_for_entities_response(resp: &str) -> (r: Result<Vec<u8>, ExportError>)
    ensures
        r is Ok <==> resp_entities(resp@) is Some,
        match r {
            Ok(b) => resp_entities(resp@) is Some && b@ == spec_contacts_csv(
                flip_pairs(resp_entities(resp@).unwrap()),
            ),
            Err(e) => e matches ExportError::Decode(d) && resp_entities(resp@) is None && (d
                == DecodeError::Syntax <==> json_of(resp@) is None),
        },
{
    let root = match decode_entities(resp) {
        Ok(root) => root,
        Err(d) => { return Err(ExportError::Decode(d)) },
    };
    let pairs = flatten(&root);
    proof {
        assert forall|i: int| 0 <= i < pairs@.len() implies pairs_view(pairs@)[i] == flip_pairs(
            root.entity_pairs(),
        )[i] by {
            assert(pairs@[i].0@ == root.data.phone_numbers.entities@[i].contact.name@);
        }
        assert(pairs_view(pairs@) =~= flip_pairs(root.entity_pairs()));
    }
    match csv_encode(&pairs) {
        Ok(b) => Ok(b),
        Err(c) => Err(ExportError::Csv(c)),
    }
}

} // verus!
