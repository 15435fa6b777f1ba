//! The response projector: converts a wire response into the stable
//! output schema. The status code becomes its decimal text; a header
//! value that did not decode as text degrades to the empty string; a
//! body that did not decode is fatal.

use vstd::prelude::*;
use crate::model::{InboundResponse, OutputDocument, ProjectionError};
use crate::normalize::{header_views, out_header_views};
use crate::text::{clone_bytes, dec_digits, u64_to_dec};

verus! {

/// How one response header is projected: a decoded value is kept; an
/// undecodable one becomes the empty string.
pub open spec fn projected_header(e: (Seq<u8>, Option<Seq<u8>>)) -> (Seq<u8>, Seq<u8>) {
    match e.1 {
        Some(v) => (e.0, v),
        None => (e.0, Seq::<u8>::empty()),
    }
}

/// What a correct projection returns: `BodyDecodeError` with the decode
/// failure's cause, or the document with the decimal status code, every
/// header projected in order, and the body as received.
pub open spec fn projection_post(
    resp: InboundResponse,
    r: Result<OutputDocument, ProjectionError>,
) -> bool {
    match resp.body {
        Err(c) => r matches Err(ProjectionError::BodyDecodeError(m)) && m@ == c@,
        Ok(b) => r matches Ok(d) && d.status_code@ == dec_digits(resp.status as nat) && d.body@
            == b@ && out_header_views(d.headers@) == header_views(resp.headers@).map_values(
            |e: (Seq<u8>, Option<Seq<u8>>)| projected_header(e),
        ),
    }
}

/// Project a wire response into the output schema.
pub fn convert_response(resp: InboundResponse) -> (r: Result<OutputDocument, ProjectionError>)
    ensures
        projection_post(resp, r),
{
    let InboundResponse { status, headers, body } = resp;
    let body = match body {
        Ok(b) => b,
        Err(c) => {
            return Err(ProjectionError::BodyDecodeError(c));
        },
    };
    let status_code = u64_to_dec(status as u64);
    let ghost hv = header_views(headers@);
    let mut out: Vec<(Vec<u8>, Vec<u8>)> = Vec::new();
    let mut i: usize = 0;
    while i < headers.len()
        invariant
            i <= headers@.len(),
            hv == header_views(headers@),
            out@.len() == i,
            forall|j: int|
                0 <= j < i ==> (#[trigger] out@[j].0@, out@[j].1@) == projected_header(hv[j]),
        decreases headers@.len() - i,
    {
        let entry = &headers[i];
        match &entry.1 {
            Some(v) => {
                out.push((clone_bytes(&entry.0), clone_bytes(v)));
            },
            None => {
                out.push((clone_bytes(&entry.0), Vec::new()));
            },
        }
        i += 1;
    }
    proof {
        assert(out_header_views(out@) =~= hv.map_values(
            |e: (Seq<u8>, Option<Seq<u8>>)| projected_header(e),
        ));
    }
    Ok(OutputDocument { status_code, headers: out, body })
}

} // verus!
