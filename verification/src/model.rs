//! The data model of the pipeline: the decoded request description, the
//! fully resolved outbound request, the wire response as received, the
//! stable output schema, and the error taxonomy. Text is carried as UTF-8
//! bytes; header mappings are sequences of pairs, so duplicate header
//! names that differ only in case are kept as distinct entries.

use vstd::prelude::*;

verus! {

/// The command-line surface: where to read the request description, where
/// to write the output document, and optionally where to write the
/// resolved request body.
#[derive(Debug)]
pub struct Arguments {
    pub request_file: String,
    pub output_file: String,
    pub body_output_file: Option<String>,
}

/// A decoded request description. `body` and `body_path` are mutually
/// exclusive; a header value of `None` asks the normalizer to derive one.
#[derive(Debug)]
pub struct RequestSpec {
    pub url: Vec<u8>,
    pub method: Vec<u8>,
    pub headers: Vec<(Vec<u8>, Option<Vec<u8>>)>,
    pub body: Option<Vec<u8>>,
    pub body_path: Option<String>,
}

/// A fully resolved request, ready to send: validated method, parseable
/// absolute URL, every header resolved to a concrete value.
#[derive(Debug)]
pub struct OutboundRequest {
    pub url: Vec<u8>,
    pub method: Vec<u8>,
    pub headers: Vec<(Vec<u8>, Vec<u8>)>,
    pub body: Vec<u8>,
}

/// A wire response as received: the status code, each header with its
/// value if it decoded as text (`None` if it did not), and the body text
/// or the reason it could not be decoded.
#[derive(Debug)]
pub struct InboundResponse {
    pub status: u16,
    pub headers: Vec<(Vec<u8>, Option<Vec<u8>>)>,
    pub body: Result<Vec<u8>, String>,
}

/// The stable output schema: the status code as decimal text, the
/// response headers, and the response body.
#[derive(Debug)]
pub struct OutputDocument {
    pub status_code: Vec<u8>,
    pub headers: Vec<(Vec<u8>, Vec<u8>)>,
    pub body: Vec<u8>,
}

/// Why normalization rejected a request description.
#[derive(Debug)]
pub enum NormalizationError {
    /// Both `body` and `body_path` were set.
    ConflictingBodySource,
    /// The file behind `body_path` could not be opened or read; carries
    /// the underlying I/O cause.
    BodySourceUnreadable(String),
    /// The method string is not a recognized HTTP verb; carries the
    /// method as given.
    InvalidMethod(Vec<u8>),
    /// A header had a null value and is not auto-derivable; carries the
    /// header name as given.
    UnresolvableHeader(Vec<u8>),
    /// The URL does not parse as an absolute URL; carries the parser's
    /// description of the problem.
    InvalidUrl(String),
}

/// Why projection of a wire response failed.
#[derive(Debug)]
pub enum ProjectionError {
    /// The response body could not be decoded as text; carries the cause.
    BodyDecodeError(String),
}

} // verus!
