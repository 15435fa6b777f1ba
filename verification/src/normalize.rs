//! The request normalizer: resolves the body from exactly one source,
//! validates the method case-insensitively, resolves every header to a
//! concrete value (deriving `content-length` from the body when asked),
//! and checks that the URL parses as an absolute URL.

use vstd::prelude::*;
use crate::model::{NormalizationError, OutboundRequest, RequestSpec};
use crate::text::{
    clone_bytes, dec_digits, lower_seq, to_ascii_lower, to_ascii_upper, u64_to_dec, upper_seq,
};

verus! {

/// The auto-derivable header name, in its lowercase form.
pub open spec fn content_length_name() -> Seq<u8> {
    seq![99u8, 111u8, 110u8, 116u8, 101u8, 110u8, 116u8, 45u8, 108u8, 101u8, 110u8, 103u8, 116u8, 104u8]
}

/// Whether `name` is the `content-length` header, compared
/// case-insensitively.
fn is_content_length(name: &Vec<u8>) -> (r: bool)
    ensures
        r == (lower_seq(name@) == content_length_name()),
{
    let low = to_ascii_lower(name);
    if low.len() == 14 && low[0] == 99 && low[1] == 111 && low[2] == 110 && low[3] == 116
        && low[4] == 101 && low[5] == 110 && low[6] == 116 && low[7] == 45 && low[8] == 108
        && low[9] == 101 && low[10] == 110 && low[11] == 103 && low[12] == 116
        && low[13] == 104 {
        proof {
            assert(low@ =~= content_length_name());
        }
        true
    } else {
        false
    }
}

/// The recognized HTTP verbs, after ASCII-uppercasing.
pub open spec fn is_valid_method(s: Seq<u8>) -> bool {
    ||| s == seq![71u8, 69u8, 84u8]
    ||| s == seq![72u8, 69u8, 65u8, 68u8]
    ||| s == seq![80u8, 79u8, 83u8, 84u8]
    ||| s == seq![80u8, 85u8, 84u8]
    ||| s == seq![68u8, 69u8, 76u8, 69u8, 84u8, 69u8]
    ||| s == seq![67u8, 79u8, 78u8, 78u8, 69u8, 67u8, 84u8]
    ||| s == seq![79u8, 80u8, 84u8, 73u8, 79u8, 78u8, 83u8]
    ||| s == seq![84u8, 82u8, 65u8, 67u8, 69u8]
    ||| s == seq![80u8, 65u8, 84u8, 67u8, 72u8]
}

/// What method resolution yields for a raw method string: the uppercased
/// verb when it is recognized, nothing otherwise.
pub open spec fn spec_method_resolution(s: Seq<u8>) -> Option<Seq<u8>> {
    if is_valid_method(upper_seq(s)) {
        Some(upper_seq(s))
    } else {
        None
    }
}

/// Method strings are case-insensitive: two method strings that agree
/// after ASCII-uppercasing resolve to the same outcome.
pub proof fn lemma_method_case_insensitive(a: Seq<u8>, b: Seq<u8>)
    requires
        upper_seq(a) == upper_seq(b),
    ensures
        spec_method_resolution(a) == spec_method_resolution(b),
{
}

/// Whether `u` is one of the recognized (already uppercased) verbs.
fn is_recognized_verb(u: &Vec<u8>) -> (r: bool)
    ensures
        r == is_valid_method(u@),
{
    let n = u.len();
    if n == 3 && u[0] == 71 && u[1] == 69 && u[2] == 84 {
        proof {
            assert(u@ =~= seq![71u8, 69u8, 84u8]);
        }
        return true;
    }
    if n == 3 && u[0] == 80 && u[1] == 85 && u[2] == 84 {
        proof {
            assert(u@ =~= seq![80u8, 85u8, 84u8]);
        }
        return true;
    }
    if n == 4 && u[0] == 72 && u[1] == 69 && u[2] == 65 && u[3] == 68 {
        proof {
            assert(u@ =~= seq![72u8, 69u8, 65u8, 68u8]);
        }
        return true;
    }
    if n == 4 && u[0] == 80 && u[1] == 79 && u[2] == 83 && u[3] == 84 {
        proof {
            assert(u@ =~= seq![80u8, 79u8, 83u8, 84u8]);
        }
        return true;
    }
    if n == 5 && u[0] == 84 && u[1] == 82 && u[2] == 65 && u[3] == 67 && u[4] == 69 {
        proof {
            assert(u@ =~= seq![84u8, 82u8, 65u8, 67u8, 69u8]);
        }
        return true;
    }
    if n == 5 && u[0] == 80 && u[1] == 65 && u[2] == 84 && u[3] == 67 && u[4] == 72 {
        proof {
            assert(u@ =~= seq![80u8, 65u8, 84u8, 67u8, 72u8]);
        }
        return true;
    }
    if n == 6 && u[0] == 68 && u[1] == 69 && u[2] == 76 && u[3] == 69 && u[4] == 84
        && u[5] == 69 {
        proof {
            assert(u@ =~= seq![68u8, 69u8, 76u8, 69u8, 84u8, 69u8]);
        }
        return true;
    }
    if n == 7 && u[0] == 67 && u[1] == 79 && u[2] == 78 && u[3] == 78 && u[4] == 69
        && u[5] == 67 && u[6] == 84 {
        proof {
            assert(u@ =~= seq![67u8, 79u8, 78u8, 78u8, 69u8, 67u8, 84u8]);
        }
        return true;
    }
    if n == 7 && u[0] == 79 && u[1] == 80 && u[2] == 84 && u[3] == 73 && u[4] == 79
        && u[5] == 78 && u[6] == 83 {
        proof {
            assert(u@ =~= seq![79u8, 80u8, 84u8, 73u8, 79u8, 78u8, 83u8]);
        }
        return true;
    }
    false
}

/// What a correct method resolution returns: the uppercased verb, or
/// `InvalidMethod` carrying the method as given.
pub open spec fn method_resolution_post(
    method: Seq<u8>,
    r: Result<Vec<u8>, NormalizationError>,
) -> bool {
    match spec_method_resolution(method) {
        Some(m) => r matches Ok(v) && v@ == m,
        None => r matches Err(NormalizationError::InvalidMethod(orig)) && orig@ == method,
    }
}

/// Uppercase the method string and check it against the recognized verbs.
pub fn convert_http_method(method: Vec<u8>) -> (r: Result<Vec<u8>, NormalizationError>)
    ensures
        method_resolution_post(method@, r),
{
    let upper = to_ascii_upper(&method);
    if is_recognized_verb(&upper) {
        Ok(upper)
    } else {
        Err(NormalizationError::InvalidMethod(method))
    }
}

/// The value a null-valued header resolves to, if any: only
/// `content-length` (case-insensitive) is derivable, as the decimal byte
/// length of the resolved body.
pub open spec fn auto_value(name: Seq<u8>, body_len: nat) -> Option<Seq<u8>> {
    if lower_seq(name) == content_length_name() {
        Some(dec_digits(body_len))
    } else {
        None
    }
}

/// What one header entry resolves to: an explicit value is kept as given;
/// a null value is auto-derived when possible.
pub open spec fn resolved_entry(name: Seq<u8>, value: Option<Seq<u8>>, body_len: nat) -> Option<
    (Seq<u8>, Seq<u8>),
> {
    match value {
        Some(v) => Some((name, v)),
        None => match auto_value(name, body_len) {
            Some(v) => Some((name, v)),
            None => None,
        },
    }
}

/// A header named `content-length` (in any case) with a null value
/// resolves to the decimal byte length of the resolved body.
pub proof fn lemma_content_length_auto(name: Seq<u8>, body_len: nat)
    requires
        lower_seq(name) == content_length_name(),
    ensures
        resolved_entry(name, None, body_len) == Some((name, dec_digits(body_len))),
{
}

/// A null-valued header of any other name does not resolve.
pub proof fn lemma_other_null_header_unresolvable(name: Seq<u8>, body_len: nat)
    requires
        lower_seq(name) != content_length_name(),
    ensures
        resolved_entry(name, None, body_len) is None,
{
}

/// The view of an input header list: each entry's name and optional value
/// as sequences.
pub open spec fn header_views(hs: Seq<(Vec<u8>, Option<Vec<u8>>)>) -> Seq<
    (Seq<u8>, Option<Seq<u8>>),
> {
    hs.map_values(
        |e: (Vec<u8>, Option<Vec<u8>>)|
            (
                e.0@,
                match e.1 {
                    Some(v) => Some(v@),
                    None => None,
                },
            ),
    )
}

/// The view of a resolved header list.
pub open spec fn out_header_views(hs: Seq<(Vec<u8>, Vec<u8>)>) -> Seq<(Seq<u8>, Seq<u8>)> {
    hs.map_values(|e: (Vec<u8>, Vec<u8>)| (e.0@, e.1@))
}

/// Resolve a header list in order: every entry resolved to a concrete
/// value, or the name of the first entry that cannot be resolved.
pub open spec fn resolve_headers(hs: Seq<(Seq<u8>, Option<Seq<u8>>)>, body_len: nat) -> Result<
    Seq<(Seq<u8>, Seq<u8>)>,
    Seq<u8>,
>
    decreases hs.len(),
{
    if hs.len() == 0 {
        Ok(Seq::empty())
    } else {
        match resolve_headers(hs.drop_last(), body_len) {
            Err(n) => Err(n),
            Ok(done) => match resolved_entry(hs.last().0, hs.last().1, body_len) {
                Some(p) => Ok(done.push(p)),
                None => Err(hs.last().0),
            },
        }
    }
}

/// What a correct header resolution returns: the resolved entries in
/// order, or `UnresolvableHeader` naming the first offender.
pub open spec fn header_resolution_post(
    hs: Seq<(Seq<u8>, Option<Seq<u8>>)>,
    body_len: nat,
    r: Result<Vec<(Vec<u8>, Vec<u8>)>, NormalizationError>,
) -> bool {
    match resolve_headers(hs, body_len) {
        Ok(rs) => r matches Ok(v) && out_header_views(v@) == rs,
        Err(n) => r matches Err(NormalizationError::UnresolvableHeader(h)) && h@ == n,
    }
}

/// Once some prefix of the header list fails to resolve, the whole list
/// fails with the same header name.
proof fn lemma_resolve_err_extends(hs: Seq<(Seq<u8>, Option<Seq<u8>>)>, i: int, body_len: nat)
    requires
        0 <= i <= hs.len(),
        resolve_headers(hs.take(i), body_len) is Err,
    ensures
        resolve_headers(hs, body_len) == resolve_headers(hs.take(i), body_len),
    decreases hs.len() - i,
{
    if i == hs.len() {
        assert(hs.take(i) =~= hs);
    } else {
        assert(hs.drop_last().take(i) =~= hs.take(i));
        lemma_resolve_err_extends(hs.drop_last(), i, body_len);
    }
}

/// Resolve the headers of a request against the resolved body's byte
/// length, matching `resolve_headers`.
fn resolve_request_headers(headers: &Vec<(Vec<u8>, Option<Vec<u8>>)>, body_len: usize) -> (r:
    Result<Vec<(Vec<u8>, Vec<u8>)>, NormalizationError>)
    ensures
        header_resolution_post(header_views(headers@), body_len as nat, r),
{
    let ghost hv = header_views(headers@);
    let mut out: Vec<(Vec<u8>, Vec<u8>)> = Vec::new();
    let mut i: usize = 0;
    proof {
        assert(hv.take(0) =~= Seq::<(Seq<u8>, Option<Seq<u8>>)>::empty());
        assert(out_header_views(out@) =~= Seq::<(Seq<u8>, Seq<u8>)>::empty());
    }
    while i < headers.len()
        invariant
            i <= headers@.len(),
            hv == header_views(headers@),
            resolve_headers(hv.take(i as int), body_len as nat) == Result::<
                Seq<(Seq<u8>, Seq<u8>)>,
                Seq<u8>,
            >::Ok(out_header_views(out@)),
        decreases headers@.len() - i,
    {
        proof {
            assert(hv.take(i + 1).drop_last() =~= hv.take(i as int));
            assert(hv.take(i + 1).last() == hv[i as int]);
        }
        let entry = &headers[i];
        let ghost out_before = out@;
        match &entry.1 {
            Some(v) => {
                out.push((clone_bytes(&entry.0), clone_bytes(v)));
                proof {
                    assert(out_header_views(out@) =~= out_header_views(out_before).push(
                        (entry.0@, v@),
                    ));
                }
            },
            None => {
                if is_content_length(&entry.0) {
                    out.push((clone_bytes(&entry.0), u64_to_dec(body_len as u64)));
                    proof {
                        assert(out_header_views(out@) =~= out_header_views(out_before).push(
                            (entry.0@, dec_digits(body_len as nat)),
                        ));
                    }
                } else {
                    proof {
                        assert(resolve_headers(hv.take(i + 1), body_len as nat) == Result::<
                            Seq<(Seq<u8>, Seq<u8>)>,
                            Seq<u8>,
                        >::Err(entry.0@));
                        lemma_resolve_err_extends(hv, i + 1, body_len as nat);
                    }
                    return Err(NormalizationError::UnresolvableHeader(clone_bytes(&entry.0)));
                }
            },
        }
        i += 1;
    }
    proof {
        assert(hv.take(headers@.len() as int) =~= hv);
    }
    Ok(out)
}

/// What a correct body resolution returns, given the two description
/// fields and the outcome of reading `body_path` when one was named:
/// a conflict when both sources are set; the inline body verbatim; the
/// file contents verbatim, or `BodySourceUnreadable` with the read
/// failure's cause; the empty body when no source is set.
pub open spec fn body_resolution_post(
    body: Option<Vec<u8>>,
    body_path: Option<String>,
    body_file: Option<Result<Vec<u8>, String>>,
    r: Result<Vec<u8>, NormalizationError>,
) -> bool {
    match (body, body_path) {
        (Some(_), Some(_)) => r matches Err(NormalizationError::ConflictingBodySource),
        (Some(b), None) => r matches Ok(v) && v@ == b@,
        (None, Some(_)) => match body_file {
            Some(Ok(t)) => r matches Ok(v) && v@ == t@,
            Some(Err(c)) => r matches Err(NormalizationError::BodySourceUnreadable(m)) && m@ == c@,
            None => true,
        },
        (None, None) => r matches Ok(v) && v@ == Seq::<u8>::empty(),
    }
}

/// Resolve the request body from exactly one source: the inline `body`,
/// the contents read from `body_path` (handed in by the caller, together
/// with the cause if reading failed), or the empty body. Both sources at
/// once is a conflict.
pub fn get_body(req: &RequestSpec, body_file: Option<Result<Vec<u8>, String>>) -> (r: Result<
    Vec<u8>,
    NormalizationError,
>)
    requires
        req.body_path is Some && req.body is None ==> body_file is Some,
    ensures
        body_resolution_post(req.body, req.body_path, body_file, r),
{
    match (&req.body_path, &req.body) {
        (Some(_), Some(_)) => Err(NormalizationError::ConflictingBodySource),
        (Some(_), None) => match body_file {
            Some(Ok(t)) => Ok(t),
            Some(Err(c)) => Err(NormalizationError::BodySourceUnreadable(c)),
            None => vstd::pervasive::unreached(),
        },
        (None, Some(b)) => Ok(clone_bytes(b)),
        (None, None) => Ok(Vec::new()),
    }
}

pub uninterp spec fn url_is_absolute(s: Seq<u8>) -> bool;

/// Relies on url::Url::parse: whether a byte string, read as UTF-8,
/// parses as an absolute URL depends on its bytes alone. Bytes that are
/// not valid UTF-8 are no URL.
#[verifier::external_body]
fn parse_url_bytes(s: &Vec<u8>) -> (r: Result<(), String>)
    ensures
        r is Ok <==> url_is_absolute(s@),
{
    match std::str::from_utf8(s) {
        Ok(t) => match url::Url::parse(t) {
            Ok(_) => Ok(()),
            Err(e) => Err(format!("{}", e)),
        },
        Err(e) => Err(format!("{}", e)),
    }
}

/// What a correct normalization of an already body-resolved request
/// returns: the method, header and URL checks in order, and on success
/// the outbound request with the uppercased verb, the resolved headers in
/// order, the URL and the body as given.
pub open spec fn process_post(
    url: Seq<u8>,
    method: Seq<u8>,
    headers: Seq<(Seq<u8>, Option<Seq<u8>>)>,
    body: Seq<u8>,
    r: Result<OutboundRequest, NormalizationError>,
) -> bool {
    match spec_method_resolution(method) {
        None => r matches Err(NormalizationError::InvalidMethod(orig)) && orig@ == method,
        Some(m) => match resolve_headers(headers, body.len()) {
            Err(n) => r matches Err(NormalizationError::UnresolvableHeader(h)) && h@ == n,
            Ok(rs) => if !url_is_absolute(url) {
                r matches Err(NormalizationError::InvalidUrl(_))
            } else {
                r matches Ok(o) && o.method@ == m && o.url@ == url && o.body@ == body
                    && out_header_views(o.headers@) == rs
            },
        },
    }
}

/// Normalize the already body-resolved request: validate the method,
/// resolve every header, and check the URL, in that order.
pub fn process_request_data(req: RequestSpec, body: Vec<u8>) -> (r: Result<
    OutboundRequest,
    NormalizationError,
>)
    ensures
        process_post(req.url@, req.method@, header_views(req.headers@), body@, r),
{
    let RequestSpec { url, method, headers, body: _, body_path: _ } = req;
    let method = match convert_http_method(method) {
        Ok(m) => m,
        Err(e) => {
            return Err(e);
        },
    };
    let resolved = match resolve_request_headers(&headers, body.len()) {
        Ok(h) => h,
        Err(e) => {
            return Err(e);
        },
    };
    match parse_url_bytes(&url) {
        Ok(_) => {},
        Err(cause) => {
            return Err(NormalizationError::InvalidUrl(cause));
        },
    }
    Ok(OutboundRequest { url, method, headers: resolved, body })
}

/// What a correct full normalization returns: a conflict when both body
/// sources are set; the read failure's cause when the named body file was
/// unreadable; otherwise the body-resolved request normalized as
/// `process_post` says.
pub open spec fn normalize_post(
    req: RequestSpec,
    body_file: Option<Result<Vec<u8>, String>>,
    r: Result<OutboundRequest, NormalizationError>,
) -> bool {
    match (req.body, req.body_path) {
        (Some(_), Some(_)) => r matches Err(NormalizationError::ConflictingBodySource),
        (Some(b), None) => process_post(req.url@, req.method@, header_views(req.headers@), b@, r),
        (None, Some(_)) => match body_file {
            Some(Ok(t)) => process_post(req.url@, req.method@, header_views(req.headers@), t@, r),
            Some(Err(c)) => r matches Err(NormalizationError::BodySourceUnreadable(m)) && m@ == c@,
            None => true,
        },
        (None, None) => process_post(
            req.url@,
            req.method@,
            header_views(req.headers@),
            Seq::<u8>::empty(),
            r,
        ),
    }
}

/// Normalize a request description into a fully specified outbound
/// request: resolve the body from exactly one source, then the method,
/// headers and URL. The caller hands in the outcome of reading
/// `body_path`, when the description names one.
pub fn normalize(req: RequestSpec, body_file: Option<Result<Vec<u8>, String>>) -> (r: Result<
    OutboundRequest,
    NormalizationError,
>)
    requires
        req.body_path is Some && req.body is None ==> body_file is Some,
    ensures
        normalize_post(req, body_file, r),
{
    let body = match get_body(&req, body_file) {
        Ok(b) => b,
        Err(e) => {
            return Err(e);
        },
    };
    process_request_data(req, body)
}

} // verus!
