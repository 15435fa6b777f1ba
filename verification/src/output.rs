//! Rendering the output document as JSON text: string escaping, the
//! header object, and the three-member document, each pinned down byte
//! for byte by a spec-level grammar.

use vstd::prelude::*;
use crate::model::OutputDocument;
use crate::normalize::out_header_views;

verus! {

/// The lowercase hex digit for `n` (which is below 16).
pub open spec fn hex_digit(n: nat) -> u8 {
    if n < 10 {
        (48 + n) as u8
    } else {
        (87 + n) as u8
    }
}

/// How one byte of a JSON string is written: quote and backslash get a
/// backslash escape, control bytes a `\u00..` escape, everything else
/// stands as itself.
pub open spec fn escape_byte(b: u8) -> Seq<u8> {
    if b == 34 {
        seq![92u8, 34u8]
    } else if b == 92 {
        seq![92u8, 92u8]
    } else if b < 32 {
        seq![92u8, 117u8, 48u8, 48u8, hex_digit((b / 16) as nat), hex_digit((b % 16) as nat)]
    } else {
        seq![b]
    }
}

/// The escaped form of a whole string body.
pub open spec fn json_escaped(s: Seq<u8>) -> Seq<u8>
    decreases s.len(),
{
    if s.len() == 0 {
        Seq::<u8>::empty()
    } else {
        json_escaped(s.drop_last()) + escape_byte(s.last())
    }
}

/// A JSON string: the escaped body between double quotes.
pub open spec fn json_string(s: Seq<u8>) -> Seq<u8> {
    seq![34u8] + json_escaped(s) + seq![34u8]
}

/// One `"name":"value"` member.
pub open spec fn json_member(name: Seq<u8>, value: Seq<u8>) -> Seq<u8> {
    json_string(name) + seq![58u8] + json_string(value)
}

/// The members of the header object, comma-separated, in order.
pub open spec fn json_headers_body(hs: Seq<(Seq<u8>, Seq<u8>)>) -> Seq<u8>
    decreases hs.len(),
{
    if hs.len() == 0 {
        Seq::<u8>::empty()
    } else if hs.len() == 1 {
        json_member(hs[0].0, hs[0].1)
    } else {
        json_headers_body(hs.drop_last()) + seq![44u8] + json_member(hs.last().0, hs.last().1)
    }
}

/// The key of the header object.
pub open spec fn key_headers() -> Seq<u8> {
    seq![104u8, 101u8, 97u8, 100u8, 101u8, 114u8, 115u8]
}

/// The key of the status code.
pub open spec fn key_status_code() -> Seq<u8> {
    seq![115u8, 116u8, 97u8, 116u8, 117u8, 115u8, 95u8, 99u8, 111u8, 100u8, 101u8]
}

/// The key of the body.
pub open spec fn key_body() -> Seq<u8> {
    seq![98u8, 111u8, 100u8, 121u8]
}

/// The rendered output document: an object holding the header object,
/// the status code and the body, in that order.
pub open spec fn spec_output_json(
    hs: Seq<(Seq<u8>, Seq<u8>)>,
    status_code: Seq<u8>,
    body: Seq<u8>,
) -> Seq<u8> {
    seq![123u8] + json_string(key_headers()) + seq![58u8] + seq![123u8] + json_headers_body(hs)
        + seq![125u8] + seq![44u8] + json_string(key_status_code()) + seq![58u8] + json_string(
        status_code,
    ) + seq![44u8] + json_string(key_body()) + seq![58u8] + json_string(body) + seq![125u8]
}

/// Append the JSON string form of `s`, escaping as `json_string` says.
fn append_json_string(out: &mut Vec<u8>, s: &Vec<u8>)
    ensures
        final(out)@ == old(out)@ + json_string(s@),
{
    let ghost base = old(out)@;
    out.push(34);
    let mut i: usize = 0;
    while i < s.len()
        invariant
            i <= s@.len(),
            out@ == base + seq![34u8] + json_escaped(s@.take(i as int)),
        decreases s@.len() - i,
    {
        proof {
            assert(s@.take(i + 1).drop_last() =~= s@.take(i as int));
            assert(s@.take(i + 1).last() == s@[i as int]);
        }
        let b = s[i];
        if b == 34 {
            out.push(92);
            out.push(34);
        } else if b == 92 {
            out.push(92);
            out.push(92);
        } else if b < 32 {
            out.push(92);
            out.push(117);
            out.push(48);
            out.push(48);
            let hi = b / 16;
            let lo = b % 16;
            out.push(if hi < 10 { 48 + hi } else { 87 + hi });
            out.push(if lo < 10 { 48 + lo } else { 87 + lo });
        } else {
            out.push(b);
        }
        proof {
            assert(out@ =~= base + seq![34u8] + json_escaped(s@.take(i + 1)));
        }
        i += 1;
    }
    out.push(34);
    proof {
        assert(s@.take(s@.len() as int) =~= s@);
        assert(out@ =~= base + json_string(s@));
    }
}

/// The `headers` key as bytes.
fn key_headers_vec() -> (r: Vec<u8>)
    ensures
        r@ == key_headers(),
{
    let mut r: Vec<u8> = Vec::new();
    r.push(104);
    r.push(101);
    r.push(97);
    r.push(100);
    r.push(101);
    r.push(114);
    r.push(115);
    proof {
        assert(r@ =~= key_headers());
    }
    r
}

/// The `status_code` key as bytes.
fn key_status_code_vec() -> (r: Vec<u8>)
    ensures
        r@ == key_status_code(),
{
    let mut r: Vec<u8> = Vec::new();
    r.push(115);
    r.push(116);
    r.push(97);
    r.push(116);
    r.push(117);
    r.push(115);
    r.push(95);
    r.push(99);
    r.push(111);
    r.push(100);
    r.push(101);
    proof {
        assert(r@ =~= key_status_code());
    }
    r
}

/// The `body` key as bytes.
fn key_body_vec() -> (r: Vec<u8>)
    ensures
        r@ == key_body(),
{
    let mut r: Vec<u8> = Vec::new();
    r.push(98);
    r.push(111);
    r.push(100);
    r.push(121);
    proof {
        assert(r@ =~= key_body());
    }
    r
}

/// Render the output document as JSON text, byte for byte as
/// `spec_output_json` says.
pub fn serialize_response(doc: &OutputDocument) -> (r: Vec<u8>)
    ensures
        r@ == spec_output_json(out_header_views(doc.headers@), doc.status_code@, doc.body@),
{
    let ghost hv = out_header_views(doc.headers@);
    let mut r: Vec<u8> = Vec::new();
    r.push(123);
    let kh = key_headers_vec();
    append_json_string(&mut r, &kh);
    r.push(58);
    r.push(123);
    let ghost base = r@;
    proof {
        assert(hv.take(0) =~= Seq::<(Seq<u8>, Seq<u8>)>::empty());
    }
    let mut i: usize = 0;
    while i < doc.headers.len()
        invariant
            i <= doc.headers@.len(),
            hv == out_header_views(doc.headers@),
            r@ == base + json_headers_body(hv.take(i as int)),
        decreases doc.headers@.len() - i,
    {
        proof {
            assert(hv.take(i + 1).drop_last() =~= hv.take(i as int));
            assert(hv.take(i + 1).last() == hv[i as int]);
        }
        if i > 0 {
            r.push(44);
        }
        let entry = &doc.headers[i];
        append_json_string(&mut r, &entry.0);
        r.push(58);
        append_json_string(&mut r, &entry.1);
        proof {
            assert(r@ =~= base + json_headers_body(hv.take(i + 1)));
        }
        i += 1;
    }
    proof {
        assert(hv.take(doc.headers@.len() as int) =~= hv);
    }
    r.push(125);
    r.push(44);
    let ks = key_status_code_vec();
    append_json_string(&mut r, &ks);
    r.push(58);
    append_json_string(&mut r, &doc.status_code);
    r.push(44);
    let kb = key_body_vec();
    append_json_string(&mut r, &kb);
    r.push(58);
    append_json_string(&mut r, &doc.body);
    r.push(125);
    proof {
        assert(r@ =~= spec_output_json(hv, doc.status_code@, doc.body@));
    }
    r
}

} // verus!
