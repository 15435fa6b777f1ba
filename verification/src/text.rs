//! Byte-level text helpers: ASCII case mapping, trailing-whitespace
//! trimming, and decimal rendering. All library text is carried as UTF-8
//! bytes in `Vec<u8>`, so header lengths and body lengths are byte-exact.

use vstd::prelude::*;

verus! {

/// ASCII-lowercase a single byte; bytes outside `A`..=`Z` are unchanged.
pub open spec fn lower_byte(b: u8) -> u8 {
    if 65 <= b && b <= 90 {
        (b + 32) as u8
    } else {
        b
    }
}

/// ASCII-uppercase a single byte; bytes outside `a`..=`z` are unchanged.
pub open spec fn upper_byte(b: u8) -> u8 {
    if 97 <= b && b <= 122 {
        (b - 32) as u8
    } else {
        b
    }
}

pub open spec fn lower_seq(s: Seq<u8>) -> Seq<u8> {
    s.map_values(|b: u8| lower_byte(b))
}

pub open spec fn upper_seq(s: Seq<u8>) -> Seq<u8> {
    s.map_values(|b: u8| upper_byte(b))
}

pub fn to_ascii_lower(s: &Vec<u8>) -> (r: Vec<u8>)
    ensures
        r@ == lower_seq(s@),
{
    let mut r: Vec<u8> = Vec::new();
    let mut i: usize = 0;
    while i < s.len()
        invariant
            i <= s@.len(),
            r@.len() == i,
            forall|j: int| 0 <= j < i ==> r@[j] == lower_byte(s@[j]),
        decreases s@.len() - i,
    {
        let b = s[i];
        if 65 <= b && b <= 90 {
            r.push(b + 32);
        } else {
            r.push(b);
        }
        i += 1;
    }
    proof {
        assert(r@ =~= lower_seq(s@));
    }
    r
}

pub fn to_ascii_upper(s: &Vec<u8>) -> (r: Vec<u8>)
    ensures
        r@ == upper_seq(s@),
{
    let mut r: Vec<u8> = Vec::new();
    let mut i: usize = 0;
    while i < s.len()
        invariant
            i <= s@.len(),
            r@.len() == i,
            forall|j: int| 0 <= j < i ==> r@[j] == upper_byte(s@[j]),
        decreases s@.len() - i,
    {
        let b = s[i];
        if 97 <= b && b <= 122 {
            r.push(b - 32);
        } else {
            r.push(b);
        }
        i += 1;
    }
    proof {
        assert(r@ =~= upper_seq(s@));
    }
    r
}

/// The ASCII whitespace bytes: space, tab, line feed, vertical tab, form
/// feed, carriage return.
pub open spec fn is_ascii_ws(b: u8) -> bool {
    b == 32 || b == 9 || b == 10 || b == 11 || b == 12 || b == 13
}

/// The sequence with every trailing whitespace byte removed.
pub open spec fn trim_end_ws(s: Seq<u8>) -> Seq<u8>
    decreases s.len(),
{
    if s.len() > 0 && is_ascii_ws(s.last()) {
        trim_end_ws(s.drop_last())
    } else {
        s
    }
}

/// Whether `b` is an ASCII whitespace byte, matching `is_ascii_ws`.
pub fn is_ws_byte(b: u8) -> (r: bool)
    ensures
        r == is_ascii_ws(b),
{
    b == 32 || b == 9 || b == 10 || b == 11 || b == 12 || b == 13
}

pub fn trim_end(s: &Vec<u8>) -> (r: Vec<u8>)
    ensures
        r@ == trim_end_ws(s@),
{
    let mut end: usize = s.len();
    proof {
        assert(s@.take(end as int) =~= s@);
    }
    while end > 0 && is_ws_byte(s[end - 1])
        invariant
            end <= s@.len(),
            trim_end_ws(s@) == trim_end_ws(s@.take(end as int)),
        decreases end,
    {
        proof {
            assert(s@.take(end as int).drop_last() =~= s@.take(end - 1));
        }
        end -= 1;
    }
    let mut r: Vec<u8> = Vec::new();
    let mut i: usize = 0;
    while i < end
        invariant
            i <= end <= s@.len(),
            r@ =~= s@.take(i as int),
        decreases end - i,
    {
        r.push(s[i]);
        proof {
            assert(r@ =~= s@.take(i + 1));
        }
        i += 1;
    }
    proof {
        if end > 0 {
            assert(!is_ascii_ws(s@.take(end as int).last()));
        }
        assert(r@ =~= trim_end_ws(s@.take(end as int)));
    }
    r
}

/// Copy a byte vector. Spelled out as a loop so the result's view is
/// known to equal the source's.
pub fn clone_bytes(s: &Vec<u8>) -> (r: Vec<u8>)
    ensures
        r@ == s@,
{
    let mut r: Vec<u8> = Vec::new();
    let mut i: usize = 0;
    while i < s.len()
        invariant
            i <= s@.len(),
            r@ =~= s@.take(i as int),
        decreases s@.len() - i,
    {
        r.push(s[i]);
        proof {
            assert(r@ =~= s@.take(i + 1));
        }
        i += 1;
    }
    proof {
        assert(r@ =~= s@);
    }
    r
}

/// The decimal digits of `n`, most significant first, as ASCII bytes.
pub open spec fn dec_digits(n: nat) -> Seq<u8>
    decreases n,
{
    if n < 10 {
        seq![(48 + n) as u8]
    } else {
        dec_digits(n / 10).push((48 + n % 10) as u8)
    }
}

/// Render `n` in decimal, matching `dec_digits`.
pub fn u64_to_dec(n: u64) -> (r: Vec<u8>)
    ensures
        r@ == dec_digits(n as nat),
    decreases n,
{
    if n < 10 {
        let mut r: Vec<u8> = Vec::new();
        r.push((n as u8) + 48);
        proof {
            assert(r@ =~= dec_digits(n as nat));
        }
        r
    } else {
        let mut r = u64_to_dec(n / 10);
        r.push(((n % 10) as u8) + 48);
        r
    }
}

} // verus!
