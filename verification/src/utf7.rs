//! IMAP mailbox names in modified UTF-7 (RFC 3501 §5.1.3), decoded through
//! `utf7_imap`.
use vstd::prelude::*;

use crate::text::{char_vec, find, find_char, lemma_find_char_found, slice_range};

verus! {

broadcast use vstd::string::group_string_axioms;

/// The base64 value of a character of modified base64 (`,` and `/` both
/// stand for 63), if it is one.
pub open spec fn mb64_value(c: char) -> Option<nat> {
    let v = c as int;
    if 65 <= v <= 90 {
        Some((v - 65) as nat)
    } else if 97 <= v <= 122 {
        Some((v - 71) as nat)
    } else if 48 <= v <= 57 {
        Some((v + 4) as nat)
    } else if c == '+' {
        Some(62)
    } else if c == '/' || c == ',' {
        Some(63)
    } else {
        None
    }
}

/// The number of `=` at the end of `x`, counting at most two.
pub open spec fn trailing_pads(x: Seq<char>) -> nat {
    if x.len() >= 2 && x[x.len() - 1] == '=' && x[x.len() - 2] == '=' {
        2
    } else if x.len() >= 1 && x[x.len() - 1] == '=' {
        1
    } else {
        0
    }
}

/// Whether the text between `&` and `-` decodes as base64 (version 0.13,
/// standard alphabet, trailing bits zero) once `,` is read as `/` and `=`
/// are added up to a multiple of four: the digits, then at most the padding
/// their count calls for, with no bits left over in the last digit.
pub open spec fn section_decodes(x: Seq<char>) -> bool {
    let m = trailing_pads(x);
    let d = x.take(x.len() - m);
    let r = d.len() % 4;
    &&& forall|i: int| 0 <= i < d.len() ==> #[trigger] mb64_value(d[i]) is Some
    &&& r != 1
    &&& r == 0 ==> m == 0
    &&& r == 3 ==> m <= 1
    &&& r == 2 ==> mb64_value(d.last())->0 % 16 == 0
    &&& r == 3 ==> mb64_value(d.last())->0 % 4 == 0
}

/// Whether every encoded section `&…-` of a mailbox name decodes: sections
/// are found left to right, each from an `&` to the first `-` after it; an
/// empty one (`&-`) stands for `&` and needs no decoding.
pub open spec fn sections_decode(s: Seq<char>) -> bool
    decreases s.len(),
{
    match find_char(s, '&') {
        None => true,
        Some(i) => {
            let rest = s.skip(i + 1 as int);
            match find_char(rest, '-') {
                None => true,
                Some(j) => {
                    proof {
                        lemma_find_char_found(s, '&');
                        lemma_find_char_found(rest, '-');
                    }
                    (j == 0 || section_decodes(rest.take(j as int))) && sections_decode(
                        rest.skip(j + 1 as int),
                    )
                },
            }
        },
    }
}

/// What `utf7_imap::decode_utf7_imap` gives for a mailbox name.
pub uninterp spec fn utf7_decoded(s: Seq<char>) -> Seq<char>;

/// `utf7_imap::decode_utf7_imap`: each section `&…-` replaced by the text
/// it encodes (`&-` by `&`). It panics on a section that is not valid base64,
/// which `requires` leaves out. A name without `&` has no section and comes
/// back unchanged.
#[verifier::external_body]
fn decode_utf7(raw: &str) -> (res: String)
    requires
        sections_decode(raw@),
    ensures
        res@ == utf7_decoded(raw@),
        !raw@.contains('&') ==> res@ == raw@,
{
    utf7_imap::decode_utf7_imap(raw.to_string())
}

/// Decode an IMAP modified UTF-7 mailbox name to UTF-8.
/// Plain ASCII names pass through unchanged.
pub fn decode_mailbox_name(raw: &str) -> (res: String)
    requires
        sections_decode(raw@),
    ensures
        res@ == utf7_decoded(raw@),
        !raw@.contains('&') ==> res@ == raw@,
{
    decode_utf7(raw)
}

/// The base64 value of a modified-base64 character.
fn mb64_digit(c: char) -> (res: Option<u32>)
    ensures
        match res {
            Some(v) => mb64_value(c) == Some(v as nat),
            None => mb64_value(c) is None,
        },
{
    if 'A' <= c && c <= 'Z' {
        Some((c as u32) - 65)
    } else if 'a' <= c && c <= 'z' {
        Some((c as u32) - 71)
    } else if '0' <= c && c <= '9' {
        Some((c as u32) + 4)
    } else if c == '+' {
        Some(62)
    } else if c == '/' || c == ',' {
        Some(63)
    } else {
        None
    }
}

/// Whether a section's text decodes (see `section_decodes`).
fn section_ok(x: &[char]) -> (b: bool)
    ensures
        b == section_decodes(x@),
{
    let n = x.len();
    let m: usize = if n >= 2 && x[n - 1] == '=' && x[n - 2] == '=' {
        2
    } else if n >= 1 && x[n - 1] == '=' {
        1
    } else {
        0
    };
    assert(m == trailing_pads(x@));
    let dlen = n - m;
    let ghost d = x@.take(dlen as int);
    let mut i: usize = 0;
    let mut last: u32 = 0;
    while i < dlen
        invariant
            i <= dlen,
            dlen <= x@.len(),
            m == trailing_pads(x@),
            dlen == x@.len() - m,
            d == x@.take(dlen as int),
            forall|k: int| 0 <= k < i ==> #[trigger] mb64_value(d[k]) is Some,
            i > 0 ==> mb64_value(d[i - 1]) == Some(last as nat),
        decreases dlen - i,
    {
        assert(d[i as int] == x@[i as int]);
        match mb64_digit(x[i]) {
            Some(v) => {
                last = v;
            },
            None => {
                assert(mb64_value(d[i as int]) is None);
                return false;
            },
        }
        i = i + 1;
    }
    let r = dlen % 4;
    if r == 1 {
        return false;
    }
    if r == 0 && m != 0 {
        return false;
    }
    if r == 3 && m > 1 {
        return false;
    }
    if r == 2 && last % 16 != 0 {
        return false;
    }
    if r == 3 && last % 4 != 0 {
        return false;
    }
    true
}

/// Whether every encoded section of `s` decodes (see `sections_decode`).
fn sections_ok(s: &[char]) -> (b: bool)
    ensures
        b == sections_decode(s@),
    decreases s@.len(),
{
    proof {
        lemma_find_char_found(s@, '&');
    }
    let n = s.len();
    match find(s, '&') {
        None => true,
        Some(i) => {
            let rest = slice_range(s, i + 1, n);
            assert(rest@ == s@.skip(i + 1));
            proof {
                lemma_find_char_found(rest@, '-');
            }
            match find(rest.as_slice(), '-') {
                None => true,
                Some(j) => {
                    let tail = slice_range(rest.as_slice(), j + 1, rest.len());
                    assert(tail@ == rest@.skip(j + 1));
                    if j > 0 {
                        let body = slice_range(rest.as_slice(), 0, j);
                        assert(body@ == rest@.take(j as int));
                        if !section_ok(body.as_slice()) {
                            return false;
                        }
                    }
                    sections_ok(tail.as_slice())
                },
            }
        },
    }
}

/// Whether `decode_mailbox_name` accepts `raw`: every encoded section of it
/// is valid modified base64.
pub fn mailbox_name_decodable(raw: &str) -> (b: bool)
    ensures
        b == sections_decode(raw@),
{
    let chars = char_vec(raw);
    sections_ok(chars.as_slice())
}

} // verus!
