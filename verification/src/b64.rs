//! Standard base64 (RFC 4648 alphabet, `=` padding), through the `base64`
//! crate.
use vstd::prelude::*;

verus! {

/// The base64 digit for a 6-bit value.
pub open spec fn b64_digit(v: nat) -> char {
    if v < 26 {
        ((v + 65) as u8) as char
    } else if v < 52 {
        ((v + 71) as u8) as char
    } else if v < 62 {
        ((v - 4) as u8) as char
    } else if v == 62 {
        '+'
    } else {
        '/'
    }
}

/// The standard base64 encoding of `b`, with `=` padding.
pub open spec fn base64_spec(b: Seq<u8>) -> Seq<char>
    decreases b.len(),
{
    if b.len() == 0 {
        seq![]
    } else if b.len() == 1 {
        seq![b64_digit((b[0] / 4) as nat), b64_digit(((b[0] % 4) * 16) as nat), '=', '=']
    } else if b.len() == 2 {
        seq![
            b64_digit((b[0] / 4) as nat),
            b64_digit(((b[0] % 4) * 16 + b[1] / 16) as nat),
            b64_digit(((b[1] % 16) * 4) as nat),
            '=',
        ]
    } else {
        seq![
            b64_digit((b[0] / 4) as nat),
            b64_digit(((b[0] % 4) * 16 + b[1] / 16) as nat),
            b64_digit(((b[1] % 16) * 4 + b[2] / 64) as nat),
            b64_digit((b[2] % 64) as nat),
        ] + base64_spec(b.skip(3))
    }
}

/// `base64::engine::general_purpose::STANDARD.encode`: standard base64 with
/// padding.
#[verifier::external_body]
pub(crate) fn base64_encode(bytes: &[u8]) -> (res: String)
    ensures
        res@ == base64_spec(bytes@),
{
    base64::Engine::encode(&base64::engine::general_purpose::STANDARD, bytes)
}

/// The text of the error that `STANDARD.decode` reports for `s`.
pub uninterp spec fn base64_decode_error(s: Seq<char>) -> Seq<char>;

/// `base64::engine::general_purpose::STANDARD.decode`: the engine requires
/// canonical padding and zero trailing bits, so it accepts exactly the
/// standard encodings of byte strings and gives those bytes back; otherwise
/// it reports an error, whose text is named, not spelled out.
#[verifier::external_body]
pub(crate) fn base64_decode(s: &str) -> (res: Result<Vec<u8>, String>)
    ensures
        res matches Ok(v) ==> base64_spec(v@) == s@,
        (exists|b: Seq<u8>| base64_spec(b) == s@) ==> res is Ok,
        res matches Err(e) ==> e@ == base64_decode_error(s@),
{
    base64::Engine::decode(&base64::engine::general_purpose::STANDARD, s).map_err(
        |e| e.to_string(),
    )
}


/// The code point of the base64 digit for a 6-bit value.
pub open spec fn b64_code(v: nat) -> int {
    if v < 26 {
        v + 65int
    } else if v < 52 {
        v + 71int
    } else if v < 62 {
        v - 4
    } else if v == 62 {
        43
    } else {
        47
    }
}

proof fn lemma_digit_code(v: nat)
    requires
        v < 64,
    ensures
        b64_digit(v) as u32 == b64_code(v),
        b64_digit(v) != '=',
{
    assert('+' as u32 == 43);
    assert('/' as u32 == 47);
    assert('=' as u32 == 61);
}

proof fn lemma_digit_injective(x: nat, y: nat)
    requires
        x < 64,
        y < 64,
        b64_digit(x) == b64_digit(y),
    ensures
        x == y,
{
    lemma_digit_code(x);
    lemma_digit_code(y);
}

proof fn lemma_group_injective(a0: u8, a1: u8, a2: u8, b0: u8, b1: u8, b2: u8)
    requires
        a0 / 4 == b0 / 4,
        (a0 % 4) * 16 + a1 / 16 == (b0 % 4) * 16 + b1 / 16,
        (a1 % 16) * 4 + a2 / 64 == (b1 % 16) * 4 + b2 / 64,
        a2 % 64 == b2 % 64,
    ensures
        a0 == b0 && a1 == b1 && a2 == b2,
{
    assert(a0 / 4 == b0 / 4 && (a0 % 4) * 16 + a1 / 16 == (b0 % 4) * 16 + b1 / 16 && (a1 % 16) * 4
        + a2 / 64 == (b1 % 16) * 4 + b2 / 64 && a2 % 64 == b2 % 64 ==> a0 == b0 && a1 == b1 && a2
        == b2) by (bit_vector);
}

proof fn lemma_base64_len(b: Seq<u8>)
    ensures
        base64_spec(b).len() == 4 * ((b.len() + 2) / 3),
        b.len() > 0 ==> base64_spec(b).len() >= 4,
    decreases b.len(),
{
    if b.len() >= 3 {
        lemma_base64_len(b.skip(3));
    }
}

/// The byte at `i`, or 0 past the end.
spec fn byte_or_zero(a: Seq<u8>, i: int) -> u8 {
    if i < a.len() {
        a[i]
    } else {
        0
    }
}

proof fn lemma_first_group(a: Seq<u8>)
    requires
        a.len() > 0,
    ensures
        ({
            let e = base64_spec(a);
            let a0 = a[0];
            let a1 = byte_or_zero(a, 1);
            let a2 = byte_or_zero(a, 2);
            &&& e.len() >= 4
            &&& e[0] == b64_digit((a0 / 4) as nat)
            &&& e[1] == b64_digit(((a0 % 4) * 16 + a1 / 16) as nat)
            &&& e[2] == (if a.len() >= 2 {
                b64_digit(((a1 % 16) * 4 + a2 / 64) as nat)
            } else {
                '='
            })
            &&& e[3] == (if a.len() >= 3 {
                b64_digit((a2 % 64) as nat)
            } else {
                '='
            })
        }),
{
    lemma_base64_len(a);
}

/// Different byte strings have different base64 encodings, so decoding
/// gives back exactly the bytes that were encoded.
pub proof fn lemma_base64_injective(a: Seq<u8>, b: Seq<u8>)
    requires
        base64_spec(a) == base64_spec(b),
    ensures
        a == b,
    decreases a.len(),
{
    let ea = base64_spec(a);
    let eb = base64_spec(b);
    lemma_base64_len(a);
    lemma_base64_len(b);
    if a.len() == 0 || b.len() == 0 {
        assert(a.len() == 0 && b.len() == 0);
        assert(a =~= b);
        return;
    }
    // The first group of four digits.
    lemma_first_group(a);
    lemma_first_group(b);
    assert(ea[0] == eb[0] && ea[1] == eb[1] && ea[2] == eb[2] && ea[3] == eb[3]);
    let a0 = a[0];
    let b0 = b[0];
    let a1 = byte_or_zero(a, 1);
    let b1 = byte_or_zero(b, 1);
    let a2 = byte_or_zero(a, 2);
    let b2 = byte_or_zero(b, 2);
    lemma_digit_code((a0 / 4) as nat);
    lemma_digit_code((b0 / 4) as nat);
    lemma_digit_code(((a0 % 4) * 16 + a1 / 16) as nat);
    lemma_digit_code(((b0 % 4) * 16 + b1 / 16) as nat);
    lemma_digit_code(((a1 % 16) * 4 + a2 / 64) as nat);
    lemma_digit_code(((b1 % 16) * 4 + b2 / 64) as nat);
    lemma_digit_code((a2 % 64) as nat);
    lemma_digit_code((b2 % 64) as nat);
    // Padding tells how many bytes the first group holds.
    let la: int = if a.len() >= 3 { 3 } else { a.len() as int };
    let lb: int = if b.len() >= 3 { 3 } else { b.len() as int };
    assert(la == lb);
    lemma_digit_injective((a0 / 4) as nat, (b0 / 4) as nat);
    lemma_digit_injective(((a0 % 4) * 16 + a1 / 16) as nat, ((b0 % 4) * 16 + b1 / 16) as nat);
    if la >= 2 {
        lemma_digit_injective(((a1 % 16) * 4 + a2 / 64) as nat, ((b1 % 16) * 4 + b2 / 64) as nat);
    }
    if la == 3 {
        lemma_digit_injective((a2 % 64) as nat, (b2 % 64) as nat);
        lemma_group_injective(a0, a1, a2, b0, b1, b2);
        let ra = base64_spec(a.skip(3));
        let rb = base64_spec(b.skip(3));
        assert(ea.skip(4) =~= ra);
        assert(eb.skip(4) =~= rb);
        lemma_base64_injective(a.skip(3), b.skip(3));
        assert(a =~= seq![a0, a1, a2] + a.skip(3));
        assert(b =~= seq![b0, b1, b2] + b.skip(3));
    } else if la == 2 {
        assert(a0 / 4 == b0 / 4 && (a0 % 4) * 16 + a1 / 16 == (b0 % 4) * 16 + b1 / 16 && (a1 % 16)
            * 4 == (b1 % 16) * 4 ==> a0 == b0 && a1 == b1) by (bit_vector);
        assert(a =~= b);
    } else {
        assert(a0 / 4 == b0 / 4 && (a0 % 4) * 16 == (b0 % 4) * 16 ==> a0 == b0) by (bit_vector);
        assert(a =~= b);
    }
}

/// The bytes whose encoding is `s`, when there are any.
pub open spec fn base64_decoded(s: Seq<char>) -> Option<Seq<u8>> {
    if exists|b: Seq<u8>| base64_spec(b) == s {
        Some(choose|b: Seq<u8>| base64_spec(b) == s)
    } else {
        None
    }
}

/// Decoding undoes encoding: the bytes whose encoding is `base64_spec(b)`
/// are `b`.
pub proof fn lemma_base64_roundtrip(b: Seq<u8>)
    ensures
        base64_decoded(base64_spec(b)) == Some(b),
{
    let c = choose|c: Seq<u8>| base64_spec(c) == base64_spec(b);
    lemma_base64_injective(c, b);
}

/// Decodes standard base64: the bytes encoded by `s`, or the text of the
/// error when `s` is not a standard encoding.
pub fn decode_base64(s: &str) -> (res: Result<Vec<u8>, String>)
    ensures
        match base64_decoded(s@) {
            Some(b) => res matches Ok(v) && v@ == b,
            None => res matches Err(e) && e@ == base64_decode_error(s@),
        },
{
    let r = base64_decode(s);
    proof {
        if let Ok(v) = &r {
            let b = choose|b: Seq<u8>| base64_spec(b) == s@;
            lemma_base64_injective(v@, b);
        }
    }
    r
}

} // verus!
