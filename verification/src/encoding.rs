//! Base64 (RFC 4648), as the `base64` crate's `STANDARD` and
//! `URL_SAFE_NO_PAD` engines encode it, and UTF-8 decoding of bytes.
use vstd::prelude::*;
use vstd::utf8::{decode_utf8, valid_utf8};

use base64::Engine;

verus! {

/// The character for a 6-bit value: `A-Z a-z 0-9` then `+ /` in the
/// standard alphabet or `- _` in the URL-safe one.
pub open spec fn base64_char(v: int, url_safe: bool) -> char {
    if v < 26 {
        (('A' as int) + v) as char
    } else if v < 52 {
        (('a' as int) + (v - 26)) as char
    } else if v < 62 {
        (('0' as int) + (v - 52)) as char
    } else if v == 62 {
        if url_safe { '-' } else { '+' }
    } else {
        if url_safe { '_' } else { '/' }
    }
}

/// Base64 of `bytes`: every three bytes become four characters; a final one
/// or two bytes become two or three characters, followed by `=` up to four
/// when `padded`.
pub open spec fn base64_encode(bytes: Seq<u8>, url_safe: bool, padded: bool) -> Seq<char>
    decreases bytes.len(),
{
    if bytes.len() == 0 {
        Seq::<char>::empty()
    } else if bytes.len() == 1 {
        let b0 = bytes[0] as int;
        let head = seq![base64_char(b0 / 4, url_safe), base64_char((b0 % 4) * 16, url_safe)];
        if padded { head + seq!['=', '='] } else { head }
    } else if bytes.len() == 2 {
        let b0 = bytes[0] as int;
        let b1 = bytes[1] as int;
        let head = seq![
            base64_char(b0 / 4, url_safe),
            base64_char((b0 % 4) * 16 + b1 / 16, url_safe),
            base64_char((b1 % 16) * 4, url_safe),
        ];
        if padded { head.push('=') } else { head }
    } else {
        let b0 = bytes[0] as int;
        let b1 = bytes[1] as int;
        let b2 = bytes[2] as int;
        seq![
            base64_char(b0 / 4, url_safe),
            base64_char((b0 % 4) * 16 + b1 / 16, url_safe),
            base64_char((b1 % 16) * 4 + b2 / 64, url_safe),
            base64_char(b2 % 64, url_safe),
        ] + base64_encode(bytes.skip(3), url_safe, padded)
    }
}

/// Distinct 6-bit values have distinct characters, none of them `=`.
pub proof fn lemma_base64_char_injective(v: int, w: int, url_safe: bool)
    requires
        0 <= v < 64,
        0 <= w < 64,
    ensures
        base64_char(v, url_safe) == base64_char(w, url_safe) ==> v == w,
        base64_char(v, url_safe) != '=',
{
}

proof fn lemma_sextets_determine_bytes(b0: int, b1: int, b2: int, c0: int, c1: int, c2: int)
    requires
        0 <= b0 < 256,
        0 <= b1 < 256,
        0 <= b2 < 256,
        0 <= c0 < 256,
        0 <= c1 < 256,
        0 <= c2 < 256,
        b0 / 4 == c0 / 4,
        (b0 % 4) * 16 + b1 / 16 == (c0 % 4) * 16 + c1 / 16,
        (b1 % 16) * 4 + b2 / 64 == (c1 % 16) * 4 + c2 / 64,
        b2 % 64 == c2 % 64,
    ensures
        b0 == c0,
        b1 == c1,
        b2 == c2,
{
}

proof fn lemma_padded_head(bytes: Seq<u8>, url_safe: bool)
    requires
        bytes.len() > 0,
    ensures
        base64_encode(bytes, url_safe, true).len() >= 4,
        bytes.len() == 1 ==> base64_encode(bytes, url_safe, true).len() == 4
            && base64_encode(bytes, url_safe, true)[2] == '='
            && base64_encode(bytes, url_safe, true)[3] == '=',
        bytes.len() == 2 ==> base64_encode(bytes, url_safe, true).len() == 4
            && base64_encode(bytes, url_safe, true)[2] != '='
            && base64_encode(bytes, url_safe, true)[3] == '=',
        bytes.len() >= 3 ==> base64_encode(bytes, url_safe, true)[2] != '='
            && base64_encode(bytes, url_safe, true)[3] != '=',
{
    let b0 = bytes[0] as int;
    lemma_base64_char_injective(b0 / 4, 0, url_safe);
    if bytes.len() == 2 {
        let b1 = bytes[1] as int;
        lemma_base64_char_injective((b1 % 16) * 4, 0, url_safe);
    } else if bytes.len() >= 3 {
        let b1 = bytes[1] as int;
        let b2 = bytes[2] as int;
        lemma_base64_char_injective((b1 % 16) * 4 + b2 / 64, 0, url_safe);
        lemma_base64_char_injective(b2 % 64, 0, url_safe);
    }
}

/// Padded base64 is injective: a text is the encoding of at most one byte
/// string, so decoding has at most one answer.
pub proof fn lemma_padded_encoding_is_injective(a: Seq<u8>, b: Seq<u8>, url_safe: bool)
    requires
        base64_encode(a, url_safe, true) == base64_encode(b, url_safe, true),
    ensures
        a == b,
    decreases a.len(),
{
    let ea = base64_encode(a, url_safe, true);
    let eb = base64_encode(b, url_safe, true);
    if a.len() == 0 || b.len() == 0 {
        if a.len() > 0 {
            lemma_padded_head(a, url_safe);
        }
        if b.len() > 0 {
            lemma_padded_head(b, url_safe);
        }
        assert(a =~= b);
        return;
    }
    lemma_padded_head(a, url_safe);
    lemma_padded_head(b, url_safe);
    assert(ea[0] == eb[0] && ea[1] == eb[1] && ea[2] == eb[2] && ea[3] == eb[3]);
    let a0 = a[0] as int;
    let b0 = b[0] as int;
    assert(ea[0] == base64_char(a0 / 4, url_safe));
    assert(eb[0] == base64_char(b0 / 4, url_safe));
    lemma_base64_char_injective(a0 / 4, b0 / 4, url_safe);
    if a.len() == 1 && b.len() == 1 {
        assert(ea[1] == base64_char((a0 % 4) * 16, url_safe));
        assert(eb[1] == base64_char((b0 % 4) * 16, url_safe));
        lemma_base64_char_injective((a0 % 4) * 16, (b0 % 4) * 16, url_safe);
        lemma_sextets_determine_bytes(a0, 0, 0, b0, 0, 0);
        assert(a =~= b);
    } else if a.len() == 2 && b.len() == 2 {
        let a1 = a[1] as int;
        let b1 = b[1] as int;
        assert(ea[1] == base64_char((a0 % 4) * 16 + a1 / 16, url_safe));
        assert(eb[1] == base64_char((b0 % 4) * 16 + b1 / 16, url_safe));
        assert(ea[2] == base64_char((a1 % 16) * 4, url_safe));
        assert(eb[2] == base64_char((b1 % 16) * 4, url_safe));
        lemma_base64_char_injective((a0 % 4) * 16 + a1 / 16, (b0 % 4) * 16 + b1 / 16, url_safe);
        lemma_base64_char_injective((a1 % 16) * 4, (b1 % 16) * 4, url_safe);
        lemma_sextets_determine_bytes(a0, a1, 0, b0, b1, 0);
        assert(a =~= b);
    } else if a.len() >= 3 && b.len() >= 3 {
        let a1 = a[1] as int;
        let b1 = b[1] as int;
        let a2 = a[2] as int;
        let b2 = b[2] as int;
        assert(ea[1] == base64_char((a0 % 4) * 16 + a1 / 16, url_safe));
        assert(eb[1] == base64_char((b0 % 4) * 16 + b1 / 16, url_safe));
        assert(ea[2] == base64_char((a1 % 16) * 4 + a2 / 64, url_safe));
        assert(eb[2] == base64_char((b1 % 16) * 4 + b2 / 64, url_safe));
        assert(ea[3] == base64_char(a2 % 64, url_safe));
        assert(eb[3] == base64_char(b2 % 64, url_safe));
        lemma_base64_char_injective((a0 % 4) * 16 + a1 / 16, (b0 % 4) * 16 + b1 / 16, url_safe);
        lemma_base64_char_injective(
            (a1 % 16) * 4 + a2 / 64,
            (b1 % 16) * 4 + b2 / 64,
            url_safe,
        );
        lemma_base64_char_injective(a2 % 64, b2 % 64, url_safe);
        lemma_sextets_determine_bytes(a0, a1, a2, b0, b1, b2);
        let ra = base64_encode(a.skip(3), url_safe, true);
        let rb = base64_encode(b.skip(3), url_safe, true);
        assert(ea.skip(4) =~= ra);
        assert(eb.skip(4) =~= rb);
        lemma_padded_encoding_is_injective(a.skip(3), b.skip(3), url_safe);
        assert(a =~= a.take(3) + a.skip(3));
        assert(b =~= b.take(3) + b.skip(3));
        assert(a.take(3) =~= b.take(3));
    }
}

/// Unpadded base64 spends four characters on every three bytes and one
/// more character than there are bytes on a final one or two.
pub proof fn lemma_unpadded_length(bytes: Seq<u8>, url_safe: bool)
    ensures
        base64_encode(bytes, url_safe, false).len() == 4 * (bytes.len() / 3) + (if bytes.len()
            % 3 == 0 {
            0
        } else {
            bytes.len() % 3 + 1
        }),
    decreases bytes.len(),
{
    if bytes.len() >= 3 {
        lemma_unpadded_length(bytes.skip(3), url_safe);
    }
}

/// The `Display` text of the `DecodeError` that
/// `STANDARD.decode` answers `text` with.
pub uninterp spec fn base64_decode_error(text: Seq<char>) -> Seq<char>;

/// `base64::engine::general_purpose::STANDARD.decode`. That engine
/// requires canonical padding and rejects non-zero trailing bits, so it
/// accepts exactly the texts that are the padded standard encoding of some
/// bytes, and answers with those bytes; otherwise with its error's
/// `Display` text.
#[verifier::external_body]
pub(crate) fn base64_standard_decode(text: &str) -> (r: Result<Vec<u8>, String>)
    ensures
        r matches Ok(bytes) ==> base64_encode(bytes@, false, true) == text@,
        r is Err ==> forall|bytes: Seq<u8>| base64_encode(bytes, false, true) != text@,
        r matches Err(m) ==> m@ == base64_decode_error(text@),
{
    match base64::engine::general_purpose::STANDARD.decode(text) {
        Ok(bytes) => Ok(bytes),
        Err(e) => Err(e.to_string()),
    }
}

/// `base64::engine::general_purpose::URL_SAFE_NO_PAD.encode`: the URL-safe
/// alphabet, without padding.
#[verifier::external_body]
pub(crate) fn base64_url_no_pad_encode(bytes: &[u8]) -> (s: String)
    ensures
        s@ == base64_encode(bytes@, true, false),
{
    base64::engine::general_purpose::URL_SAFE_NO_PAD.encode(bytes)
}

/// `String::from_utf8`: the decoded text when the bytes are valid UTF-8.
#[verifier::external_body]
pub(crate) fn string_from_utf8(bytes: Vec<u8>) -> (r: Option<String>)
    ensures
        r is Some <==> valid_utf8(bytes@),
        r matches Some(s) ==> s@ == decode_utf8(bytes@),
{
    String::from_utf8(bytes).ok()
}

} // verus!
