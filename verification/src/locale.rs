//! Preparing the locale file: the raw bytes of `ru.json` (possibly
//! saved with a UTF-8 byte order mark) become compact JSON text without one.
use vstd::prelude::*;
use vstd::slice::slice_subrange;
use vstd::string::StrSliceExecFns;
use vstd::utf8::{decode_utf8, encode_utf8, valid_utf8};

use crate::json::{compact_json, json_compact, json_parse_error, parse_json};

verus! {

broadcast use vstd::string::group_string_axioms;

/// Error text: the locale file is not UTF-8.
pub const NOT_UTF8: &'static str = "файл не в UTF-8";

/// The UTF-8 byte order mark, `EF BB BF`.
pub open spec fn bom() -> Seq<u8> {
    seq![0xEFu8, 0xBBu8, 0xBFu8]
}

/// `b` begins with the byte order mark.
pub open spec fn starts_with_bom(b: Seq<u8>) -> bool {
    b.len() >= 3 && b.take(3) == bom()
}

/// `b` without its leading byte order mark, if it has one (only one is
/// removed).
pub open spec fn without_bom(b: Seq<u8>) -> Seq<u8> {
    if starts_with_bom(b) {
        b.skip(3)
    } else {
        b
    }
}

/// `std::str::from_utf8`: the text whose UTF-8 encoding is `bytes`, which
/// exists exactly when `bytes` is valid UTF-8 (`valid_utf8` is vstd's
/// definition of validity).
#[verifier::external_body]
fn utf8_text(bytes: &[u8]) -> (res: Option<&str>)
    ensures
        res is Some <==> valid_utf8(bytes@),
        res matches Some(s) ==> encode_utf8(s@) == bytes@,
{
    std::str::from_utf8(bytes).ok()
}

/// Removes one leading UTF-8 byte order mark, if there is one.
pub fn strip_bom(raw: &[u8]) -> (out: &[u8])
    ensures
        out@ == without_bom(raw@),
{
    if raw.len() >= 3 && raw[0] == 0xEF && raw[1] == 0xBB && raw[2] == 0xBF {
        assert(raw@.take(3) =~= bom());
        slice_subrange(raw, 3, raw.len())
    } else {
        assert(!starts_with_bom(raw@)) by {
            if raw@.len() >= 3 && raw@.take(3) == bom() {
                assert(raw@.take(3)[0] == raw@[0]);
                assert(raw@.take(3)[1] == raw@[1]);
                assert(raw@.take(3)[2] == raw@[2]);
            }
        }
        raw
    }
}

/// The UTF-8 encoding of a text whose first character is ASCII does not
/// start with the byte order mark.
proof fn lemma_ascii_start_no_bom(s: Seq<char>)
    requires
        s.len() > 0,
        (s[0] as u32) < 0x80,
    ensures
        valid_utf8(encode_utf8(s)),
        !starts_with_bom(encode_utf8(s)),
{
    broadcast use vstd::utf8::encode_utf8_valid_utf8;

    let v = s[0] as u32;
    let b = encode_utf8(s);
    assert(b == vstd::utf8::encode_scalar(v) + encode_utf8(s.drop_first()));
    assert((v & 0x7F) <= 0x7F) by (bit_vector);
    assert(b[0] == vstd::utf8::leading_byte_width_1(v));
    if starts_with_bom(b) {
        assert(b.take(3)[0] == b[0]);
    }
}

/// What the locale file becomes: one leading byte order mark is dropped;
/// the rest must be UTF-8 (else the error `NOT_UTF8`) and must parse as JSON
/// (else serde_json's error text); the result is the UTF-8 encoding of
/// serde_json's compact rendering of the parsed value.
pub open spec fn minified_locale(raw: Seq<u8>) -> Result<Seq<u8>, Seq<char>> {
    let body = without_bom(raw);
    if !valid_utf8(body) {
        Err(NOT_UTF8@)
    } else {
        match json_parse_error(decode_utf8(body)) {
            Some(m) => Err(m),
            None => Ok(encode_utf8(json_compact(decode_utf8(body)))),
        }
    }
}

/// Turns the bytes of the locale file into compact JSON bytes, as
/// `minified_locale` says; the bytes are UTF-8 and never start with a byte
/// order mark.
pub fn minify_json_bytes(raw: &[u8]) -> (res: Result<Vec<u8>, crate::Error>)
    ensures
        match res {
            Ok(out) => minified_locale(raw@) == Ok::<Seq<u8>, Seq<char>>(out@),
            Err(e) => e matches crate::Error::InvalidJson(m) && minified_locale(raw@) == Err::<Seq<u8>, Seq<char>>(m@),
        },
        res matches Ok(out) ==> valid_utf8(out@) && !starts_with_bom(out@),
{
    broadcast use vstd::utf8::encode_utf8_decode_utf8;

    let body = strip_bom(raw);
    let text = match utf8_text(body) {
        Some(t) => t,
        None => return Err(crate::Error::InvalidJson(NOT_UTF8.to_owned())),
    };
    assert(decode_utf8(body@) == text@);
    let doc = match parse_json(text) {
        Ok(d) => d,
        Err(msg) => return Err(crate::Error::InvalidJson(msg)),
    };
    match compact_json(&doc) {
        Ok(s) => {
            proof {
                lemma_ascii_start_no_bom(s@);
            }
            Ok(s.as_str().as_bytes_vec())
        },
        Err(msg) => Err(crate::Error::InvalidJson(msg)),
    }
}

/// What the locale preparation gives, case by case, in terms of the bytes
/// read: not UTF-8 after one leading mark is dropped gives `NOT_UTF8`; UTF-8
/// text that serde_json rejects gives serde_json's error text; UTF-8 text
/// that serde_json accepts always succeeds, with the UTF-8 encoding of
/// serde_json's compact rendering of that text.
pub proof fn law_minify_cases(raw: Seq<u8>)
    ensures
        !valid_utf8(without_bom(raw)) ==> minified_locale(raw) == Err::<Seq<u8>, Seq<char>>(NOT_UTF8@),
        valid_utf8(without_bom(raw)) ==> match json_parse_error(decode_utf8(without_bom(raw))) {
            Some(m) => minified_locale(raw) == Err::<Seq<u8>, Seq<char>>(m),
            None => minified_locale(raw) == Ok::<Seq<u8>, Seq<char>>(
                encode_utf8(json_compact(decode_utf8(without_bom(raw)))),
            ),
        },
        (valid_utf8(without_bom(raw)) && json_parse_error(decode_utf8(without_bom(raw))) != Some(NOT_UTF8@))
            ==> minified_locale(raw) != Err::<Seq<u8>, Seq<char>>(NOT_UTF8@),
{
}

/// A byte order mark in front of the locale file changes nothing: the same
/// bytes come out, or the same error.
pub proof fn law_minify_ignores_mark(content: Seq<u8>)
    requires
        !starts_with_bom(content),
    ensures
        minified_locale(bom() + content) == minified_locale(content),
{
    law_strip_bom_removes_mark(content);
}

/// Stripping the byte order mark from a file that starts with one gives
/// the file's content after it.
pub proof fn law_strip_bom_removes_mark(content: Seq<u8>)
    ensures
        without_bom(bom() + content) == content,
{
    assert((bom() + content).take(3) =~= bom());
    assert((bom() + content).skip(3) =~= content);
}

/// A file without a byte order mark is handed on unchanged.
pub proof fn law_strip_bom_keeps_plain(content: Seq<u8>)
    requires
        !starts_with_bom(content),
    ensures
        without_bom(content) == content,
{
}

} // verus!
