//! Calls into the `uuid` and `base64` crates, with what their sources show of them.
use vstd::prelude::*;

verus! {

/// Whether `c` is a lowercase hexadecimal digit.
pub open spec fn is_lower_hex(c: char) -> bool {
    ('0' <= c && c <= '9') || ('a' <= c && c <= 'f')
}

/// Whether `s` is a version-7 UUID in hyphenated lowercase form,
/// `xxxxxxxx-xxxx-7xxx-xxxx-xxxxxxxxxxxx`.
pub open spec fn is_uuid_v7_text(s: Seq<char>) -> bool {
    &&& s.len() == 36
    &&& forall|i: int|
        0 <= i < 36 ==> if i == 8 || i == 13 || i == 18 || i == 23 {
            #[trigger] s[i] == '-'
        } else {
            is_lower_hex(s[i])
        }
    &&& s[14] == '7'
}

/// A fresh record id: `uuid::Uuid::now_v7()` written with `to_string`. The value rests on
/// the clock and on chance; what is stated is its shape, which uuid's `Display`
/// (hyphenated, lowercase) and the version-7 layout give.
#[verifier::external_body]
pub(crate) fn new_record_id() -> (id: String)
    ensures
        is_uuid_v7_text(id@),
{
    uuid::Uuid::now_v7().to_string()
}

/// The character of a 6-bit value in the standard base64 alphabet
/// (`A`-`Z`, `a`-`z`, `0`-`9`, `+`, `/`).
pub open spec fn base64_char(n: int) -> char {
    if n < 26 {
        (65 + n) as char
    } else if n < 52 {
        (97 + n - 26) as char
    } else if n < 62 {
        (48 + n - 52) as char
    } else if n == 62 {
        '+'
    } else {
        '/'
    }
}

/// The standard (padded) base64 text of a byte string: each group of three bytes becomes
/// four characters of six bits each; a last group of one or two bytes is filled with zero
/// bits and padded with `=` to four characters.
pub open spec fn base64_encoded(data: Seq<u8>) -> Seq<char>
    decreases data.len(),
{
    if data.len() == 0 {
        Seq::empty()
    } else if data.len() == 1 {
        seq![base64_char(data[0] as int / 4), base64_char((data[0] % 4) * 16), '=', '=']
    } else if data.len() == 2 {
        seq![
            base64_char(data[0] as int / 4),
            base64_char((data[0] % 4) * 16 + data[1] / 16),
            base64_char((data[1] % 16) * 4),
            '=',
        ]
    } else {
        seq![
            base64_char(data[0] as int / 4),
            base64_char((data[0] % 4) * 16 + data[1] / 16),
            base64_char((data[1] % 16) * 4 + data[2] / 64),
            base64_char(data[2] as int % 64),
        ] + base64_encoded(data.skip(3))
    }
}

/// Whether a text is the standard base64 encoding of some bytes. `STANDARD` decoding
/// accepts exactly these texts (canonical padding, no trailing bits) and gives back those
/// bytes.
pub open spec fn is_base64_text(text: Seq<char>) -> bool {
    exists|d: Seq<u8>| base64_encoded(d) == text
}

/// The largest input that base64's `encode` accepts: its encoded length must fit in `usize`.
pub open spec fn base64_encodable(len: nat) -> bool {
    (len / 3) * 4 + 4 <= usize::MAX
}

/// Whether a byte string of length `len` can be base64-encoded (its encoded length fits
/// in `usize`).
pub fn base64_fits(len: usize) -> (b: bool)
    ensures
        b == base64_encodable(len as nat),
{
    let q = len / 3;
    match q.checked_mul(4) {
        Some(n) => n <= usize::MAX - 4,
        None => false,
    }
}

/// base64's `STANDARD.encode` (the standard alphabet with padding); it panics only when
/// the encoded length overflows `usize`.
#[verifier::external_body]
pub(crate) fn base64_encode(data: &[u8]) -> (res: String)
    requires
        base64_encodable(data@.len()),
    ensures
        res@ == base64_encoded(data@),
{
    base64::Engine::encode(&base64::engine::general_purpose::STANDARD, data)
}

/// base64's `STANDARD.decode`: the bytes whose encoding the text is, or a failure exactly
/// when the text is no such encoding. On failure the error's text is handed back; that
/// text is left unstated.
#[verifier::external_body]
pub(crate) fn base64_decode(text: &str) -> (res: Result<Vec<u8>, String>)
    ensures
        match res {
            Ok(v) => base64_encoded(v@) == text@,
            Err(_) => !is_base64_text(text@),
        },
{
    match base64::Engine::decode(&base64::engine::general_purpose::STANDARD, text) {
        Ok(v) => Ok(v),
        Err(e) => Err(e.to_string()),
    }
}

} // verus!
