//! A plain model of JSON values (what the logic reads of them) and the JSON text of
//! string lists.
use vstd::prelude::*;
use crate::text::str_eq;

verus! {

/// A JSON number as the logic reads it: its value as an `i64` where it has one, and the
/// bit pattern of its value as an `f64`, which every JSON number has.
#[derive(Debug, Clone, Copy, PartialEq, Eq)]
pub struct JsonNumber {
    pub as_i64: Option<i64>,
    pub f64_bits: u64,
}

/// 2 to the power `e`.
pub open spec fn two_pow(e: nat) -> nat
    decreases e,
{
    if e == 0 {
        1
    } else {
        2 * two_pow((e - 1) as nat)
    }
}

/// The position of the highest set bit of a positive integer.
pub open spec fn top_bit(m: nat) -> nat
    decreases m,
{
    if m <= 1 {
        0
    } else {
        1 + top_bit(m / 2)
    }
}

/// The bit pattern of the `f64` whose value is the integer `n`, for `|n| < 2^53` (where the
/// value is exact): the sign bit, the biased exponent 1023 + e for the top bit e of `|n|`,
/// and the bits of `|n|` below its top bit as the high bits of the 52-bit fraction.
pub open spec fn int_f64_bits(n: int) -> int {
    if n == 0 {
        0
    } else {
        let m: nat = if n < 0 { (-n) as nat } else { n as nat };
        let e = top_bit(m);
        (if n < 0 { two_pow(63) } else { 0 }) + (1023 + e) * two_pow(52) + (m - two_pow(e)) * two_pow(
            (52 - e) as nat,
        )
    }
}

proof fn lemma_two_pow_values()
    ensures
        two_pow(31) == 0x8000_0000,
        two_pow(51) == 0x8_0000_0000_0000,
        two_pow(52) == 0x10_0000_0000_0000,
        two_pow(63) == 0x8000_0000_0000_0000,
{
    reveal_with_fuel(two_pow, 64);
}

proof fn lemma_two_pow_mono(a: nat, b: nat)
    requires
        a <= b,
    ensures
        1 <= two_pow(a) <= two_pow(b),
    decreases b,
{
    if a < b {
        lemma_two_pow_mono(a, (b - 1) as nat);
    } else {
        lemma_two_pow_pos(a);
    }
}

proof fn lemma_two_pow_pos(e: nat)
    ensures
        two_pow(e) >= 1,
    decreases e,
{
    if e > 0 {
        lemma_two_pow_pos((e - 1) as nat);
    }
}

proof fn lemma_two_pow_add(a: nat, b: nat)
    ensures
        two_pow(a + b) == two_pow(a) * two_pow(b),
    decreases b,
{
    if b == 0 {
        assert(two_pow(0) == 1);
        assert(a + b == a);
    } else {
        let c: nat = (b - 1) as nat;
        lemma_two_pow_add(a, c);
        let x = two_pow(a);
        let y = two_pow(c);
        assert(two_pow(b) == 2 * y);
        assert(a + b == (a + c) + 1);
        assert(two_pow(a + b) == 2 * two_pow(a + c));
        assert(x * (2 * y) == 2 * (x * y)) by (nonlinear_arith);
    }
}

proof fn lemma_top_bit(m: nat, e: nat)
    requires
        two_pow(e) <= m < 2 * two_pow(e),
    ensures
        top_bit(m) == e,
    decreases e,
{
    if e > 0 {
        lemma_top_bit(m / 2, (e - 1) as nat);
    }
}

/// The bit pattern of the `f64` whose value is `n`.
pub fn i32_f64_bits(n: i32) -> (b: u64)
    ensures
        b == int_f64_bits(n as int),
{
    if n == 0 {
        return 0;
    }
    let m: u64 = if n < 0 {
        (-(n as i64)) as u64
    } else {
        n as u64
    };
    proof {
        lemma_two_pow_values();
    }
    let mut e: u64 = 0;
    let mut p: u64 = 1;
    while p <= m / 2
        invariant
            1 <= m <= 0x8000_0000,
            p == two_pow(e as nat),
            1 <= p <= m,
            e <= 31,
            two_pow(31) == 0x8000_0000,
        decreases m - p,
    {
        if e == 31 {
            assert(false);
        }
        p = p * 2;
        e = e + 1;
    }
    proof {
        lemma_top_bit(m as nat, e as nat);
        lemma_two_pow_add(e as nat, (52 - e) as nat);
        lemma_two_pow_values();
    }
    let mut q: u64 = 1;
    let mut k: u64 = 0;
    while k < 52 - e
        invariant
            e <= 31,
            k <= 52 - e,
            q == two_pow(k as nat),
            q >= 1,
            two_pow(51) == 0x8_0000_0000_0000,
        decreases 52 - e - k,
    {
        proof {
            lemma_two_pow_mono(k as nat, 51);
        }
        q = q * 2;
        k = k + 1;
    }
    let low: u64 = m - p;
    assert(low * q < 0x10_0000_0000_0000) by (nonlinear_arith)
        requires
            low < p,
            p * q == 0x10_0000_0000_0000,
            q >= 1,
    ;
    let mant: u64 = low * q;
    let exp: u64 = (1023 + e) * 0x10_0000_0000_0000;
    let sign: u64 = if n < 0 {
        0x8000_0000_0000_0000
    } else {
        0
    };
    sign + exp + mant
}

/// A JSON value. Object members keep their order; a key is looked up at its first
/// occurrence.
#[derive(Debug, PartialEq)]
pub enum JsonValue {
    Null,
    Bool(bool),
    Number(JsonNumber),
    Str(String),
    Array(Vec<JsonValue>),
    Object(Vec<(String, JsonValue)>),
}

/// The value of the first member named `key`.
pub open spec fn members_get(m: Seq<(String, JsonValue)>, key: Seq<char>) -> Option<JsonValue>
    decreases m.len(),
{
    if m.len() == 0 {
        None
    } else if m[0].0@ == key {
        Some(m[0].1)
    } else {
        members_get(m.skip(1), key)
    }
}

impl JsonValue {
    /// The member `key` of an object; nothing for other values.
    pub open spec fn get_spec(self, key: Seq<char>) -> Option<JsonValue> {
        match self {
            JsonValue::Object(m) => members_get(m@, key),
            _ => None,
        }
    }

    /// The text of a JSON string, if the value is one.
    pub open spec fn str_spec(self) -> Option<Seq<char>> {
        match self {
            JsonValue::Str(s) => Some(s@),
            _ => None,
        }
    }

    /// The member `key` of an object (serde_json's `Value::get` with a string key).
    pub fn get<'a>(&'a self, key: &str) -> (res: Option<&'a JsonValue>)
        ensures
            match res {
                Some(v) => self.get_spec(key@) == Some(*v),
                None => self.get_spec(key@) is None,
            },
    {
        match self {
            JsonValue::Object(m) => {
                let mut i: usize = 0;
                assert(m@.skip(0) =~= m@);
                assert(self.get_spec(key@) == members_get(m@, key@));
                while i < m.len()
                    invariant
                        i <= m.len(),
                        self.get_spec(key@) == members_get(m@, key@),
                        members_get(m@, key@) == members_get(m@.skip(i as int), key@),
                    decreases m.len() - i,
                {
                    assert(m@.skip(i as int).skip(1) =~= m@.skip(i + 1));
                    assert(m@.skip(i as int)[0] == m@[i as int]);
                    if str_eq(m[i].0.as_str(), key) {
                        assert(members_get(m@.skip(i as int), key@) == Some(m@[i as int].1));
                        let r = &m[i].1;
                        assert(*r == m@[i as int].1);
                        return Some(r);
                    }
                    i = i + 1;
                }
                None
            },
            _ => None,
        }
    }

    /// The string a value holds (serde_json's `Value::as_str`).
    pub fn as_str<'a>(&'a self) -> (res: Option<&'a String>)
        ensures
            match res {
                Some(s) => self.str_spec() == Some(s@),
                None => self.str_spec() is None,
            },
    {
        match self {
            JsonValue::Str(s) => Some(s),
            _ => None,
        }
    }

    /// The elements of an array (serde_json's `Value::as_array`).
    pub fn as_array<'a>(&'a self) -> (res: Option<&'a Vec<JsonValue>>)
        ensures
            match res {
                Some(a) => self == JsonValue::Array(*a),
                None => !(self is Array),
            },
    {
        match self {
            JsonValue::Array(a) => Some(a),
            _ => None,
        }
    }

    /// The value of a boolean (serde_json's `Value::as_bool`).
    pub fn as_bool(&self) -> (res: Option<bool>)
        ensures
            res == (match self {
                JsonValue::Bool(b) => Some(*b),
                _ => None::<bool>,
            }),
    {
        match self {
            JsonValue::Bool(b) => Some(*b),
            _ => None,
        }
    }

    /// The value of a number as an `i64`, where it has one (serde_json's `Value::as_i64`).
    pub fn as_i64(&self) -> (res: Option<i64>)
        ensures
            res == (match self {
                JsonValue::Number(n) => n.as_i64,
                _ => None::<i64>,
            }),
    {
        match self {
            JsonValue::Number(n) => n.as_i64,
            _ => None,
        }
    }

    /// The bit pattern of a number's `f64` value (serde_json's `Value::as_f64`).
    pub fn as_f64_bits(&self) -> (res: Option<u64>)
        ensures
            res == (match self {
                JsonValue::Number(n) => Some(n.f64_bits),
                _ => None::<u64>,
            }),
    {
        match self {
            JsonValue::Number(n) => Some(n.f64_bits),
            _ => None,
        }
    }
}

/// The lowercase hexadecimal digit for `d < 16`.
pub open spec fn hex_digit(d: nat) -> char {
    if d < 10 {
        ((48 + d) as u8) as char
    } else {
        ((87 + d) as u8) as char
    }
}

/// How one character is written inside a JSON string: quote, backslash and the
/// control characters are escaped, everything else stands as it is.
pub open spec fn json_escape_char(c: char) -> Seq<char> {
    if c == '"' {
        seq!['\\', '"']
    } else if c == '\\' {
        seq!['\\', '\\']
    } else if c == '\u{8}' {
        seq!['\\', 'b']
    } else if c == '\t' {
        seq!['\\', 't']
    } else if c == '\n' {
        seq!['\\', 'n']
    } else if c == '\u{c}' {
        seq!['\\', 'f']
    } else if c == '\r' {
        seq!['\\', 'r']
    } else if (c as u32) < 0x20 {
        seq!['\\', 'u', '0', '0', hex_digit((c as u32 / 16) as nat), hex_digit((c as u32 % 16) as nat)]
    } else {
        seq![c]
    }
}

/// The escaped characters of a string.
pub open spec fn json_escape(s: Seq<char>) -> Seq<char>
    decreases s.len(),
{
    if s.len() == 0 {
        Seq::empty()
    } else {
        json_escape(s.drop_last()) + json_escape_char(s.last())
    }
}

/// A string written as a JSON string literal.
pub open spec fn json_string_literal(s: Seq<char>) -> Seq<char> {
    seq!['"'] + json_escape(s) + seq!['"']
}

/// The literals of `items`, separated by commas.
pub open spec fn json_items(items: Seq<Seq<char>>) -> Seq<char>
    decreases items.len(),
{
    if items.len() == 0 {
        Seq::empty()
    } else if items.len() == 1 {
        json_string_literal(items[0])
    } else {
        json_items(items.drop_last()) + seq![','] + json_string_literal(items.last())
    }
}

/// A list of strings written as compact JSON: `["a","b"]`.
pub open spec fn json_string_array(items: Seq<Seq<char>>) -> Seq<char> {
    seq!['['] + json_items(items) + seq![']']
}

/// The character views of a list of strings.
pub open spec fn views(v: Seq<String>) -> Seq<Seq<char>> {
    v.map_values(|s: String| s@)
}

/// A list of strings written as compact JSON (serde_json's `to_string` on `Vec<String>`,
/// which cannot fail for such a value). The contract states serde_json's escaping rules.
#[verifier::external_body]
pub(crate) fn strings_to_json(items: &Vec<String>) -> (res: String)
    ensures
        res@ == json_string_array(views(items@)),
{
    serde_json::to_string(items).unwrap_or_default()
}

} // verus!
