//! Values: a string payload with typed text helpers.
//!
//! Integers are stored as their decimal text; the soft accessor
//! `int_value` gives `None` on text that is not a decimal `i32`.
use vstd::prelude::*;
use core::cmp::Ordering;
use vstd::string::StringExecFns;
use crate::error::QuickError;
use crate::key::{compare_text, str_cmp};

verus! {

pub open spec fn digit_char(d: int) -> char {
    (d + '0' as int) as char
}

pub open spec fn is_digit(c: char) -> bool {
    '0' <= c && c <= '9'
}

pub open spec fn digit_value(c: char) -> int {
    c as int - '0' as int
}

/// Decimal digits of a natural number, without leading zeros.
pub open spec fn nat_text(n: nat) -> Seq<char>
    decreases n,
{
    if n < 10 {
        seq![digit_char(n as int)]
    } else {
        nat_text(n / 10).push(digit_char((n % 10) as int))
    }
}

/// Decimal text of an integer: a `-` before negative numbers.
pub open spec fn int_text(v: int) -> Seq<char> {
    if v < 0 {
        seq!['-'] + nat_text((-v) as nat)
    } else {
        nat_text(v as nat)
    }
}

/// The number that a run of digits writes.
pub open spec fn digits_value(s: Seq<char>) -> int
    decreases s.len(),
{
    if s.len() == 0 {
        0
    } else {
        digits_value(s.drop_last()) * 10 + digit_value(s.last())
    }
}

pub open spec fn all_digits(s: Seq<char>) -> bool {
    forall|i: int| 0 <= i < s.len() ==> is_digit(#[trigger] s[i])
}

/// An `i32` read from text: an optional `+` or `-`, then one or more digits,
/// nothing else, and a value in range.
pub open spec fn parse_i32(s: Seq<char>) -> Option<i32> {
    let neg = s.len() > 0 && s[0] == '-';
    let digits = if s.len() > 0 && (s[0] == '-' || s[0] == '+') {
        s.skip(1)
    } else {
        s
    };
    let v = if neg {
        -digits_value(digits)
    } else {
        digits_value(digits)
    };
    if digits.len() > 0 && all_digits(digits) && i32::MIN <= v <= i32::MAX {
        Some(v as i32)
    } else {
        None
    }
}

/// Relies on i32's `to_string` (its `Display`): the decimal text of the
/// number, with a leading `-` for negative numbers.
#[verifier::external_body]
fn i32_to_text(v: i32) -> (r: String)
    ensures
        r@ == int_text(v as int),
{
    v.to_string()
}

/// Relies on `str::parse::<i32>` (`i32::from_str`): an optional sign followed
/// by decimal digits, in range; any other text is an error.
#[verifier::external_body]
fn text_to_i32(s: &str) -> (r: Option<i32>)
    ensures
        r == parse_i32(s@),
{
    s.parse::<i32>().ok()
}

#[derive(Debug, Clone, PartialEq, Eq, Hash)]
pub struct QuickCodable {
    pub json: String,
}

/// The explanation of a failed typed decode: the stored text and the
/// parser's own words.
pub open spec fn decode_failure_text(json: Seq<char>, detail: Seq<char>) -> Seq<char> {
    "Error decoding "@ + json + " into data: "@ + detail
}

/// The explanation of a failed encode.
pub open spec fn encode_failure_text(detail: Seq<char>) -> Seq<char> {
    "Failed to jsonify: "@ + detail
}

impl QuickCodable {
    pub fn new(json: String) -> (r: QuickCodable)
        ensures
            r.json@ == json@,
    {
        QuickCodable { json }
    }

    /// The error for stored text that does not decode into the requested
    /// type; `detail` is the parser's message.
    pub fn decode_failure(&self, detail: &str) -> (r: QuickError)
        ensures
            r.is_message(decode_failure_text(self.json@, detail@)),
    {
        let mut m = String::from_str("Error decoding ");
        m.append(self.json.as_str());
        m.append(" into data: ");
        m.append(detail);
        QuickError::Message(m)
    }

    /// The error for a value that does not encode; `detail` is the encoder's
    /// message.
    pub fn encode_failure(detail: &str) -> (r: QuickError)
        ensures
            r.is_message(encode_failure_text(detail@)),
    {
        let mut m = String::from_str("Failed to jsonify: ");
        m.append(detail);
        QuickError::Message(m)
    }
}

#[derive(Debug, Clone, PartialEq, Eq, Hash)]
pub struct QuickValue {
    pub codable: QuickCodable,
}

impl View for QuickValue {
    type V = Seq<char>;

    /// The stored text.
    open spec fn view(&self) -> Seq<char> {
        self.codable.json@
    }
}

impl QuickValue {
    pub fn new_string(value: String) -> (r: QuickValue)
        ensures
            r@ == value@,
    {
        QuickValue { codable: QuickCodable::new(value) }
    }

    pub fn new_int(value: i32) -> (r: QuickValue)
        ensures
            r@ == int_text(value as int),
    {
        QuickValue { codable: QuickCodable::new(i32_to_text(value)) }
    }

    pub fn new_codable(codable: QuickCodable) -> (r: QuickValue)
        ensures
            r.codable == codable,
    {
        QuickValue { codable }
    }

    /// The stored text read as an `i32`, or `None` where it is not one.
    pub fn int_value(&self) -> (r: Option<i32>)
        ensures
            r == parse_i32(self@),
    {
        text_to_i32(self.codable.json.as_str())
    }

    /// Values order by their stored text.
    pub fn compare(&self, other: &QuickValue) -> (r: Ordering)
        ensures
            r == str_cmp(self@, other@),
    {
        compare_text(&self.codable.json, &other.codable.json)
    }

    pub fn string_value(&self) -> (r: String)
        ensures
            r@ == self@,
    {
        self.codable.json.clone()
    }
}

proof fn lemma_nat_text_digits(n: nat)
    ensures
        nat_text(n).len() > 0,
        all_digits(nat_text(n)),
        digits_value(nat_text(n)) == n,
    decreases n,
{
    if n >= 10 {
        lemma_nat_text_digits(n / 10);
        let s = nat_text(n);
        assert(s.drop_last() == nat_text(n / 10));
        assert(digit_value(s.last()) == n % 10);
        assert((n / 10) * 10 + n % 10 == n) by (nonlinear_arith);
        assert(digits_value(s) == digits_value(s.drop_last()) * 10 + digit_value(s.last()));
        assert forall|i: int| 0 <= i < s.len() implies is_digit(#[trigger] s[i]) by {
            if i < s.len() - 1 {
                assert(s[i] == nat_text(n / 10)[i]);
            }
        }
    } else {
        let s = nat_text(n);
        assert(s.drop_last() =~= Seq::<char>::empty());
        assert(digit_value(s.last()) == n);
        assert(digits_value(s.drop_last()) == 0);
        assert(digits_value(s) == n);
    }
}

/// Storing an integer and reading it back gives the integer.
pub proof fn lemma_int_round_trip(v: i32)
    ensures
        parse_i32(int_text(v as int)) == Some(v),
{
    let s = int_text(v as int);
    if v < 0 {
        let m = (-(v as int)) as nat;
        lemma_nat_text_digits(m);
        assert(s.skip(1) =~= nat_text(m));
    } else {
        lemma_nat_text_digits(v as nat);
        assert(nat_text(v as nat)[0] != '-' && nat_text(v as nat)[0] != '+') by {
            assert(is_digit(nat_text(v as nat)[0]));
        }
    }
}

/// Storing a string and reading it back gives the string.
pub proof fn lemma_string_round_trip(s: String)
    ensures
        ({
            let v = QuickValue { codable: QuickCodable { json: s } };
            v@ == s@
        }),
{
}

/// Text without a digit never reads as an integer.
pub proof fn lemma_no_digit_no_int(s: Seq<char>)
    requires
        forall|i: int| 0 <= i < s.len() ==> !is_digit(#[trigger] s[i]),
    ensures
        parse_i32(s) is None,
{
    if s.len() > 1 && (s[0] == '-' || s[0] == '+') {
        assert(!is_digit(s.skip(1)[0]));
    } else if s.len() > 0 && (s[0] != '-' && s[0] != '+') {
        assert(!is_digit(s[0]));
    }
}

} // verus!
