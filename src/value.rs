//! The field types that a value can be read into, and how each reads text.
use vstd::prelude::*;
use crate::number::{parse_decimal, parse_int};
use crate::number::{decimal_text, lemma_decimal_round_trip};
use crate::text::{has_no_comma, same_text};

verus! {

/// A type that a field read from the environment can have.
///
/// `model` is the mathematical value of an instance; `parse_spec` is the value
/// that a text denotes, if any, as Rust's `FromStr` for the type reads it.
pub trait EnvValue: Sized {
    type Model;

    spec fn model(&self) -> Self::Model;

    spec fn parse_spec(s: Seq<char>) -> Option<Self::Model>;

    /// The value of `Default::default()` for the type.
    spec fn zero_model() -> Self::Model;

    /// Whether the type is an integer type; in a list read with defaults an
    /// empty piece then stands for zero.
    spec fn is_integer() -> bool;

    /// The text that `Display` writes for a value.
    spec fn text_of(m: Self::Model) -> Seq<char>;

    /// A value's text reads back as the value; an integer's text is not
    /// empty and holds no comma.
    proof fn lemma_text_round_trip(x: &Self)
        ensures
            Self::parse_spec(Self::text_of(x.model())) == Some(x.model()),
            Self::is_integer() ==> Self::text_of(x.model()).len() > 0,
            Self::is_integer() ==> has_no_comma(Self::text_of(x.model())),
    ;

    /// The empty text reads as the zero value, or not at all.
    proof fn lemma_empty_text()
        ensures
            match Self::parse_spec(Seq::empty()) {
                Some(m) => m == Self::zero_model(),
                None => true,
            },
    ;

    fn parse_text(s: &str) -> (r: Option<Self>)
        ensures
            match r {
                Some(v) => Self::parse_spec(s@) == Some(v.model()),
                None => Self::parse_spec(s@) is None,
            },
    ;

    fn zero() -> (r: Self)
        ensures
            r.model() == Self::zero_model(),
    ;

    fn integer_type() -> (r: bool)
        ensures
            r == Self::is_integer(),
    ;
}

impl EnvValue for String {
    type Model = Seq<char>;

    open spec fn model(&self) -> Seq<char> {
        self@
    }

    open spec fn parse_spec(s: Seq<char>) -> Option<Seq<char>> {
        Some(s)
    }

    open spec fn zero_model() -> Seq<char> {
        Seq::empty()
    }

    open spec fn is_integer() -> bool {
        false
    }

    open spec fn text_of(m: Seq<char>) -> Seq<char> {
        m
    }

    proof fn lemma_text_round_trip(x: &String) {
    }

    proof fn lemma_empty_text() {
    }

    fn parse_text(s: &str) -> (r: Option<String>) {
        Some(String::from_str(s))
    }

    fn zero() -> (r: String) {
        String::new()
    }

    fn integer_type() -> (r: bool) {
        false
    }
}

/// The value of a boolean text: exactly `true` or `false`.
pub open spec fn bool_value(s: Seq<char>) -> Option<bool> {
    if s == "true"@ {
        Some(true)
    } else if s == "false"@ {
        Some(false)
    } else {
        None
    }
}

impl EnvValue for bool {
    type Model = bool;

    open spec fn model(&self) -> bool {
        *self
    }

    open spec fn parse_spec(s: Seq<char>) -> Option<bool> {
        bool_value(s)
    }

    open spec fn zero_model() -> bool {
        false
    }

    open spec fn is_integer() -> bool {
        false
    }

    open spec fn text_of(m: bool) -> Seq<char> {
        if m { "true"@ } else { "false"@ }
    }

    proof fn lemma_text_round_trip(x: &bool) {
        reveal_strlit("true");
        reveal_strlit("false");
        assert("true"@ != "false"@) by { assert("true"@.len() != "false"@.len()); }
    }

    proof fn lemma_empty_text() {
        reveal_strlit("true");
        reveal_strlit("false");
        assert(Seq::<char>::empty() != "true"@) by { assert("true"@.len() != 0); }
        assert(Seq::<char>::empty() != "false"@) by { assert("false"@.len() != 0); }
    }

    fn parse_text(s: &str) -> (r: Option<bool>) {
        if same_text(s, "true") {
            Some(true)
        } else if same_text(s, "false") {
            Some(false)
        } else {
            None
        }
    }

    fn zero() -> (r: bool) {
        false
    }

    fn integer_type() -> (r: bool) {
        false
    }
}

impl EnvValue for u8 {
    type Model = int;

    open spec fn model(&self) -> int {
        *self as int
    }

    open spec fn parse_spec(s: Seq<char>) -> Option<int> {
        parse_int(s, false, 0, 255)
    }

    open spec fn zero_model() -> int {
        0
    }

    open spec fn is_integer() -> bool {
        true
    }

    open spec fn text_of(m: int) -> Seq<char> {
        decimal_text(m)
    }

    proof fn lemma_text_round_trip(x: &u8) {
        lemma_decimal_round_trip(*x as int, false);
    }

    proof fn lemma_empty_text() {
    }

    fn parse_text(s: &str) -> (r: Option<u8>) {
        match parse_decimal(s, false, 255, 0) {
            Some((_, m)) => Some(m as u8),
            None => None,
        }
    }

    fn zero() -> (r: u8) {
        0
    }

    fn integer_type() -> (r: bool) {
        true
    }
}

impl EnvValue for u16 {
    type Model = int;

    open spec fn model(&self) -> int {
        *self as int
    }

    open spec fn parse_spec(s: Seq<char>) -> Option<int> {
        parse_int(s, false, 0, 65535)
    }

    open spec fn zero_model() -> int {
        0
    }

    open spec fn is_integer() -> bool {
        true
    }

    open spec fn text_of(m: int) -> Seq<char> {
        decimal_text(m)
    }

    proof fn lemma_text_round_trip(x: &u16) {
        lemma_decimal_round_trip(*x as int, false);
    }

    proof fn lemma_empty_text() {
    }

    fn parse_text(s: &str) -> (r: Option<u16>) {
        match parse_decimal(s, false, 65535, 0) {
            Some((_, m)) => Some(m as u16),
            None => None,
        }
    }

    fn zero() -> (r: u16) {
        0
    }

    fn integer_type() -> (r: bool) {
        true
    }
}

impl EnvValue for u32 {
    type Model = int;

    open spec fn model(&self) -> int {
        *self as int
    }

    open spec fn parse_spec(s: Seq<char>) -> Option<int> {
        parse_int(s, false, 0, 4294967295)
    }

    open spec fn zero_model() -> int {
        0
    }

    open spec fn is_integer() -> bool {
        true
    }

    open spec fn text_of(m: int) -> Seq<char> {
        decimal_text(m)
    }

    proof fn lemma_text_round_trip(x: &u32) {
        lemma_decimal_round_trip(*x as int, false);
    }

    proof fn lemma_empty_text() {
    }

    fn parse_text(s: &str) -> (r: Option<u32>) {
        match parse_decimal(s, false, 4294967295, 0) {
            Some((_, m)) => Some(m as u32),
            None => None,
        }
    }

    fn zero() -> (r: u32) {
        0
    }

    fn integer_type() -> (r: bool) {
        true
    }
}

impl EnvValue for u64 {
    type Model = int;

    open spec fn model(&self) -> int {
        *self as int
    }

    open spec fn parse_spec(s: Seq<char>) -> Option<int> {
        parse_int(s, false, 0, 18446744073709551615)
    }

    open spec fn zero_model() -> int {
        0
    }

    open spec fn is_integer() -> bool {
        true
    }

    open spec fn text_of(m: int) -> Seq<char> {
        decimal_text(m)
    }

    proof fn lemma_text_round_trip(x: &u64) {
        lemma_decimal_round_trip(*x as int, false);
    }

    proof fn lemma_empty_text() {
    }

    fn parse_text(s: &str) -> (r: Option<u64>) {
        match parse_decimal(s, false, 18446744073709551615, 0) {
            Some((_, m)) => Some(m as u64),
            None => None,
        }
    }

    fn zero() -> (r: u64) {
        0
    }

    fn integer_type() -> (r: bool) {
        true
    }
}

impl EnvValue for u128 {
    type Model = int;

    open spec fn model(&self) -> int {
        *self as int
    }

    open spec fn parse_spec(s: Seq<char>) -> Option<int> {
        parse_int(s, false, 0, 340282366920938463463374607431768211455)
    }

    open spec fn zero_model() -> int {
        0
    }

    open spec fn is_integer() -> bool {
        true
    }

    open spec fn text_of(m: int) -> Seq<char> {
        decimal_text(m)
    }

    proof fn lemma_text_round_trip(x: &u128) {
        lemma_decimal_round_trip(*x as int, false);
    }

    proof fn lemma_empty_text() {
    }

    fn parse_text(s: &str) -> (r: Option<u128>) {
        match parse_decimal(s, false, 340282366920938463463374607431768211455, 0) {
            Some((_, m)) => Some(m as u128),
            None => None,
        }
    }

    fn zero() -> (r: u128) {
        0
    }

    fn integer_type() -> (r: bool) {
        true
    }
}

impl EnvValue for i8 {
    type Model = int;

    open spec fn model(&self) -> int {
        *self as int
    }

    open spec fn parse_spec(s: Seq<char>) -> Option<int> {
        parse_int(s, true, -128, 127)
    }

    open spec fn zero_model() -> int {
        0
    }

    open spec fn is_integer() -> bool {
        true
    }

    open spec fn text_of(m: int) -> Seq<char> {
        decimal_text(m)
    }

    proof fn lemma_text_round_trip(x: &i8) {
        lemma_decimal_round_trip(*x as int, true);
    }

    proof fn lemma_empty_text() {
    }

    fn parse_text(s: &str) -> (r: Option<i8>) {
        match parse_decimal(s, true, 127, 128) {
            Some((neg, m)) => {
                let v: i128 = if neg && m > 0 { 0 - ((m - 1) as i128) - 1 } else { m as i128 };
                Some(v as i8)
            },
            None => None,
        }
    }

    fn zero() -> (r: i8) {
        0
    }

    fn integer_type() -> (r: bool) {
        true
    }
}

impl EnvValue for i16 {
    type Model = int;

    open spec fn model(&self) -> int {
        *self as int
    }

    open spec fn parse_spec(s: Seq<char>) -> Option<int> {
        parse_int(s, true, -32768, 32767)
    }

    open spec fn zero_model() -> int {
        0
    }

    open spec fn is_integer() -> bool {
        true
    }

    open spec fn text_of(m: int) -> Seq<char> {
        decimal_text(m)
    }

    proof fn lemma_text_round_trip(x: &i16) {
        lemma_decimal_round_trip(*x as int, true);
    }

    proof fn lemma_empty_text() {
    }

    fn parse_text(s: &str) -> (r: Option<i16>) {
        match parse_decimal(s, true, 32767, 32768) {
            Some((neg, m)) => {
                let v: i128 = if neg && m > 0 { 0 - ((m - 1) as i128) - 1 } else { m as i128 };
                Some(v as i16)
            },
            None => None,
        }
    }

    fn zero() -> (r: i16) {
        0
    }

    fn integer_type() -> (r: bool) {
        true
    }
}

impl EnvValue for i32 {
    type Model = int;

    open spec fn model(&self) -> int {
        *self as int
    }

    open spec fn parse_spec(s: Seq<char>) -> Option<int> {
        parse_int(s, true, -2147483648, 2147483647)
    }

    open spec fn zero_model() -> int {
        0
    }

    open spec fn is_integer() -> bool {
        true
    }

    open spec fn text_of(m: int) -> Seq<char> {
        decimal_text(m)
    }

    proof fn lemma_text_round_trip(x: &i32) {
        lemma_decimal_round_trip(*x as int, true);
    }

    proof fn lemma_empty_text() {
    }

    fn parse_text(s: &str) -> (r: Option<i32>) {
        match parse_decimal(s, true, 2147483647, 2147483648) {
            Some((neg, m)) => {
                let v: i128 = if neg && m > 0 { 0 - ((m - 1) as i128) - 1 } else { m as i128 };
                Some(v as i32)
            },
            None => None,
        }
    }

    fn zero() -> (r: i32) {
        0
    }

    fn integer_type() -> (r: bool) {
        true
    }
}

impl EnvValue for i64 {
    type Model = int;

    open spec fn model(&self) -> int {
        *self as int
    }

    open spec fn parse_spec(s: Seq<char>) -> Option<int> {
        parse_int(s, true, -9223372036854775808, 9223372036854775807)
    }

    open spec fn zero_model() -> int {
        0
    }

    open spec fn is_integer() -> bool {
        true
    }

    open spec fn text_of(m: int) -> Seq<char> {
        decimal_text(m)
    }

    proof fn lemma_text_round_trip(x: &i64) {
        lemma_decimal_round_trip(*x as int, true);
    }

    proof fn lemma_empty_text() {
    }

    fn parse_text(s: &str) -> (r: Option<i64>) {
        match parse_decimal(s, true, 9223372036854775807, 9223372036854775808) {
            Some((neg, m)) => {
                let v: i128 = if neg && m > 0 { 0 - ((m - 1) as i128) - 1 } else { m as i128 };
                Some(v as i64)
            },
            None => None,
        }
    }

    fn zero() -> (r: i64) {
        0
    }

    fn integer_type() -> (r: bool) {
        true
    }
}

impl EnvValue for i128 {
    type Model = int;

    open spec fn model(&self) -> int {
        *self as int
    }

    open spec fn parse_spec(s: Seq<char>) -> Option<int> {
        parse_int(s, true, -170141183460469231731687303715884105728, 170141183460469231731687303715884105727)
    }

    open spec fn zero_model() -> int {
        0
    }

    open spec fn is_integer() -> bool {
        true
    }

    open spec fn text_of(m: int) -> Seq<char> {
        decimal_text(m)
    }

    proof fn lemma_text_round_trip(x: &i128) {
        lemma_decimal_round_trip(*x as int, true);
    }

    proof fn lemma_empty_text() {
    }

    fn parse_text(s: &str) -> (r: Option<i128>) {
        match parse_decimal(s, true, 170141183460469231731687303715884105727, 170141183460469231731687303715884105728) {
            Some((neg, m)) => {
                let v: i128 = if neg && m > 0 { 0 - ((m - 1) as i128) - 1 } else { m as i128 };
                Some(v as i128)
            },
            None => None,
        }
    }

    fn zero() -> (r: i128) {
        0
    }

    fn integer_type() -> (r: bool) {
        true
    }
}

} // verus!
