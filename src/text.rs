//! Native text encoding: decimal numbers, flags and the check that a value
//! can be handed to the engine as a NUL-terminated string.
use vstd::prelude::*;
use vstd::string::*;

verus! {

/// The character of a decimal digit.
pub open spec fn digit_char(d: nat) -> char {
    if d == 0 {
        '0'
    } else if d == 1 {
        '1'
    } else if d == 2 {
        '2'
    } else if d == 3 {
        '3'
    } else if d == 4 {
        '4'
    } else if d == 5 {
        '5'
    } else if d == 6 {
        '6'
    } else if d == 7 {
        '7'
    } else if d == 8 {
        '8'
    } else {
        '9'
    }
}

/// The decimal representation of a natural number, without leading zeros.
pub open spec fn decimal(n: nat) -> Seq<char>
    decreases n,
{
    if n < 10 {
        seq![digit_char(n)]
    } else {
        decimal(n / 10).push(digit_char(n % 10))
    }
}

/// The decimal representation of an integer, with a leading `-` when negative.
pub open spec fn signed_decimal(n: int) -> Seq<char> {
    if n < 0 {
        seq!['-'] + decimal((-n) as nat)
    } else {
        decimal(n as nat)
    }
}

/// The engine's text for an enabled or disabled flag.
pub open spec fn flag_text(b: bool) -> Seq<char> {
    if b {
        seq!['1']
    } else {
        seq!['0']
    }
}

/// Text that the engine can take as a NUL-terminated string: it holds no NUL.
pub open spec fn is_native_text(s: Seq<char>) -> bool {
    forall|i: int| 0 <= i < s.len() ==> s[i] != '\0'
}

/// Where set, the text holds no NUL.
pub open spec fn is_native_option(v: Option<String>) -> bool {
    match v {
        Some(s) => is_native_text(s@),
        None => true,
    }
}

fn digit_str(d: u64) -> (s: &'static str)
    requires
        d < 10,
    ensures
        s@ == seq![digit_char(d as nat)],
{
    if d == 0 {
        proof { reveal_strlit("0"); }
        "0"
    } else if d == 1 {
        proof { reveal_strlit("1"); }
        "1"
    } else if d == 2 {
        proof { reveal_strlit("2"); }
        "2"
    } else if d == 3 {
        proof { reveal_strlit("3"); }
        "3"
    } else if d == 4 {
        proof { reveal_strlit("4"); }
        "4"
    } else if d == 5 {
        proof { reveal_strlit("5"); }
        "5"
    } else if d == 6 {
        proof { reveal_strlit("6"); }
        "6"
    } else if d == 7 {
        proof { reveal_strlit("7"); }
        "7"
    } else if d == 8 {
        proof { reveal_strlit("8"); }
        "8"
    } else {
        proof { reveal_strlit("9"); }
        "9"
    }
}

/// Writes `n` in decimal.
pub fn decimal_u64(n: u64) -> (s: String)
    ensures
        s@ == decimal(n as nat),
    decreases n,
{
    if n < 10 {
        String::from_str(digit_str(n))
    } else {
        let mut s = decimal_u64(n / 10);
        s.append(digit_str(n % 10));
        s
    }
}

/// Writes `n` in decimal, with a leading `-` when negative.
pub fn decimal_i64(n: i64) -> (s: String)
    ensures
        s@ == signed_decimal(n as int),
{
    if n < 0 {
        let magnitude: u64 = (-(n + 1)) as u64 + 1;
        let digits = decimal_u64(magnitude);
        let mut s = String::from_str("-");
        proof { reveal_strlit("-"); }
        s.append(digits.as_str());
        s
    } else {
        decimal_u64(n as u64)
    }
}

/// The engine's text for a flag: `1` when enabled, `0` when disabled.
pub fn flag_string(b: bool) -> (s: String)
    ensures
        s@ == flag_text(b),
{
    if b {
        proof { reveal_strlit("1"); }
        String::from_str("1")
    } else {
        proof { reveal_strlit("0"); }
        String::from_str("0")
    }
}

/// Whether `s` holds no NUL character, and so can be handed to the engine.
pub fn native_text(s: &str) -> (r: bool)
    ensures
        r == is_native_text(s@),
{
    let n = s.unicode_len();
    let mut i: usize = 0;
    while i < n
        invariant
            n == s@.len(),
            i <= n,
            forall|j: int| 0 <= j < i ==> s@[j] != '\0',
        decreases n - i,
    {
        if s.get_char(i) == '\0' {
            return false;
        }
        i = i + 1;
    }
    true
}

/// A key and its text value, as two consecutive entries of a property table;
/// nothing when the value is absent.
pub open spec fn text_entry(key: Seq<char>, value: Option<String>) -> Seq<Seq<char>> {
    match value {
        Some(v) => seq![key, v@],
        None => Seq::empty(),
    }
}

/// A key and a number written in decimal; nothing when the number is absent.
pub open spec fn number_entry(key: Seq<char>, value: Option<u64>) -> Seq<Seq<char>> {
    match value {
        Some(v) => seq![key, decimal(v as nat)],
        None => Seq::empty(),
    }
}

/// A key and a signed number written in decimal; nothing when it is absent.
pub open spec fn signed_entry(key: Seq<char>, value: Option<i64>) -> Seq<Seq<char>> {
    match value {
        Some(v) => seq![key, signed_decimal(v as int)],
        None => Seq::empty(),
    }
}

/// A key and a flag; nothing when the flag is absent.
pub open spec fn flag_entry(key: Seq<char>, value: Option<bool>) -> Seq<Seq<char>> {
    match value {
        Some(v) => seq![key, flag_text(v)],
        None => Seq::empty(),
    }
}

/// Appends a key and its value to a property table.
pub fn push_entry(table: &mut Vec<String>, key: &str, value: String)
    ensures
        final(table).deep_view() == old(table).deep_view() + seq![key@, value@],
{
    table.push(String::from_str(key));
    table.push(value);
    assert(table.deep_view() =~= old(table).deep_view() + seq![key@, value@]);
}

/// Appends a key and a copy of its text value, if there is one.
pub fn push_text(table: &mut Vec<String>, key: &str, value: &Option<String>)
    ensures
        final(table).deep_view() == old(table).deep_view() + text_entry(key@, *value),
{
    match value {
        Some(v) => push_entry(table, key, v.clone()),
        None => {
            assert(table.deep_view() =~= old(table).deep_view() + text_entry(key@, *value));
        },
    }
}

/// Appends a key and its number in decimal, if there is one.
pub fn push_number(table: &mut Vec<String>, key: &str, value: Option<u64>)
    ensures
        final(table).deep_view() == old(table).deep_view() + number_entry(key@, value),
{
    match value {
        Some(v) => push_entry(table, key, decimal_u64(v)),
        None => {
            assert(table.deep_view() =~= old(table).deep_view() + number_entry(key@, value));
        },
    }
}

/// Appends a key and its signed number in decimal, if there is one.
pub fn push_signed(table: &mut Vec<String>, key: &str, value: Option<i64>)
    ensures
        final(table).deep_view() == old(table).deep_view() + signed_entry(key@, value),
{
    match value {
        Some(v) => push_entry(table, key, decimal_i64(v)),
        None => {
            assert(table.deep_view() =~= old(table).deep_view() + signed_entry(key@, value));
        },
    }
}

/// Appends a key and its flag, if there is one.
pub fn push_flag(table: &mut Vec<String>, key: &str, value: Option<bool>)
    ensures
        final(table).deep_view() == old(table).deep_view() + flag_entry(key@, value),
{
    match value {
        Some(v) => push_entry(table, key, flag_string(v)),
        None => {
            assert(table.deep_view() =~= old(table).deep_view() + flag_entry(key@, value));
        },
    }
}

/// Appends all entries of another table.
pub fn append_table(table: &mut Vec<String>, other: Vec<String>)
    ensures
        final(table).deep_view() == old(table).deep_view() + other.deep_view(),
{
    let mut other = other;
    let ghost rest = other.deep_view();
    table.append(&mut other);
    assert(table.deep_view() =~= old(table).deep_view() + rest);
}

/// Whether an optional text, where set, holds no NUL.
pub fn native_option(v: &Option<String>) -> (r: bool)
    ensures
        r == is_native_option(*v),
{
    match v {
        Some(s) => native_text(s.as_str()),
        None => true,
    }
}

} // verus!
