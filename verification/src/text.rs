//! Characters and decimal numerals: the classes of characters that the lexer
//! tells apart, and the decimal notation of integers.

use vstd::prelude::*;
use vstd::string::StringExecFns;

verus! {

/// `String::push` appends one character at the end of the string and leaves
/// the characters before it as they were. Verus takes this on trust from the
/// documentation of the standard library.
pub assume_specification[ std::string::String::push ](s: &mut std::string::String, c: char)
    ensures
        final(s)@ == old(s)@.push(c),
;

/// White space: the characters with the Unicode property `White_Space`.
pub open spec fn is_space(c: char) -> bool {
    let u = c as u32;
    ||| 0x09 <= u <= 0x0D
    ||| u == 0x20
    ||| u == 0x85
    ||| u == 0xA0
    ||| u == 0x1680
    ||| 0x2000 <= u <= 0x200A
    ||| u == 0x2028
    ||| u == 0x2029
    ||| u == 0x202F
    ||| u == 0x205F
    ||| u == 0x3000
}

/// A letter of the ASCII alphabet.
pub open spec fn is_letter(c: char) -> bool {
    ('a' <= c && c <= 'z') || ('A' <= c && c <= 'Z')
}

/// A decimal digit.
pub open spec fn is_digit(c: char) -> bool {
    '0' <= c && c <= '9'
}

/// A character that may continue an identifier: a letter, a digit or `_`.
pub open spec fn is_word(c: char) -> bool {
    is_letter(c) || is_digit(c) || c == '_'
}

/// Whether a character is white space.
pub fn char_is_space(c: char) -> (r: bool)
    ensures
        r == is_space(c),
{
    let u: u32 = c as u32;
    (0x09 <= u && u <= 0x0D) || u == 0x20 || u == 0x85 || u == 0xA0 || u == 0x1680 || (0x2000 <= u
        && u <= 0x200A) || u == 0x2028 || u == 0x2029 || u == 0x202F || u == 0x205F || u == 0x3000
}

/// Whether a character is a letter of the ASCII alphabet.
pub fn char_is_letter(c: char) -> (r: bool)
    ensures
        r == is_letter(c),
{
    ('a' <= c && c <= 'z') || ('A' <= c && c <= 'Z')
}

/// Whether a character is a decimal digit.
pub fn char_is_digit(c: char) -> (r: bool)
    ensures
        r == is_digit(c),
{
    '0' <= c && c <= '9'
}

/// Whether a character may continue an identifier.
pub fn char_is_word(c: char) -> (r: bool)
    ensures
        r == is_word(c),
{
    char_is_letter(c) || char_is_digit(c) || c == '_'
}

/// The value of a decimal digit.
pub open spec fn digit_value(c: char) -> nat
    recommends
        is_digit(c),
{
    (c as u32 - 48) as nat
}

/// The digit that stands for a value below ten.
pub open spec fn digit_char(d: nat) -> char
    recommends
        d < 10,
{
    ((48 + d) as u8) as char
}

/// The number that a sequence of decimal digits denotes; the empty sequence
/// denotes zero.
pub open spec fn digits_value(digits: Seq<char>) -> nat
    decreases digits.len(),
{
    if digits.len() == 0 {
        0
    } else {
        digits_value(digits.drop_last()) * 10 + digit_value(digits.last())
    }
}

/// The decimal notation of a natural number, without leading zeros.
pub open spec fn decimal_digits(n: nat) -> Seq<char>
    decreases n,
{
    if n < 10 {
        seq![digit_char(n)]
    } else {
        decimal_digits(n / 10).push(digit_char(n % 10))
    }
}

/// The decimal notation of an integer: a minus sign before the digits of a
/// negative number.
pub open spec fn decimal(i: int) -> Seq<char> {
    if i < 0 {
        seq!['-'] + decimal_digits((-i) as nat)
    } else {
        decimal_digits(i as nat)
    }
}

/// Appends the decimal notation of `n` to `out`.
pub fn push_decimal(out: &mut String, n: u64)
    ensures
        final(out)@ == old(out)@ + decimal_digits(n as nat),
    decreases n,
{
    if n >= 10 {
        push_decimal(out, n / 10);
    }
    let d: u8 = (n % 10) as u8;
    out.push((48 + d) as char);
    proof {
        let before = old(out)@;
        if n >= 10 {
            assert(before + decimal_digits((n / 10) as nat).push(digit_char((n % 10) as nat))
                =~= (before + decimal_digits((n / 10) as nat)).push(digit_char((n % 10) as nat)));
        } else {
            assert(before + seq![digit_char(n as nat)] =~= before.push(digit_char(n as nat)));
        }
    }
}

/// The decimal notation of a 32-bit integer.
pub fn i32_to_string(i: i32) -> (r: String)
    ensures
        r@ == decimal(i as int),
{
    let mut out = String::new();
    if i < 0 {
        out.push('-');
        let magnitude: u64 = (-(i as i64)) as u64;
        push_decimal(&mut out, magnitude);
        assert(out@ =~= seq!['-'] + decimal_digits((-i) as nat));
    } else {
        push_decimal(&mut out, i as u64);
        assert(out@ =~= decimal_digits(i as nat));
    }
    out
}

/// The decimal notation of a count.
pub fn usize_to_string(n: usize) -> (r: String)
    ensures
        r@ == decimal(n as int),
{
    let mut out = String::new();
    push_decimal(&mut out, n as u64);
    assert(out@ =~= decimal_digits(n as nat));
    out
}

/// The characters of a string, in order.
pub fn chars_of(s: &str) -> (r: Vec<char>)
    ensures
        r@ == s@,
{
    let mut out: Vec<char> = Vec::new();
    for c in it: s.chars()
        invariant
            it.seq() == s@,
            out@ == s@.take(it.index()),
    {
        out.push(c);
        assert(s@.take(it.index() + 1) =~= s@.take(it.index()).push(s@[it.index()]));
    }
    assert(s@.take(s@.len() as int) =~= s@);
    out
}

/// The string made of three parts.
pub fn join3(a: &str, b: &str, c: &str) -> (r: String)
    ensures
        r@ == a@ + b@ + c@,
{
    let mut out = a.to_owned();
    out.append(b);
    out.append(c);
    out
}

/// The string made of five parts.
pub fn join5(a: &str, b: &str, c: &str, d: &str, e: &str) -> (r: String)
    ensures
        r@ == a@ + b@ + c@ + d@ + e@,
{
    let mut out = a.to_owned();
    out.append(b);
    out.append(c);
    out.append(d);
    out.append(e);
    out
}

/// How one thing stands to another in an order.
#[derive(Debug, Clone, Copy, PartialEq, Eq, Structural)]
pub enum Order {
    Less,
    Equal,
    Greater,
}

/// The order of two integers.
pub open spec fn int_order(a: int, b: int) -> Order {
    if a < b {
        Order::Less
    } else if a == b {
        Order::Equal
    } else {
        Order::Greater
    }
}

/// The order of two texts from position `from` on, where they agree before
/// it: the order of the first characters in which they differ; where one
/// text ends first, that one is the lesser.
pub open spec fn text_order_from(a: Seq<char>, b: Seq<char>, from: int) -> Order
    decreases a.len() - from,
{
    if from >= a.len() {
        if from >= b.len() {
            Order::Equal
        } else {
            Order::Less
        }
    } else if from >= b.len() {
        Order::Greater
    } else if a[from] < b[from] {
        Order::Less
    } else if a[from] > b[from] {
        Order::Greater
    } else {
        text_order_from(a, b, from + 1)
    }
}

/// The lexicographic order of two texts.
pub open spec fn text_order(a: Seq<char>, b: Seq<char>) -> Order {
    text_order_from(a, b, 0)
}

/// The order of two 32-bit integers.
pub fn order_i32(a: i32, b: i32) -> (r: Order)
    ensures
        r == int_order(a as int, b as int),
{
    if a < b {
        Order::Less
    } else if a == b {
        Order::Equal
    } else {
        Order::Greater
    }
}

/// The lexicographic order of two strings.
pub fn order_text(a: &str, b: &str) -> (r: Order)
    ensures
        r == text_order(a@, b@),
{
    let left = chars_of(a);
    let right = chars_of(b);
    let mut i: usize = 0;
    loop
        invariant
            left@ == a@,
            right@ == b@,
            i <= left.len(),
            i <= right.len(),
            text_order(a@, b@) == text_order_from(a@, b@, i as int),
        decreases left.len() - i,
    {
        if i >= left.len() {
            if i >= right.len() {
                return Order::Equal;
            } else {
                return Order::Less;
            }
        } else if i >= right.len() {
            return Order::Greater;
        } else if left[i] < right[i] {
            return Order::Less;
        } else if left[i] > right[i] {
            return Order::Greater;
        }
        i = i + 1;
    }
}

} // verus!
