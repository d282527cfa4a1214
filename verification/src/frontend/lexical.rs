//! From the text of a token to the value it stands for: the operator tables
//! and the conversion of literals.
use crate::frontend::ast::{Bop, Uop};
use vstd::prelude::*;

verus! {

/// The characters of a string, in order.
pub fn chars_of(text: &str) -> (chars: Vec<char>)
    ensures
        chars@ == text@,
{
    let mut chars: Vec<char> = Vec::new();
    for c in it: text.chars()
        invariant
            it.seq() == text@,
            chars@ == it.seq().take(it.index() as int),
    {
        chars.push(c);
    }
    chars
}

/// The binary operator that a token stands for, if any.
pub open spec fn bop_of_text(text: Seq<char>) -> Option<Bop> {
    if text =~= seq!['+'] {
        Some(Bop::Add)
    } else if text =~= seq!['-'] {
        Some(Bop::Sub)
    } else if text =~= seq!['*'] {
        Some(Bop::Mul)
    } else if text =~= seq!['/'] {
        Some(Bop::Div)
    } else if text =~= seq!['%'] {
        Some(Bop::Mod)
    } else if text =~= seq!['=', '='] {
        Some(Bop::Eq)
    } else if text =~= seq!['!', '='] {
        Some(Bop::Neq)
    } else if text =~= seq!['<'] {
        Some(Bop::Lt)
    } else if text =~= seq!['<', '='] {
        Some(Bop::Lte)
    } else if text =~= seq!['>'] {
        Some(Bop::Gt)
    } else if text =~= seq!['>', '='] {
        Some(Bop::Gte)
    } else if text =~= seq!['&'] {
        Some(Bop::And)
    } else if text =~= seq!['|'] {
        Some(Bop::Or)
    } else if text =~= seq!['*', '>', '>'] {
        Some(Bop::HMul)
    } else {
        None
    }
}

/// The unary operator that a token stands for, if any.
pub open spec fn uop_of_text(text: Seq<char>) -> Option<Uop> {
    if text =~= seq!['-'] {
        Some(Uop::Neg)
    } else if text =~= seq!['!'] {
        Some(Uop::Not)
    } else {
        None
    }
}

/// Looks a token up in the table of binary operators.
pub fn binary_operator(text: &str) -> (op: Option<Bop>)
    ensures
        op == bop_of_text(text@),
{
    let chars = chars_of(text);
    if chars.len() == 1 {
        match chars[0] {
            '+' => Some(Bop::Add),
            '-' => Some(Bop::Sub),
            '*' => Some(Bop::Mul),
            '/' => Some(Bop::Div),
            '%' => Some(Bop::Mod),
            '<' => Some(Bop::Lt),
            '>' => Some(Bop::Gt),
            '&' => Some(Bop::And),
            '|' => Some(Bop::Or),
            _ => None,
        }
    } else if chars.len() == 2 {
        if chars[1] != '=' {
            None
        } else {
            match chars[0] {
                '=' => Some(Bop::Eq),
                '!' => Some(Bop::Neq),
                '<' => Some(Bop::Lte),
                '>' => Some(Bop::Gte),
                _ => None,
            }
        }
    } else if chars.len() == 3 {
        if chars[0] == '*' && chars[1] == '>' && chars[2] == '>' {
            Some(Bop::HMul)
        } else {
            None
        }
    } else {
        None
    }
}

/// Looks a token up in the table of unary operators.
pub fn unary_operator(text: &str) -> (op: Option<Uop>)
    ensures
        op == uop_of_text(text@),
{
    let chars = chars_of(text);
    if chars.len() == 1 {
        match chars[0] {
            '-' => Some(Uop::Neg),
            '!' => Some(Uop::Not),
            _ => None,
        }
    } else {
        None
    }
}

/// Whether a character is a decimal digit.
pub open spec fn is_digit(c: char) -> bool {
    '0' <= c <= '9'
}

/// The value of a decimal digit.
pub open spec fn digit_value(c: char) -> nat {
    if is_digit(c) {
        (c as u32 - '0' as u32) as nat
    } else {
        0
    }
}

/// The number that a sequence of decimal digits denotes.
pub open spec fn digits_value(digits: Seq<char>) -> nat
    decreases digits.len(),
{
    if digits.len() == 0 {
        0
    } else {
        digits_value(digits.drop_last()) * 10 + digit_value(digits.last())
    }
}

/// Whether a text is one or more decimal digits.
pub open spec fn is_number(digits: Seq<char>) -> bool {
    digits.len() > 0 && forall|i: int| 0 <= i < digits.len() ==> is_digit(#[trigger] digits[i])
}

/// The 64-bit signed integer that a text denotes in decimal: an optional
/// sign, `+` or `-`, and then one or more digits whose value, with the sign,
/// is in the range of `i64`.
pub open spec fn int_of_text(text: Seq<char>) -> Option<i64> {
    let signed = text.len() > 0 && (text[0] == '-' || text[0] == '+');
    let digits = if signed { text.drop_first() } else { text };
    let value = if signed && text[0] == '-' {
        -(digits_value(digits) as int)
    } else {
        digits_value(digits) as int
    };
    if is_number(digits) && i64::MIN <= value <= i64::MAX {
        Some(value as i64)
    } else {
        None
    }
}

/// The truth value that a text denotes: `true` or `false`, and nothing else.
pub open spec fn bool_of_text(text: Seq<char>) -> Option<bool> {
    if text =~= seq!['t', 'r', 'u', 'e'] {
        Some(true)
    } else if text =~= seq!['f', 'a', 'l', 's', 'e'] {
        Some(false)
    } else {
        None
    }
}

/// The first character of a text, if it has one.
pub open spec fn char_of_text(text: Seq<char>) -> Option<char> {
    if text.len() > 0 {
        Some(text[0])
    } else {
        None
    }
}

/// A sequence of digits denotes at least what any of its prefixes denotes.
pub proof fn digits_value_prefix(digits: Seq<char>, len: int)
    requires
        0 <= len <= digits.len(),
    ensures
        digits_value(digits.take(len)) <= digits_value(digits),
    decreases digits.len() - len,
{
    if len == digits.len() {
        assert(digits.take(len) =~= digits);
    } else {
        digits_value_prefix(digits.drop_last(), len);
        assert(digits.drop_last().take(len) =~= digits.take(len));
    }
}

/// Converts the text of an integer literal.
pub fn parse_int(text: &str) -> (value: Option<i64>)
    ensures
        value == int_of_text(text@),
{
    let chars = chars_of(text);
    let n = chars.len();
    if n == 0 {
        return None;
    }
    let negative = chars[0] == '-';
    let start: usize = if negative || chars[0] == '+' { 1 } else { 0 };
    if start == n {
        return None;
    }
    let limit: u64 = if negative { 9223372036854775808 } else { 9223372036854775807 };
    let ghost digits = chars@.subrange(start as int, n as int);
    proof {
        if start == 1 {
            assert(digits =~= text@.drop_first());
        } else {
            assert(digits =~= text@);
        }
    }
    let mut magnitude: u64 = 0;
    let mut i: usize = start;
    while i < n
        invariant
            start <= i <= n,
            n == chars.len(),
            digits == chars@.subrange(start as int, n as int),
            forall|j: int| 0 <= j < i - start ==> is_digit(#[trigger] digits[j]),
            magnitude == digits_value(digits.take(i - start)),
            magnitude <= limit,
            limit == (if negative { 9223372036854775808u64 } else { 9223372036854775807u64 }),
            text@.len() > 0,
            negative == (text@[0] == '-'),
            digits == (if text@[0] == '-' || text@[0] == '+' {
                text@.drop_first()
            } else {
                text@
            }),
        decreases n - i,
    {
        let c = chars[i];
        assert(c == digits[i - start]);
        if c < '0' || c > '9' {
            assert(!is_digit(digits[i - start]));
            return None;
        }
        let d: u64 = (c as u32 - '0' as u32) as u64;
        assert(d <= 9 && d == digit_value(c));
        proof {
            assert(digits.take(i - start + 1).drop_last() =~= digits.take(i - start));
            assert(digits.take(i - start + 1).last() == c);
            assert(digits_value(digits.take(i - start + 1)) == magnitude * 10 + d);
        }
        if magnitude > (limit - d) / 10 {
            proof {
                digits_value_prefix(digits, i - start + 1);
                assert(magnitude * 10 + d > limit);
                assert(digits_value(digits) > limit);
            }
            return None;
        }
        magnitude = magnitude * 10 + d;
        i = i + 1;
    }
    proof {
        assert(digits.take(n - start) =~= digits);
    }
    if negative {
        if magnitude == 9223372036854775808 {
            Some(i64::MIN)
        } else {
            Some(-(magnitude as i64))
        }
    } else {
        Some(magnitude as i64)
    }
}

/// Converts the text of a boolean literal.
pub fn parse_bool(text: &str) -> (value: Option<bool>)
    ensures
        value == bool_of_text(text@),
{
    let chars = chars_of(text);
    if chars.len() == 4 && chars[0] == 't' && chars[1] == 'r' && chars[2] == 'u' && chars[3]
        == 'e' {
        Some(true)
    } else if chars.len() == 5 && chars[0] == 'f' && chars[1] == 'a' && chars[2] == 'l'
        && chars[3] == 's' && chars[4] == 'e' {
        Some(false)
    } else {
        None
    }
}

/// Converts the text of a character literal.
pub fn parse_char(text: &str) -> (value: Option<char>)
    ensures
        value == char_of_text(text@),
{
    let mut it = text.chars();
    let first = it.next();
    first
}

} // verus!
