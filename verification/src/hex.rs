//! Upper-case hexadecimal text of an unsigned number, with the `0x` prefix.

use vstd::prelude::*;
use vstd::string::StringExecFns;

verus! {

/// The upper-case hexadecimal digit for a value below sixteen.
pub open spec fn hex_digit(value: nat) -> char
    recommends
        value < 16,
{
    "0123456789ABCDEF"@[value as int]
}

/// The hexadecimal digits of `value`, most significant first, without
/// leading zeros; a single `0` for zero.
pub open spec fn hex_digits(value: nat) -> Seq<char>
    decreases value,
{
    if value < 16 {
        seq![hex_digit(value)]
    } else {
        hex_digits(value / 16).push(hex_digit(value % 16))
    }
}

/// `0x` followed by the hexadecimal digits of `value`.
pub open spec fn prefixed_hex(value: nat) -> Seq<char> {
    seq!['0', 'x'] + hex_digits(value)
}

fn hex_digit_text(value: u64) -> (text: &'static str)
    requires
        value < 16,
    ensures
        text@ == seq![hex_digit(value as nat)],
{
    proof {
        reveal_strlit("0123456789ABCDEF");
        reveal_strlit("0");
        reveal_strlit("1");
        reveal_strlit("2");
        reveal_strlit("3");
        reveal_strlit("4");
        reveal_strlit("5");
        reveal_strlit("6");
        reveal_strlit("7");
        reveal_strlit("8");
        reveal_strlit("9");
        reveal_strlit("A");
        reveal_strlit("B");
        reveal_strlit("C");
        reveal_strlit("D");
        reveal_strlit("E");
        reveal_strlit("F");
    }
    let text = match value {
        0 => "0",
        1 => "1",
        2 => "2",
        3 => "3",
        4 => "4",
        5 => "5",
        6 => "6",
        7 => "7",
        8 => "8",
        9 => "9",
        10 => "A",
        11 => "B",
        12 => "C",
        13 => "D",
        14 => "E",
        _ => "F",
    };
    assert(text@ =~= seq![hex_digit(value as nat)]);
    text
}

/// Appends the hexadecimal digits of `value` to `text`.
fn append_hex_digits(text: &mut String, value: u64)
    ensures
        final(text)@ == old(text)@ + hex_digits(value as nat),
    decreases value,
{
    if value >= 16 {
        append_hex_digits(text, value / 16);
    }
    text.append(hex_digit_text(value % 16));
    assert(text@ =~= old(text)@ + hex_digits(value as nat));
}

/// `value` in upper-case hexadecimal behind the prefix `0x`.
pub fn to_prefixed_hex(value: u64) -> (text: String)
    ensures
        text@ == prefixed_hex(value as nat),
{
    proof {
        reveal_strlit("0x");
    }
    let mut text = String::from_str("0x");
    append_hex_digits(&mut text, value);
    assert(text@ =~= prefixed_hex(value as nat));
    text
}

} // verus!
