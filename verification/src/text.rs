use crate::decimal::Decimal;
use vstd::prelude::*;
use vstd::string::StringExecFns;

verus! {

/// The character that stands for a decimal digit.
pub open spec fn digit_char(d: int) -> char {
    if d == 0 {
        '0'
    } else if d == 1 {
        '1'
    } else if d == 2 {
        '2'
    } else if d == 3 {
        '3'
    } else if d == 4 {
        '4'
    } else if d == 5 {
        '5'
    } else if d == 6 {
        '6'
    } else if d == 7 {
        '7'
    } else if d == 8 {
        '8'
    } else {
        '9'
    }
}

/// A natural number in decimal, without leading zeros.
pub open spec fn decimal_text(n: nat) -> Seq<char>
    decreases n,
{
    if n < 10 {
        seq![digit_char(n as int)]
    } else {
        decimal_text(n / 10).push(digit_char((n % 10) as int))
    }
}

/// A decimal rounded to two fractional digits, half away from zero, as in
/// `12.35`.
pub open spec fn two_places_text(value: Decimal) -> Seq<char> {
    let hundredths = (value.thousandths + 5) / 10;
    decimal_text((hundredths / 100) as nat) + seq![
        '.',
        digit_char(hundredths / 10 % 10),
        digit_char(hundredths % 10),
    ]
}

/// A decimal rounded to one fractional digit, half away from zero, as in
/// `12.4`.
pub open spec fn one_place_text(value: Decimal) -> Seq<char> {
    let tenths = (value.thousandths + 50) / 100;
    decimal_text((tenths / 10) as nat) + seq!['.', digit_char(tenths % 10)]
}

/// The characters of a text, one by one.
pub fn chars_of(text: &str) -> (chars: Vec<char>)
    ensures
        chars@ == text@,
{
    let mut chars: Vec<char> = Vec::new();
    for c in it: text.chars()
        invariant
            it.seq() == text@,
            chars@ == text@.take(it.index() as int),
    {
        chars.push(c);
        assert(chars@ =~= text@.take(it.index() + 1));
    }
    assert(text@.take(text@.len() as int) =~= text@);
    chars
}

/// The text of one decimal digit.
fn digit_str(d: u8) -> (text: &'static str)
    requires
        d < 10,
    ensures
        text@ == seq![digit_char(d as int)],
{
    proof {
        reveal_strlit("0");
        reveal_strlit("1");
        reveal_strlit("2");
        reveal_strlit("3");
        reveal_strlit("4");
        reveal_strlit("5");
        reveal_strlit("6");
        reveal_strlit("7");
        reveal_strlit("8");
        reveal_strlit("9");
    }
    let text = if d == 0 {
        "0"
    } else if d == 1 {
        "1"
    } else if d == 2 {
        "2"
    } else if d == 3 {
        "3"
    } else if d == 4 {
        "4"
    } else if d == 5 {
        "5"
    } else if d == 6 {
        "6"
    } else if d == 7 {
        "7"
    } else if d == 8 {
        "8"
    } else {
        "9"
    };
    assert(text@ =~= seq![digit_char(d as int)]);
    text
}

/// Appends `n` in decimal.
pub fn push_decimal(out: &mut String, n: u128)
    ensures
        final(out)@ == old(out)@ + decimal_text(n as nat),
    decreases n,
{
    if n >= 10 {
        push_decimal(out, n / 10);
    }
    out.append(digit_str((n % 10) as u8));
    assert(out@ =~= old(out)@ + decimal_text(n as nat));
}

/// `n` in decimal.
pub fn decimal_string(n: u128) -> (text: String)
    ensures
        text@ == decimal_text(n as nat),
{
    let mut text = String::new();
    push_decimal(&mut text, n);
    assert(text@ =~= decimal_text(n as nat));
    text
}

/// Appends `value` with two fractional digits.
pub fn push_two_places(out: &mut String, value: Decimal)
    ensures
        final(out)@ == old(out)@ + two_places_text(value),
{
    proof {
        reveal_strlit(".");
    }
    let hundredths: u128 = (value.thousandths as u128 + 5) / 10;
    push_decimal(out, hundredths / 100);
    out.append(".");
    out.append(digit_str((hundredths / 10 % 10) as u8));
    out.append(digit_str((hundredths % 10) as u8));
    assert(out@ =~= old(out)@ + two_places_text(value));
}

/// Appends `value` with one fractional digit.
pub fn push_one_place(out: &mut String, value: Decimal)
    ensures
        final(out)@ == old(out)@ + one_place_text(value),
{
    proof {
        reveal_strlit(".");
    }
    let tenths: u128 = (value.thousandths as u128 + 50) / 100;
    push_decimal(out, tenths / 10);
    out.append(".");
    out.append(digit_str((tenths % 10) as u8));
    assert(out@ =~= old(out)@ + one_place_text(value));
}

} // verus!
