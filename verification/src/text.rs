//! Numbers as text: the decimal and hexadecimal notations used in messages and topics.

use vstd::prelude::*;

verus! {

/// The character of a digit below sixteen, with lower-case letters past nine.
pub open spec fn digit(d: int) -> char
    recommends
        0 <= d < 16,
{
    if d == 0 {
        '0'
    } else if d == 1 {
        '1'
    } else if d == 2 {
        '2'
    } else if d == 3 {
        '3'
    } else if d == 4 {
        '4'
    } else if d == 5 {
        '5'
    } else if d == 6 {
        '6'
    } else if d == 7 {
        '7'
    } else if d == 8 {
        '8'
    } else if d == 9 {
        '9'
    } else if d == 10 {
        'a'
    } else if d == 11 {
        'b'
    } else if d == 12 {
        'c'
    } else if d == 13 {
        'd'
    } else if d == 14 {
        'e'
    } else {
        'f'
    }
}

/// The decimal notation of `n`, without leading zeros.
pub open spec fn decimal(n: nat) -> Seq<char>
    decreases n,
{
    if n < 10 {
        seq![digit(n as int)]
    } else {
        decimal(n / 10).push(digit((n % 10) as int))
    }
}

/// The decimal notation of `i`, with a minus sign in front of a negative number.
pub open spec fn signed_decimal(i: int) -> Seq<char> {
    if i < 0 {
        seq!['-'] + decimal((-i) as nat)
    } else {
        decimal(i as nat)
    }
}

/// The four lower-case hexadecimal digits of `n`, with leading zeros.
pub open spec fn hex4(n: u16) -> Seq<char> {
    seq![
        digit(n as int / 4096),
        digit(n as int / 256 % 16),
        digit(n as int / 16 % 16),
        digit(n as int % 16),
    ]
}

fn digit_str(d: u16) -> (s: &'static str)
    requires
        d < 16,
    ensures
        s@ == seq![digit(d as int)],
{
    proof {
        reveal_strlit("0");
        reveal_strlit("1");
        reveal_strlit("2");
        reveal_strlit("3");
        reveal_strlit("4");
        reveal_strlit("5");
        reveal_strlit("6");
        reveal_strlit("7");
        reveal_strlit("8");
        reveal_strlit("9");
        reveal_strlit("a");
        reveal_strlit("b");
        reveal_strlit("c");
        reveal_strlit("d");
        reveal_strlit("e");
        reveal_strlit("f");
    }
    match d {
        0 => "0",
        1 => "1",
        2 => "2",
        3 => "3",
        4 => "4",
        5 => "5",
        6 => "6",
        7 => "7",
        8 => "8",
        9 => "9",
        10 => "a",
        11 => "b",
        12 => "c",
        13 => "d",
        14 => "e",
        _ => "f",
    }
}

/// Appends the decimal notation of `n` to `out`.
pub(crate) fn push_decimal(out: &mut String, n: u64)
    ensures
        final(out)@ == old(out)@ + decimal(n as nat),
    decreases n,
{
    if n >= 10 {
        push_decimal(out, n / 10);
    }
    out.append(digit_str((n % 10) as u16));
    assert(out@ == old(out)@ + decimal(n as nat));
}

/// Appends the decimal notation of `i` to `out`.
pub(crate) fn push_signed_decimal(out: &mut String, i: i64)
    ensures
        final(out)@ == old(out)@ + signed_decimal(i as int),
{
    if i < 0 {
        let magnitude: u64 = (-(i as i128)) as u64;
        proof {
            reveal_strlit("-");
        }
        out.append("-");
        push_decimal(out, magnitude);
        assert("-"@ == seq!['-']);
        assert(out@ == old(out)@ + signed_decimal(i as int));
    } else {
        push_decimal(out, i as u64);
    }
}

/// Appends the four hexadecimal digits of `n` to `out`.
pub(crate) fn push_hex4(out: &mut String, n: u16)
    ensures
        final(out)@ == old(out)@ + hex4(n),
{
    out.append(digit_str(n / 4096));
    out.append(digit_str(n / 256 % 16));
    out.append(digit_str(n / 16 % 16));
    out.append(digit_str(n % 16));
    assert(out@ == old(out)@ + hex4(n));
}

/// The decimal notation of `i` as a string of its own.
pub(crate) fn signed_decimal_string(i: i64) -> (s: String)
    ensures
        s@ == signed_decimal(i as int),
{
    let mut s = String::new();
    push_signed_decimal(&mut s, i);
    assert(s@ == signed_decimal(i as int));
    s
}

/// The number that a text of decimal digits stands for, by the codes of its
/// characters.
pub open spec fn decimal_value(text: Seq<char>) -> int
    decreases text.len(),
{
    if text.len() == 0 {
        0
    } else {
        10 * decimal_value(text.drop_last()) + (text.last() as int - 48)
    }
}

/// The number that a hexadecimal digit stands for, by the code of its character.
pub open spec fn hex_digit_value(c: char) -> int {
    if c as int <= 57 {
        c as int - 48
    } else {
        c as int - 87
    }
}

/// Digits have the codes of their characters: from 48 on up to nine, from 97 on
/// above.
pub proof fn law_digits_have_their_codes(d: int)
    requires
        0 <= d < 16,
    ensures
        d < 10 ==> digit(d) as int == 48 + d,
        d >= 10 ==> digit(d) as int == 97 + (d - 10),
{
}

/// Decimal notation reads back as its number, is made of decimal digits alone,
/// and does not start with a zero but for zero itself.
pub proof fn law_decimal_reads_back(n: nat)
    ensures
        decimal_value(decimal(n)) == n,
        decimal(n).len() > 0,
        forall|i: int| 0 <= i < decimal(n).len() ==> 48 <= #[trigger] decimal(n)[i] as int <= 57,
        n > 0 ==> decimal(n)[0] as int != 48,
        n == 0 ==> decimal(n).len() == 1,
    decreases n,
{
    reveal_with_fuel(decimal_value, 2);
    if n >= 10 {
        law_decimal_reads_back(n / 10);
        assert(decimal(n).drop_last() == decimal(n / 10));
    } else {
        assert(decimal(n).drop_last() == Seq::<char>::empty());
    }
}

/// Different numbers never have the same decimal notation.
pub proof fn law_decimal_tells_numbers_apart(m: nat, n: nat)
    requires
        decimal(m) == decimal(n),
    ensures
        m == n,
{
    law_decimal_reads_back(m);
    law_decimal_reads_back(n);
}

/// Signed decimal notation reads back as its number: a minus sign stands in
/// front of a negative one and of no other.
pub proof fn law_signed_decimal_reads_back(i: int)
    ensures
        signed_decimal(i).len() > 0,
        i >= 0 ==> signed_decimal(i)[0] as int != 45 && decimal_value(signed_decimal(i)) == i,
        i < 0 ==> signed_decimal(i)[0] as int == 45 && decimal_value(signed_decimal(i).skip(1))
            == -i,
{
    if i < 0 {
        law_decimal_reads_back((-i) as nat);
        assert(signed_decimal(i).skip(1) == decimal((-i) as nat));
    } else {
        law_decimal_reads_back(i as nat);
    }
}

/// A hexadecimal digit reads back as its number, and is a decimal digit or a
/// letter from `a` to `f`.
pub proof fn law_hex_digit_reads_back(d: int)
    requires
        0 <= d < 16,
    ensures
        hex_digit_value(digit(d)) == d,
        48 <= digit(d) as int <= 57 || 97 <= digit(d) as int <= 102,
{
    law_digits_have_their_codes(d);
}

/// Four hexadecimal digits, weighed by their places, read back as their number.
pub proof fn law_hex4_reads_back(n: u16)
    ensures
        hex4(n).len() == 4,
        hex_digit_value(hex4(n)[0]) * 4096 + hex_digit_value(hex4(n)[1]) * 256 + hex_digit_value(
            hex4(n)[2],
        ) * 16 + hex_digit_value(hex4(n)[3]) == n,
        forall|i: int|
            0 <= i < 4 ==> 48 <= (#[trigger] hex4(n)[i]) as int <= 57 || 97 <= hex4(n)[i] as int
                <= 102,
{
    let a = n as int / 4096;
    let b = n as int / 256 % 16;
    let c = n as int / 16 % 16;
    let d = n as int % 16;
    assert(a * 4096 + b * 256 + c * 16 + d == n);
    assert(hex_digit_value(hex4(n)[0]) == a && (48 <= hex4(n)[0] as int <= 57 || 97 <= hex4(
        n,
    )[0] as int <= 102)) by {
        law_hex_digit_reads_back(a);
    }
    assert(hex_digit_value(hex4(n)[1]) == b && (48 <= hex4(n)[1] as int <= 57 || 97 <= hex4(
        n,
    )[1] as int <= 102)) by {
        law_hex_digit_reads_back(b);
    }
    assert(hex_digit_value(hex4(n)[2]) == c && (48 <= hex4(n)[2] as int <= 57 || 97 <= hex4(
        n,
    )[2] as int <= 102)) by {
        law_hex_digit_reads_back(c);
    }
    assert(hex_digit_value(hex4(n)[3]) == d && (48 <= hex4(n)[3] as int <= 57 || 97 <= hex4(
        n,
    )[3] as int <= 102)) by {
        law_hex_digit_reads_back(d);
    }
}

} // verus!
