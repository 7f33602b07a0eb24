use vstd::prelude::*;
use vstd::string::StringExecFns;

verus! {

/// The character for a decimal digit value.
pub open spec fn dec_digit(d: nat) -> char {
    if d == 0 {
        '0'
    } else if d == 1 {
        '1'
    } else if d == 2 {
        '2'
    } else if d == 3 {
        '3'
    } else if d == 4 {
        '4'
    } else if d == 5 {
        '5'
    } else if d == 6 {
        '6'
    } else if d == 7 {
        '7'
    } else if d == 8 {
        '8'
    } else {
        '9'
    }
}

/// The character for a hexadecimal digit value, upper case.
pub open spec fn hex_digit(d: nat) -> char {
    if d < 10 {
        dec_digit(d)
    } else if d == 10 {
        'A'
    } else if d == 11 {
        'B'
    } else if d == 12 {
        'C'
    } else if d == 13 {
        'D'
    } else if d == 14 {
        'E'
    } else {
        'F'
    }
}

/// The decimal rendering of `n`, most significant digit first.
pub open spec fn dec_chars(n: nat) -> Seq<char>
    decreases n,
{
    if n < 10 {
        seq![dec_digit(n)]
    } else {
        dec_chars(n / 10) + seq![dec_digit(n % 10)]
    }
}

/// The hexadecimal rendering of `n` with a leading `0x`, upper-case digits,
/// no leading zeroes.
pub open spec fn hex_chars(n: nat) -> Seq<char>
    decreases n,
{
    if n < 16 {
        seq![hex_digit(n)]
    } else {
        hex_chars(n / 16) + seq![hex_digit(n % 16)]
    }
}

/// `0x` followed by the hexadecimal digits of `n`.
pub open spec fn hex_prefixed(n: nat) -> Seq<char> {
    "0x"@ + hex_chars(n)
}

/// The rendering of a bool.
pub open spec fn bool_chars(b: bool) -> Seq<char> {
    if b {
        "true"@
    } else {
        "false"@
    }
}

/// One decimal digit as a string slice.
fn dec_digit_str(d: u8) -> (r: &'static str)
    requires
        d < 10,
    ensures
        r@ =~= seq![dec_digit(d as nat)],
{
    proof {
        reveal_strlit("0");
        reveal_strlit("1");
        reveal_strlit("2");
        reveal_strlit("3");
        reveal_strlit("4");
        reveal_strlit("5");
        reveal_strlit("6");
        reveal_strlit("7");
        reveal_strlit("8");
        reveal_strlit("9");
    }
    match d {
        0 => "0",
        1 => "1",
        2 => "2",
        3 => "3",
        4 => "4",
        5 => "5",
        6 => "6",
        7 => "7",
        8 => "8",
        _ => "9",
    }
}

/// One hexadecimal digit as a string slice, upper case.
fn hex_digit_str(d: u8) -> (r: &'static str)
    requires
        d < 16,
    ensures
        r@ =~= seq![hex_digit(d as nat)],
{
    if d < 10 {
        dec_digit_str(d)
    } else {
        proof {
            reveal_strlit("A");
            reveal_strlit("B");
            reveal_strlit("C");
            reveal_strlit("D");
            reveal_strlit("E");
            reveal_strlit("F");
        }
        match d {
            10 => "A",
            11 => "B",
            12 => "C",
            13 => "D",
            14 => "E",
            _ => "F",
        }
    }
}

/// Appends the decimal rendering of `v` to `s`.
pub fn push_dec_u64(s: &mut String, v: u64)
    ensures
        final(s)@ == old(s)@ + dec_chars(v as nat),
    decreases v,
{
    if v < 10 {
        s.append(dec_digit_str(v as u8));
    } else {
        push_dec_u64(s, v / 10);
        s.append(dec_digit_str((v % 10) as u8));
        proof {
            assert(s@ =~= old(s)@ + dec_chars(v as nat));
        }
    }
}

/// Appends `0x` and the hexadecimal rendering of `v` to `s`.
pub fn push_hex_u64(s: &mut String, v: u64)
    ensures
        final(s)@ == old(s)@ + hex_prefixed(v as nat),
{
    s.append("0x");
    push_hex_digits(s, v);
    proof {
        assert(s@ =~= old(s)@ + hex_prefixed(v as nat));
    }
}

/// Appends the bare hexadecimal digits of `v` to `s`.
fn push_hex_digits(s: &mut String, v: u64)
    ensures
        final(s)@ == old(s)@ + hex_chars(v as nat),
    decreases v,
{
    if v < 16 {
        s.append(hex_digit_str(v as u8));
    } else {
        push_hex_digits(s, v / 16);
        s.append(hex_digit_str((v % 16) as u8));
        proof {
            assert(s@ =~= old(s)@ + hex_chars(v as nat));
        }
    }
}

/// Appends the rendering of a bool to `s`.
pub fn push_bool(s: &mut String, b: bool)
    ensures
        final(s)@ == old(s)@ + bool_chars(b),
{
    if b {
        s.append("true");
    } else {
        s.append("false");
    }
}

} // verus!
