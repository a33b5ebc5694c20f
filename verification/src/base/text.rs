use vstd::prelude::*;
use vstd::string::*;

verus! {

/// The lowercase hexadecimal digit for `d` (`0 <= d < 16`).
pub open spec fn hex_digit(d: int) -> char {
    if d < 10 {
        (48 + d) as char
    } else {
        (87 + d) as char
    }
}

/// The decimal digit for `d` (`0 <= d < 10`).
pub open spec fn dec_digit(d: int) -> char {
    (48 + d) as char
}

/// The last `width` hexadecimal digits of `v`, most significant first, padded with zeros.
pub open spec fn hex_digits(v: nat, width: nat) -> Seq<char>
    decreases width,
{
    if width == 0 {
        Seq::empty()
    } else {
        hex_digits(v / 16, (width - 1) as nat).push(hex_digit((v % 16) as int))
    }
}

/// The text `{:#010x}` gives for a 32-bit value: `0x` and eight lowercase hexadecimal digits.
pub open spec fn hex_text(v: u32) -> Seq<char> {
    seq!['0', 'x'] + hex_digits(v as nat, 8)
}

/// The decimal digits of `v`, most significant first, without leading zeros.
pub open spec fn dec_text(v: nat) -> Seq<char>
    decreases v,
{
    if v < 10 {
        seq![dec_digit(v as int)]
    } else {
        dec_text(v / 10).push(dec_digit((v % 10) as int))
    }
}

fn push_hex_digit(s: &mut String, d: u32)
    requires
        d < 16,
    ensures
        final(s)@ == old(s)@.push(hex_digit(d as int)),
{
    let table = "0123456789abcdef";
    proof {
        reveal_strlit("0123456789abcdef");
    }
    let digit = table.substring_char(d as usize, d as usize + 1);
    assert(digit@ =~= seq![hex_digit(d as int)]);
    s.append(digit);
}

fn push_dec_digit(s: &mut String, d: u32)
    requires
        d < 10,
    ensures
        final(s)@ == old(s)@.push(dec_digit(d as int)),
{
    let table = "0123456789";
    proof {
        reveal_strlit("0123456789");
    }
    let digit = table.substring_char(d as usize, d as usize + 1);
    assert(digit@ =~= seq![dec_digit(d as int)]);
    s.append(digit);
}

fn push_hex_digits(s: &mut String, v: u32, width: u32)
    requires
        width <= 8,
    ensures
        final(s)@ == old(s)@ + hex_digits(v as nat, width as nat),
    decreases width,
{
    if width > 0 {
        push_hex_digits(s, v / 16, width - 1);
        push_hex_digit(s, v % 16);
    }
}

/// Appends the text of `v` formatted as `{:#010x}`.
pub(crate) fn push_hex_text(s: &mut String, v: u32)
    ensures
        final(s)@ == old(s)@ + hex_text(v),
{
    proof {
        reveal_strlit("0x");
    }
    s.append("0x");
    push_hex_digits(s, v, 8);
    assert(s@ =~= old(s)@ + hex_text(v));
}

/// Appends the decimal text of `v`.
pub(crate) fn push_dec_text(s: &mut String, v: u32)
    ensures
        final(s)@ == old(s)@ + dec_text(v as nat),
    decreases v,
{
    if v >= 10 {
        push_dec_text(s, v / 10);
    }
    push_dec_digit(s, v % 10);
    assert(s@ =~= old(s)@ + dec_text(v as nat));
}

} // verus!
