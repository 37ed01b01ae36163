use vstd::prelude::*;
use vstd::string::*;

use crate::encoded::{EncodedColor, rgba_of};

verus! {

/// The character for digit `d` (below 16), in lower or upper case.
pub open spec fn digit_char(d: nat, upper: bool) -> char {
    if d < 10 {
        (d + 48) as char
    } else if upper {
        (d + 55) as char
    } else {
        (d + 87) as char
    }
}

/// The hexadecimal digits of `n`, most significant first, without leading
/// zeros (a single `0` for zero).
pub open spec fn hex_digits(n: nat, upper: bool) -> Seq<char>
    decreases n,
{
    if n < 16 {
        seq![digit_char(n, upper)]
    } else {
        hex_digits(n / 16, upper).push(digit_char(n % 16, upper))
    }
}

/// The decimal digits of `n`, most significant first, without leading zeros.
pub open spec fn decimal_digits(n: nat) -> Seq<char>
    decreases n,
{
    if n < 10 {
        seq![digit_char(n, false)]
    } else {
        decimal_digits(n / 10).push(digit_char(n % 10, false))
    }
}

/// A string holding the single digit `d`.
fn digit_str(d: u32, upper: bool) -> (res: &'static str)
    requires
        d < 16,
    ensures
        res@ == seq![digit_char(d as nat, upper)],
{
    let table = if upper {
        "0123456789ABCDEF"
    } else {
        "0123456789abcdef"
    };
    proof {
        reveal_strlit("0123456789ABCDEF");
        reveal_strlit("0123456789abcdef");
    }
    let res = table.substring_ascii(d as usize, d as usize + 1);
    assert(res@ =~= seq![digit_char(d as nat, upper)]);
    res
}

fn append_hex(s: &mut String, n: u32, upper: bool)
    ensures
        final(s)@ == old(s)@ + hex_digits(n as nat, upper),
    decreases n,
{
    if n >= 16 {
        append_hex(s, n / 16, upper);
    }
    s.append(digit_str(n % 16, upper));
}

fn append_decimal(s: &mut String, n: u32)
    ensures
        final(s)@ == old(s)@ + decimal_digits(n as nat),
    decreases n,
{
    if n >= 10 {
        append_decimal(s, n / 10);
    }
    s.append(digit_str(n % 10, false));
}

/// The prefix that marks a hexadecimal number in alternate form.
pub open spec fn hex_prefix(prefixed: bool) -> Seq<char> {
    if prefixed {
        seq!['0', 'x']
    } else {
        Seq::empty()
    }
}

/// The human-readable text of a color: each channel in decimal, then the
/// `rgba` packing in lower-case hexadecimal.
pub open spec fn display_text(c: EncodedColor) -> Seq<char> {
    "r: "@ + decimal_digits(c.r as nat) + ", g: "@ + decimal_digits(c.g as nat) + ", b: "@
        + decimal_digits(c.b as nat) + ", a: "@ + decimal_digits(c.a as nat) + ", "@ + hex_digits(
        rgba_of(c) as nat,
        false,
    )
}

fn new_text(prefixed: bool) -> (res: String)
    ensures
        res@ == hex_prefix(prefixed),
{
    let mut res = String::new();
    if prefixed {
        proof {
            reveal_strlit("0x");
        }
        res.append("0x");
        assert(res@ =~= hex_prefix(prefixed));
    }
    res
}

impl EncodedColor {
    /// The `rgba` packing of this color in lower-case hexadecimal, without
    /// leading zeros, after `0x` when `prefixed`.
    pub fn to_lower_hex(self, prefixed: bool) -> (res: String)
        ensures
            res@ == hex_prefix(prefixed) + hex_digits(rgba_of(self) as nat, false),
    {
        let mut res = new_text(prefixed);
        append_hex(&mut res, self.to_rgba_u32(), false);
        res
    }

    /// The `rgba` packing of this color in upper-case hexadecimal, without
    /// leading zeros, after `0x` when `prefixed`.
    pub fn to_upper_hex(self, prefixed: bool) -> (res: String)
        ensures
            res@ == hex_prefix(prefixed) + hex_digits(rgba_of(self) as nat, true),
    {
        let mut res = new_text(prefixed);
        append_hex(&mut res, self.to_rgba_u32(), true);
        res
    }

    /// The human-readable text of this color, such as
    /// `r: 107, g: 158, b: 190, a: 255, 6b9ebeff`.
    pub fn to_display_string(self) -> (res: String)
        ensures
            res@ == display_text(self),
    {
        let mut res = String::new();
        res.append("r: ");
        append_decimal(&mut res, self.r as u32);
        res.append(", g: ");
        append_decimal(&mut res, self.g as u32);
        res.append(", b: ");
        append_decimal(&mut res, self.b as u32);
        res.append(", a: ");
        append_decimal(&mut res, self.a as u32);
        res.append(", ");
        append_hex(&mut res, self.to_rgba_u32(), false);
        assert(res@ =~= display_text(self));
        res
    }
}

} // verus!
