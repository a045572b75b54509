//! Rendering of numbers as decimal and hexadecimal strings.
//!
//! Destination file names carry zero-padded date fields and lowercase hex
//! digests, so the exact character sequences matter and are specified here.

use vstd::prelude::*;

verus! {

/// The decimal digit character for a value below ten.
pub open spec fn dec_digit(d: int) -> char {
    if d == 0 {
        '0'
    } else if d == 1 {
        '1'
    } else if d == 2 {
        '2'
    } else if d == 3 {
        '3'
    } else if d == 4 {
        '4'
    } else if d == 5 {
        '5'
    } else if d == 6 {
        '6'
    } else if d == 7 {
        '7'
    } else if d == 8 {
        '8'
    } else {
        '9'
    }
}

/// The decimal rendering of a non-negative number, without leading zeros
/// (zero itself renders as a single digit).
pub open spec fn dec_str(n: int) -> Seq<char>
    decreases n,
{
    if n < 10 {
        seq![dec_digit(n)]
    } else {
        dec_str(n / 10) + seq![dec_digit(n % 10)]
    }
}

/// The decimal rendering zero-padded to at least two digits.
pub open spec fn dec_str_pad2(n: int) -> Seq<char> {
    if 0 <= n < 10 {
        seq!['0', dec_digit(n)]
    } else {
        dec_str(n)
    }
}

/// The lowercase hexadecimal digit character for a value below sixteen.
pub open spec fn hex_digit(d: int) -> char {
    if d < 10 {
        dec_digit(d)
    } else if d == 10 {
        'a'
    } else if d == 11 {
        'b'
    } else if d == 12 {
        'c'
    } else if d == 13 {
        'd'
    } else if d == 14 {
        'e'
    } else {
        'f'
    }
}

/// The lowercase hexadecimal rendering of a byte string: two digits per
/// byte, most significant nibble first.
pub open spec fn hex_str_of_bytes(s: Seq<u8>) -> Seq<char>
    decreases s.len(),
{
    if s.len() == 0 {
        Seq::empty()
    } else {
        hex_str_of_bytes(s.drop_last()) + seq![
            hex_digit(s.last() as int / 16),
            hex_digit(s.last() as int % 16),
        ]
    }
}

/// The lowercase hexadecimal rendering of a number in exactly `width`
/// digits, zero-padded on the left.
pub open spec fn hex_str_fixed(n: int, width: nat) -> Seq<char>
    decreases width,
{
    if width == 0 {
        Seq::empty()
    } else {
        hex_str_fixed(n / 16, (width - 1) as nat) + seq![hex_digit(n % 16)]
    }
}

/// One decimal digit as a string slice.
fn dec_digit_str(d: u64) -> (r: &'static str)
    requires
        d < 10,
    ensures
        r@ == seq![dec_digit(d as int)],
{
    proof {
        reveal_strlit("0");
        reveal_strlit("1");
        reveal_strlit("2");
        reveal_strlit("3");
        reveal_strlit("4");
        reveal_strlit("5");
        reveal_strlit("6");
        reveal_strlit("7");
        reveal_strlit("8");
        reveal_strlit("9");
    }
    match d {
        0 => "0",
        1 => "1",
        2 => "2",
        3 => "3",
        4 => "4",
        5 => "5",
        6 => "6",
        7 => "7",
        8 => "8",
        _ => "9",
    }
}

/// One lowercase hexadecimal digit as a string slice.
fn hex_digit_str(d: u64) -> (r: &'static str)
    requires
        d < 16,
    ensures
        r@ == seq![hex_digit(d as int)],
{
    proof {
        reveal_strlit("a");
        reveal_strlit("b");
        reveal_strlit("c");
        reveal_strlit("d");
        reveal_strlit("e");
        reveal_strlit("f");
    }
    if d < 10 {
        dec_digit_str(d)
    } else {
        match d {
            10 => "a",
            11 => "b",
            12 => "c",
            13 => "d",
            14 => "e",
            _ => "f",
        }
    }
}

/// Renders a number in decimal, without leading zeros.
pub fn decimal_string(n: u64) -> (r: String)
    ensures
        r@ == dec_str(n as int),
    decreases n,
{
    if n < 10 {
        dec_digit_str(n).to_owned()
    } else {
        let mut s = decimal_string(n / 10);
        s.append(dec_digit_str(n % 10));
        s
    }
}

/// Renders a number in decimal, zero-padded to at least two digits.
pub fn decimal_string_pad2(n: u64) -> (r: String)
    ensures
        r@ == dec_str_pad2(n as int),
{
    if n < 10 {
        proof {
            reveal_strlit("0");
        }
        let mut s = String::from_str("0");
        s.append(dec_digit_str(n));
        proof {
            assert(s@ =~= dec_str_pad2(n as int));
        }
        s
    } else {
        decimal_string(n)
    }
}

/// Renders a byte string as lowercase hexadecimal, two digits per byte.
pub fn hex_string_of_bytes(bytes: &Vec<u8>) -> (r: String)
    ensures
        r@ == hex_str_of_bytes(bytes@),
{
    let mut s = String::new();
    let mut i: usize = 0;
    while i < bytes.len()
        invariant
            i <= bytes.len(),
            s@ == hex_str_of_bytes(bytes@.take(i as int)),
        decreases bytes.len() - i,
    {
        let b = bytes[i];
        s.append(hex_digit_str(b as u64 / 16));
        s.append(hex_digit_str(b as u64 % 16));
        proof {
            assert(bytes@.take(i + 1).drop_last() =~= bytes@.take(i as int));
            assert(bytes@.take(i + 1).last() == bytes@[i as int]);
        }
        i += 1;
    }
    proof {
        assert(bytes@.take(bytes@.len() as int) =~= bytes@);
    }
    s
}

/// Decimal renderings are non-empty and consist of digit characters.
pub proof fn lemma_dec_str_digits(n: int)
    requires
        n >= 0,
    ensures
        dec_str(n).len() > 0,
        forall|i: int| 0 <= i < dec_str(n).len() ==> '0' <= #[trigger] dec_str(n)[i] <= '9',
    decreases n,
{
    if n >= 10 {
        lemma_dec_str_digits(n / 10);
    }
}

/// Two-digit-padded decimal renderings are non-empty and consist of digit
/// characters.
pub proof fn lemma_dec_str_pad2_digits(n: int)
    requires
        n >= 0,
    ensures
        dec_str_pad2(n).len() >= 2,
        forall|i: int|
            0 <= i < dec_str_pad2(n).len() ==> '0' <= #[trigger] dec_str_pad2(n)[i] <= '9',
{
    lemma_dec_str_digits(n);
    if n >= 10 {
        assert(dec_str(n) == dec_str(n / 10) + seq![dec_digit(n % 10)]);
        lemma_dec_str_digits(n / 10);
    }
}

/// Renders a number in exactly `width` lowercase hexadecimal digits,
/// zero-padded on the left.
pub fn hex_string_fixed(n: u64, width: u64) -> (r: String)
    ensures
        r@ == hex_str_fixed(n as int, width as nat),
    decreases width,
{
    if width == 0 {
        String::new()
    } else {
        let mut s = hex_string_fixed(n / 16, width - 1);
        s.append(hex_digit_str(n % 16));
        s
    }
}

/// Renders a number as exactly eight lowercase hexadecimal digits,
/// zero-padded on the left: the rendering of a 32-bit checksum.
pub fn hex_string_u32_pad8(n: u32) -> (r: String)
    ensures
        r@ == hex_str_fixed(n as int, 8),
{
    hex_string_fixed(n as u64, 8)
}

} // verus!
