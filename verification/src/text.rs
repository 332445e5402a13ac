//! Rendering numbers as text: uppercase hexadecimal (fixed four digits and
//! minimal width) and fixed-width binary, the only numeric formats the
//! listing uses.

use vstd::prelude::*;

verus! {

/// The sixteen digit characters, shared by the hexadecimal, decimal and
/// binary renderings (registers are 0-7, bits are 0-1: both are prefixes of
/// the hexadecimal alphabet).
pub open spec fn digit_char(d: u8) -> char {
    if d == 0 {
        '0'
    } else if d == 1 {
        '1'
    } else if d == 2 {
        '2'
    } else if d == 3 {
        '3'
    } else if d == 4 {
        '4'
    } else if d == 5 {
        '5'
    } else if d == 6 {
        '6'
    } else if d == 7 {
        '7'
    } else if d == 8 {
        '8'
    } else if d == 9 {
        '9'
    } else if d == 10 {
        'A'
    } else if d == 11 {
        'B'
    } else if d == 12 {
        'C'
    } else if d == 13 {
        'D'
    } else if d == 14 {
        'E'
    } else {
        'F'
    }
}

/// A masked value never exceeds its mask.
pub proof fn lemma_u8_and_le(x: u8, m: u8)
    ensures
        x & m <= m,
{
    assert(x & m <= m) by (bit_vector);
}

/// A masked value never exceeds its mask.
pub proof fn lemma_u16_and_le(x: u16, m: u16)
    ensures
        x & m <= m,
{
    assert(x & m <= m) by (bit_vector);
}

/// One digit as text.
pub fn digit_str(d: u8) -> (r: &'static str)
    requires
        d < 16,
    ensures
        r@ == seq![digit_char(d)],
{
    let r: &'static str = match d {
        0 => "0",
        1 => "1",
        2 => "2",
        3 => "3",
        4 => "4",
        5 => "5",
        6 => "6",
        7 => "7",
        8 => "8",
        9 => "9",
        10 => "A",
        11 => "B",
        12 => "C",
        13 => "D",
        14 => "E",
        _ => "F",
    };
    proof {
        reveal_strlit("0");
        reveal_strlit("1");
        reveal_strlit("2");
        reveal_strlit("3");
        reveal_strlit("4");
        reveal_strlit("5");
        reveal_strlit("6");
        reveal_strlit("7");
        reveal_strlit("8");
        reveal_strlit("9");
        reveal_strlit("A");
        reveal_strlit("B");
        reveal_strlit("C");
        reveal_strlit("D");
        reveal_strlit("E");
        reveal_strlit("F");
        assert(r@ =~= seq![digit_char(d)]);
    }
    r
}

/// A word as exactly four uppercase hexadecimal digits (zero-padded).
pub open spec fn hex4(w: u16) -> Seq<char> {
    seq![
        digit_char(((w >> 12) & 0xF) as u8),
        digit_char(((w >> 8) & 0xF) as u8),
        digit_char(((w >> 4) & 0xF) as u8),
        digit_char((w & 0xF) as u8),
    ]
}

/// A word as uppercase hexadecimal digits of minimal width (no leading
/// zeros; the value zero is the single digit `0`).
pub open spec fn hex_var(w: u16) -> Seq<char> {
    if w < 0x10 {
        seq![digit_char((w & 0xF) as u8)]
    } else if w < 0x100 {
        seq![digit_char(((w >> 4) & 0xF) as u8), digit_char((w & 0xF) as u8)]
    } else if w < 0x1000 {
        seq![
            digit_char(((w >> 8) & 0xF) as u8),
            digit_char(((w >> 4) & 0xF) as u8),
            digit_char((w & 0xF) as u8),
        ]
    } else {
        hex4(w)
    }
}

/// A 6-bit pattern as exactly six binary digits.
pub open spec fn bin6(b: u8) -> Seq<char> {
    seq![
        digit_char((b >> 5) & 1),
        digit_char((b >> 4) & 1),
        digit_char((b >> 3) & 1),
        digit_char((b >> 2) & 1),
        digit_char((b >> 1) & 1),
        digit_char(b & 1),
    ]
}

/// A 5-bit pattern as exactly five binary digits.
pub open spec fn bin5(b: u8) -> Seq<char> {
    seq![
        digit_char((b >> 4) & 1),
        digit_char((b >> 3) & 1),
        digit_char((b >> 2) & 1),
        digit_char((b >> 1) & 1),
        digit_char(b & 1),
    ]
}

/// Render a word as four zero-padded uppercase hexadecimal digits.
pub fn hex4_str(w: u16) -> (r: String)
    ensures
        r@ == hex4(w),
{
    proof {
        lemma_u16_and_le(w >> 12, 0xF);
        lemma_u16_and_le(w >> 8, 0xF);
        lemma_u16_and_le(w >> 4, 0xF);
        lemma_u16_and_le(w, 0xF);
    }
    let mut s = String::from_str(digit_str(((w >> 12) & 0xF) as u8));
    s.append(digit_str(((w >> 8) & 0xF) as u8));
    s.append(digit_str(((w >> 4) & 0xF) as u8));
    s.append(digit_str((w & 0xF) as u8));
    proof {
        assert(s@ =~= hex4(w));
    }
    s
}

/// Render a word as minimal-width uppercase hexadecimal digits.
pub fn hex_var_str(w: u16) -> (r: String)
    ensures
        r@ == hex_var(w),
{
    proof {
        lemma_u16_and_le(w >> 12, 0xF);
        lemma_u16_and_le(w >> 8, 0xF);
        lemma_u16_and_le(w >> 4, 0xF);
        lemma_u16_and_le(w, 0xF);
    }
    if w < 0x10 {
        let s = String::from_str(digit_str((w & 0xF) as u8));
        proof {
            assert(s@ =~= hex_var(w));
        }
        s
    } else if w < 0x100 {
        let mut s = String::from_str(digit_str(((w >> 4) & 0xF) as u8));
        s.append(digit_str((w & 0xF) as u8));
        proof {
            assert(s@ =~= hex_var(w));
        }
        s
    } else if w < 0x1000 {
        let mut s = String::from_str(digit_str(((w >> 8) & 0xF) as u8));
        s.append(digit_str(((w >> 4) & 0xF) as u8));
        s.append(digit_str((w & 0xF) as u8));
        proof {
            assert(s@ =~= hex_var(w));
        }
        s
    } else {
        hex4_str(w)
    }
}

/// Render a 6-bit pattern as six binary digits.
pub fn bin6_str(b: u8) -> (r: String)
    ensures
        r@ == bin6(b),
{
    proof {
        lemma_u8_and_le(b >> 5, 1);
        lemma_u8_and_le(b >> 4, 1);
        lemma_u8_and_le(b >> 3, 1);
        lemma_u8_and_le(b >> 2, 1);
        lemma_u8_and_le(b >> 1, 1);
        lemma_u8_and_le(b, 1);
    }
    let mut s = String::from_str(digit_str((b >> 5) & 1));
    s.append(digit_str((b >> 4) & 1));
    s.append(digit_str((b >> 3) & 1));
    s.append(digit_str((b >> 2) & 1));
    s.append(digit_str((b >> 1) & 1));
    s.append(digit_str(b & 1));
    proof {
        assert(s@ =~= bin6(b));
    }
    s
}

/// Render a 5-bit pattern as five binary digits.
pub fn bin5_str(b: u8) -> (r: String)
    ensures
        r@ == bin5(b),
{
    proof {
        lemma_u8_and_le(b >> 4, 1);
        lemma_u8_and_le(b >> 3, 1);
        lemma_u8_and_le(b >> 2, 1);
        lemma_u8_and_le(b >> 1, 1);
        lemma_u8_and_le(b, 1);
    }
    let mut s = String::from_str(digit_str((b >> 4) & 1));
    s.append(digit_str((b >> 3) & 1));
    s.append(digit_str((b >> 2) & 1));
    s.append(digit_str((b >> 1) & 1));
    s.append(digit_str(b & 1));
    proof {
        assert(s@ =~= bin5(b));
    }
    s
}

} // verus!
