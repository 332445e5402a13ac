//! Parsing one input line: the instruction word is the second
//! colon-separated field, written in hexadecimal (case-insensitive, an
//! optional leading `+`), and must fit in 16 bits. Any failure rejects the
//! line as a whole.

use vstd::prelude::*;

use crate::decode::{decode, Inst};

verus! {

/// The position of the first colon at or after `i`, or the length of `s`
/// when there is none.
pub open spec fn colon_idx(s: Seq<char>, i: int) -> int
    decreases s.len() - i,
{
    if i < 0 || i >= s.len() {
        s.len() as int
    } else if s[i] == ':' {
        i
    } else {
        colon_idx(s, i + 1)
    }
}

/// The second colon-separated field of a line: the characters between the
/// first colon and the next colon (or the end of the line). A line without
/// a colon has no such field.
pub open spec fn field_of(l: Seq<char>) -> Option<Seq<char>> {
    let c0 = colon_idx(l, 0);
    if c0 >= l.len() {
        None
    } else {
        Some(l.subrange(c0 + 1, colon_idx(l, c0 + 1)))
    }
}

/// Hexadecimal digits, either case.
pub open spec fn is_hex_digit(c: char) -> bool {
    let v = c as u32;
    (48 <= v <= 57) || (65 <= v <= 70) || (97 <= v <= 102)
}

/// The value of one hexadecimal digit.
pub open spec fn hex_val(c: char) -> u8 {
    let v = c as u32;
    if 48 <= v <= 57 {
        (v - 48) as u8
    } else if 65 <= v <= 70 {
        (v - 55) as u8
    } else {
        (v - 87) as u8
    }
}

/// The value of a string of hexadecimal digits, most significant first.
pub open spec fn parse_hex(s: Seq<char>) -> nat
    decreases s.len(),
{
    if s.len() == 0 {
        0
    } else {
        (parse_hex(s.drop_last()) * 16 + hex_val(s.last())) as nat
    }
}

/// Every character is a hexadecimal digit.
pub open spec fn all_hex(s: Seq<char>) -> bool {
    forall|i: int| 0 <= i < s.len() ==> is_hex_digit(#[trigger] s[i])
}

/// The field with an optional single leading `+` removed.
pub open spec fn strip_plus(f: Seq<char>) -> Seq<char> {
    if f.len() > 0 && f[0] == '+' {
        f.drop_first()
    } else {
        f
    }
}

/// A field parses when, after the optional sign, at least one character
/// remains, all of them are hexadecimal digits, and the value fits in 16
/// bits.
pub open spec fn hex_field_ok(f: Seq<char>) -> bool {
    let d = strip_plus(f);
    d.len() > 0 && all_hex(d) && parse_hex(d) <= 0xFFFF
}

/// What one input line converts to: the decoding of its hexadecimal field,
/// or nothing when the line has no second colon-separated field or that
/// field is not 16-bit hexadecimal.
pub open spec fn convert_spec(l: Seq<char>) -> Option<Inst> {
    match field_of(l) {
        None => None,
        Some(f) => if hex_field_ok(f) {
            Some(decode(parse_hex(strip_plus(f)) as u16))
        } else {
            None
        },
    }
}

/// The value of a prefix never exceeds the value of the whole digit string.
pub proof fn lemma_parse_hex_prefix(s: Seq<char>, k: int)
    requires
        0 <= k <= s.len(),
    ensures
        parse_hex(s.subrange(0, k)) <= parse_hex(s),
    decreases s.len() - k,
{
    if k == s.len() {
        assert(s.subrange(0, k) =~= s);
    } else {
        lemma_parse_hex_prefix(s, k + 1);
        assert(s.subrange(0, k + 1).drop_last() =~= s.subrange(0, k));
    }
}

/// Convert one input line to its decoded instruction, or `None` when the
/// line is malformed (no second colon-separated field, or a field that is
/// not hexadecimal fitting in 16 bits).
pub fn convert(l: &str) -> (r: Option<Inst>)
    ensures
        r == convert_spec(l@),
{
    let len: usize = l.unicode_len();

    // the first colon
    let mut i: usize = 0;
    while i < len && l.get_char(i) != ':'
        invariant
            0 <= i <= len,
            len == l@.len(),
            colon_idx(l@, 0) == colon_idx(l@, i as int),
        decreases len - i,
    {
        i = i + 1;
    }
    if i >= len {
        return None;
    }
    let a: usize = i + 1;

    // the end of the field: the next colon, or the end of the line
    let mut b: usize = a;
    while b < len && l.get_char(b) != ':'
        invariant
            a <= b <= len,
            len == l@.len(),
            colon_idx(l@, a as int) == colon_idx(l@, b as int),
        decreases len - b,
    {
        b = b + 1;
    }
    let ghost field = l@.subrange(a as int, b as int);
    proof {
        assert(colon_idx(l@, 0) == i);
        assert(colon_idx(l@, a as int) == b);
        assert(field_of(l@) == Some(field));
    }

    // an optional single leading sign
    let mut j: usize = a;
    if j < b && l.get_char(j) == '+' {
        j = j + 1;
    }
    let start: usize = j;
    let ghost digits = l@.subrange(start as int, b as int);
    proof {
        assert(digits =~= strip_plus(field));
    }
    if start >= b {
        // an empty field, or a lone sign: no digits
        return None;
    }

    // the digits, most significant first
    let mut k: usize = start;
    let mut val: u32 = 0;
    while k < b
        invariant
            start <= k <= b <= len,
            start < b,
            len == l@.len(),
            digits == l@.subrange(start as int, b as int),
            digits == strip_plus(field),
            field_of(l@) == Some(field),
            all_hex(l@.subrange(start as int, k as int)),
            val == parse_hex(l@.subrange(start as int, k as int)),
            val <= 0xFFFF,
        decreases b - k,
    {
        let c = l.get_char(k);
        let v: u32 = c as u32;
        let d: u32;
        if 48 <= v && v <= 57 {
            d = v - 48;
        } else if 65 <= v && v <= 70 {
            d = v - 55;
        } else if 97 <= v && v <= 102 {
            d = v - 87;
        } else {
            // not a hexadecimal digit: the whole line is rejected
            proof {
                assert(digits[k - start] == c);
                assert(!all_hex(digits));
            }
            return None;
        }
        val = val * 16 + d;
        proof {
            assert(l@.subrange(start as int, k + 1).drop_last() =~= l@.subrange(
                start as int,
                k as int,
            ));
            assert(l@.subrange(start as int, k + 1).last() == c);
            assert(l@.subrange(start as int, k + 1) =~= l@.subrange(start as int, k as int).push(
                c,
            ));
        }
        if val > 0xFFFF {
            // the value cannot fit in 16 bits, whatever digits follow
            proof {
                lemma_parse_hex_prefix(digits, k + 1 - start);
                assert(digits.subrange(0, k + 1 - start) =~= l@.subrange(start as int, k + 1));
            }
            return None;
        }
        k = k + 1;
    }
    proof {
        assert(l@.subrange(start as int, k as int) =~= digits);
    }
    Some(Inst::new(val as u16))
}

} // verus!
