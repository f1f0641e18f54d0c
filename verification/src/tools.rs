//! Helpers for reading the register and memory dumps of a reference LC-3
//! simulator.

pub mod text;
pub mod dump;

use vstd::prelude::*;

verus! {

/// The value of an upper-case hexadecimal digit; any other character
/// counts as zero.
pub open spec fn hex_digit_value(c: char) -> nat {
    if '0' <= c && c <= '9' {
        (c as nat - '0' as nat) as nat
    } else if 'A' <= c && c <= 'F' {
        (c as nat - 'A' as nat + 10) as nat
    } else {
        0
    }
}

/// The place value of the `i`th character: the first three characters are
/// worth 16^3, 16^2 and 16; every later one is worth 1.
pub open spec fn hex_place(i: int) -> nat {
    if i == 0 {
        4096
    } else if i == 1 {
        256
    } else if i == 2 {
        16
    } else {
        1
    }
}

/// The value `hex_string_to_integer` computes from the first `n`
/// characters of `cs`.
pub open spec fn hex_prefix_value(cs: Seq<char>, n: int) -> nat
    decreases n,
{
    if n <= 0 {
        0
    } else {
        hex_prefix_value(cs, n - 1) + hex_digit_value(cs[n - 1]) * hex_place(n - 1)
    }
}

/// The value of a whole string.
pub open spec fn hex_value(cs: Seq<char>) -> nat {
    hex_prefix_value(cs, cs.len() as int)
}

/// The values of prefixes never decrease.
proof fn lemma_hex_prefix_monotone(cs: Seq<char>, m: int, n: int)
    requires
        0 <= m <= n <= cs.len(),
    ensures
        hex_prefix_value(cs, m) <= hex_prefix_value(cs, n),
    decreases n - m,
{
    if m < n {
        lemma_hex_prefix_monotone(cs, m, n - 1);
    }
}

/// The upper-case hexadecimal digit for `d` (below 16).
pub open spec fn hex_char(d: int) -> char {
    seq!['0', '1', '2', '3', '4', '5', '6', '7', '8', '9', 'A', 'B', 'C', 'D', 'E', 'F'][d]
}

/// The four-digit upper-case hexadecimal spelling of a word, most
/// significant digit first.
pub open spec fn hex_spelling(w: u16) -> Seq<char> {
    seq![hex_char(w as int / 4096), hex_char((w as int / 256) % 16), hex_char((w as int / 16) % 16), hex_char(w as int % 16)]
}

/// Each upper-case hex digit is worth its place in the digit sequence
/// `0123456789ABCDEF`.
pub proof fn lemma_hex_digit_values(d: int)
    requires
        0 <= d < 16,
    ensures
        hex_digit_value(hex_char(d)) == d,
{
    if d == 0 { assert(hex_digit_value('0') == 0); }
    else if d == 1 { assert(hex_digit_value('1') == 1); }
    else if d == 2 { assert(hex_digit_value('2') == 2); }
    else if d == 3 { assert(hex_digit_value('3') == 3); }
    else if d == 4 { assert(hex_digit_value('4') == 4); }
    else if d == 5 { assert(hex_digit_value('5') == 5); }
    else if d == 6 { assert(hex_digit_value('6') == 6); }
    else if d == 7 { assert(hex_digit_value('7') == 7); }
    else if d == 8 { assert(hex_digit_value('8') == 8); }
    else if d == 9 { assert(hex_digit_value('9') == 9); }
    else if d == 10 { assert(hex_digit_value('A') == 10); }
    else if d == 11 { assert(hex_digit_value('B') == 11); }
    else if d == 12 { assert(hex_digit_value('C') == 12); }
    else if d == 13 { assert(hex_digit_value('D') == 13); }
    else if d == 14 { assert(hex_digit_value('E') == 14); }
    else { assert(hex_digit_value('F') == 15); }
}

/// Reading the four-digit upper-case hex spelling of any word gives the
/// word back.
pub proof fn lemma_hex_spelling_reads_back(w: u16)
    ensures
        hex_value(hex_spelling(w)) == w,
{
    let s = hex_spelling(w);
    let (d0, d1, d2, d3) = (w as int / 4096, (w as int / 256) % 16, (w as int / 16) % 16, w as int % 16);
    assert(0 <= d0 < 16 && 0 <= d1 < 16 && 0 <= d2 < 16 && 0 <= d3 < 16) by (nonlinear_arith)
        requires
            0 <= w < 65536,
            d0 == w as int / 4096,
            d1 == (w as int / 256) % 16,
            d2 == (w as int / 16) % 16,
            d3 == w as int % 16,
    ;
    lemma_hex_digit_values(d0);
    lemma_hex_digit_values(d1);
    lemma_hex_digit_values(d2);
    lemma_hex_digit_values(d3);
    assert(d0 * 4096 + d1 * 256 + d2 * 16 + d3 == w) by (nonlinear_arith)
        requires
            0 <= w < 65536,
            d0 == w as int / 4096,
            d1 == (w as int / 256) % 16,
            d2 == (w as int / 16) % 16,
            d3 == w as int % 16,
    ;
    reveal_with_fuel(hex_prefix_value, 5);
    assert(s[0] == hex_char(d0) && s[1] == hex_char(d1) && s[2] == hex_char(d2) && s[3] == hex_char(d3));
}

/// The digit value of one character.
fn hex_digit(c: char) -> (d: u32)
    ensures
        d == hex_digit_value(c),
        d <= 15,
{
    match c {
        'F' => 15,
        'E' => 14,
        'D' => 13,
        'C' => 12,
        'B' => 11,
        'A' => 10,
        '9' => 9,
        '8' => 8,
        '7' => 7,
        '6' => 6,
        '5' => 5,
        '4' => 4,
        '3' => 3,
        '2' => 2,
        '1' => 1,
        _ => 0,
    }
}

/// 16 to the power `ctr` (for `ctr` at most 3).
fn pow16(ctr: u32) -> (p: u32)
    requires
        ctr <= 3,
    ensures
        p == hex_place(3 - ctr),
        p <= 4096,
{
    if ctr == 3 {
        4096
    } else if ctr == 2 {
        256
    } else if ctr == 1 {
        16
    } else {
        1
    }
}

/// Reads the four hex digits of an LC-3 word (upper case digits; other
/// characters count as zero). Characters past the fourth are each added
/// with place value one.
pub fn hex_string_to_integer(s: &str) -> (v: u32)
    requires
        hex_value(s@) <= u32::MAX,
    ensures
        v == hex_value(s@),
{
    let len = s.unicode_len();
    let mut ctr: u32 = 3;
    let mut value: u32 = 0;
    let mut i: usize = 0;
    while i < len
        invariant
            len == s@.len(),
            0 <= i <= len,
            hex_value(s@) <= u32::MAX,
            value == hex_prefix_value(s@, i as int),
            ctr <= 3,
            hex_place(i as int) == pow16_place(ctr),
            i < 3 ==> ctr == 3 - i,
            i >= 3 ==> ctr == 0,
        decreases len - i,
    {
        let c = s.get_char(i);
        proof {
            lemma_hex_prefix_monotone(s@, i as int + 1, s@.len() as int);
        }
        value = value + hex_digit(c) * pow16(ctr);
        if ctr > 0 {
            ctr = ctr - 1;
        }
        i = i + 1;
    }
    value
}

/// The place value `16^ctr` as a function of the counter.
pub open spec fn pow16_place(ctr: u32) -> nat {
    hex_place(3 - ctr)
}

/// The value of `s`, as `hex_string_to_integer` computes it, or `None`
/// where it does not fit in a `u32`.
pub fn hex_string_to_integer_checked(s: &str) -> (r: Option<u32>)
    ensures
        r is Some <==> hex_value(s@) <= u32::MAX,
        r matches Some(v) ==> v == hex_value(s@),
{
    let len = s.unicode_len();
    let mut ctr: u32 = 3;
    let mut value: u32 = 0;
    let mut i: usize = 0;
    while i < len
        invariant
            len == s@.len(),
            0 <= i <= len,
            value == hex_prefix_value(s@, i as int),
            ctr <= 3,
            hex_place(i as int) == pow16_place(ctr),
            i < 3 ==> ctr == 3 - i,
            i >= 3 ==> ctr == 0,
        decreases len - i,
    {
        let c = s.get_char(i);
        let d = hex_digit(c);
        let place = pow16(ctr);
        assert(d * place <= 15 * 4096) by (nonlinear_arith)
            requires
                d <= 15,
                place <= 4096,
        ;
        let term = d * place;
        match value.checked_add(term) {
            Some(v) => {
                value = v;
            },
            None => {
                proof {
                    lemma_hex_prefix_monotone(s@, i as int + 1, s@.len() as int);
                }
                return None;
            },
        }
        if ctr > 0 {
            ctr = ctr - 1;
        }
        i = i + 1;
    }
    Some(value)
}

} // verus!
