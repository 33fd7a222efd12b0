//! Hexadecimal colour numbers.

use crate::text::chars_of;
use vstd::prelude::*;

verus! {

/// The value of one hexadecimal digit of either case, or nothing for any
/// other character.
pub open spec fn hex_digit_value(c: char) -> Option<u32> {
    if '0' <= c <= '9' {
        Some((c as u32 - 48) as u32)
    } else if 'a' <= c <= 'f' {
        Some((c as u32 - 87) as u32)
    } else if 'A' <= c <= 'F' {
        Some((c as u32 - 55) as u32)
    } else {
        None
    }
}

/// Every character of `s` is a hexadecimal digit.
pub open spec fn is_hex(s: Seq<char>) -> bool {
    forall|i: int| 0 <= i < s.len() ==> (#[trigger] hex_digit_value(s[i])) is Some
}

/// The number that the digits of `s` write in base 16, most significant
/// first, modulo `2^32`: digits beyond the last eight push the first ones
/// out.
pub open spec fn hex_value(s: Seq<char>) -> nat
    decreases s.len(),
{
    if s.len() == 0 {
        0
    } else {
        ((hex_value(s.drop_last()) * 16 + hex_digit_value(s.last()).unwrap()) % 0x1_0000_0000) as nat
    }
}

pub fn hex_digit(c: char) -> (d: Option<u32>)
    ensures
        d == hex_digit_value(c),
        d matches Some(v) ==> v < 16,
{
    if '0' <= c && c <= '9' {
        Some(c as u32 - 48)
    } else if 'a' <= c && c <= 'f' {
        Some(c as u32 - 87)
    } else if 'A' <= c && c <= 'F' {
        Some(c as u32 - 55)
    } else {
        None
    }
}

/// Reads `chars` as a base-16 number, as [`base16_to_unum`] reads a string.
pub fn base16_of(chars: &Vec<char>) -> (r: Option<u32>)
    ensures
        r == (if is_hex(chars@) {
            Some(hex_value(chars@) as u32)
        } else {
            None
        }),
{
    let mut num: u32 = 0;
    let mut i: usize = 0;
    while i < chars.len()
        invariant
            i <= chars.len(),
            is_hex(chars@.take(i as int)),
            num == hex_value(chars@.take(i as int)),
        decreases chars.len() - i,
    {
        let c = chars[i];
        match hex_digit(c) {
            Some(d) => {
                let shifted: u32 = num << 4;
                let next: u32 = shifted | d;
                assert(next == (num * 16 + d) % 0x1_0000_0000) by (bit_vector)
                    requires
                        d < 16,
                        shifted == num << 4,
                        next == shifted | d,
                ;
                proof {
                    let t = chars@.take(i + 1);
                    assert(t.drop_last() =~= chars@.take(i as int));
                    assert(t.last() == c);
                    assert forall|j: int| 0 <= j < t.len() implies (#[trigger] hex_digit_value(
                        t[j],
                    )) is Some by {
                        if j < i {
                            assert(chars@.take(i as int)[j] == t[j]);
                        }
                    }
                }
                num = next;
            },
            None => {
                return None;
            },
        }
        i = i + 1;
    }
    assert(chars@.take(chars@.len() as int) =~= chars@);
    Some(num)
}

/// Reads `s` as a base-16 number. Digits of both cases count; any other
/// character makes the whole string fail. The empty string is zero.
pub fn base16_to_unum(s: &str) -> (r: Option<u32>)
    ensures
        r == (if is_hex(s@) {
            Some(hex_value(s@) as u32)
        } else {
            None
        }),
{
    let chars = chars_of(s);
    base16_of(&chars)
}

/// The red, green and blue bytes of the colour number `num`: its third,
/// second and lowest byte.
pub open spec fn rgb_of(num: u32) -> [u8; 3] {
    [(num / 0x1_0000 % 0x100) as u8, (num / 0x100 % 0x100) as u8, (num % 0x100) as u8]
}

/// The red, green and blue bytes of the colour number `num`. Bits above the
/// low 24 are ignored.
pub fn num_to_rgb(num: u32) -> (rgb: [u8; 3])
    ensures
        rgb == rgb_of(num),
{
    let r: u32 = (num >> 16) & 0xff;
    let g: u32 = (num >> 8) & 0xff;
    let b: u32 = num & 0xff;
    assert(r == num / 0x1_0000 % 0x100 && g == num / 0x100 % 0x100 && b == num % 0x100)
        by (bit_vector)
        requires
            r == (num >> 16) & 0xff,
            g == (num >> 8) & 0xff,
            b == num & 0xff,
    ;
    let rgb: [u8; 3] = [r as u8, g as u8, b as u8];
    assert(rgb =~= rgb_of(num));
    rgb
}

} // verus!
