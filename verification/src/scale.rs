//! Zoom ratios as unsigned 32.32 fixed-point numbers.

use crate::position::Position;
use vstd::prelude::*;

verus! {

/// The raw value of the ratio one: `2^32`.
pub const ONE_RAW: u64 = 0x1_0000_0000;

/// `floor(x * raw / 2^32)`: the whole part of `x` times the ratio `raw / 2^32`.
pub open spec fn mul_floor(x: int, raw: int) -> int {
    x * raw / 0x1_0000_0000
}

/// `ceil(x * raw / 2^32)`.
pub open spec fn mul_ceil(x: int, raw: int) -> int {
    (x * raw + 0xffff_ffff) / 0x1_0000_0000
}

/// `ceil(num * 2^32 / den)`: the raw value of the least ratio that is no
/// smaller than `num / den`.
pub open spec fn ratio_raw(num: int, den: int) -> int {
    (num * 0x1_0000_0000 + den - 1) / den
}

/// `v` limited to what a `u32` holds.
pub open spec fn clamp_u32(v: int) -> int {
    if v > u32::MAX {
        u32::MAX as int
    } else {
        v
    }
}

/// `v` limited to the raw values of a positive ratio.
pub open spec fn clamp_raw(v: int) -> int {
    if v < 1 {
        1
    } else if v > u64::MAX {
        u64::MAX as int
    } else {
        v
    }
}

/// A ratio `raw / 2^32`. A well-formed ratio is positive.
#[derive(Debug, Clone, Copy, PartialEq, Eq, Structural)]
pub struct Scale {
    pub raw: u64,
}

impl Scale {
    /// A ratio is positive.
    pub open spec fn wf(self) -> bool {
        self.raw > 0
    }

    /// The ratio `raw / 2^32`, or nothing for zero.
    pub fn from_raw(raw: u64) -> (s: Option<Self>)
        ensures
            s == (if raw > 0 {
                Some(Scale { raw })
            } else {
                None
            }),
    {
        if raw == 0 {
            None
        } else {
            Some(Scale { raw })
        }
    }

    /// The ratio one.
    pub fn unit() -> (s: Self)
        ensures
            s.raw == ONE_RAW,
            s.wf(),
    {
        Scale { raw: ONE_RAW }
    }

    /// The least ratio that is no smaller than `num / den`; nothing where
    /// `num / den` is zero or undefined.
    pub fn from_ratio(num: u32, den: u32) -> (s: Option<Self>)
        ensures
            s is Some <==> num > 0 && den > 0,
            s matches Some(v) ==> v.raw == ratio_raw(num as int, den as int) && v.wf(),
    {
        if num == 0 || den == 0 {
            return None;
        }
        let n: u128 = (num as u128) * 0x1_0000_0000u128 + (den as u128 - 1);
        let q: u128 = n / (den as u128);
        assert(1 <= q <= 0xffff_ffff_0000_0000u128) by (nonlinear_arith)
            requires
                q == n / (den as u128),
                n == num * 0x1_0000_0000 + den - 1,
                1 <= num <= 0xffff_ffff,
                1 <= den <= 0xffff_ffff,
        ;
        Some(Scale { raw: q as u64 })
    }

    /// `x` times the ratio, rounded down, at most `u32::MAX`.
    pub fn mul_floor(self, x: u32) -> (r: u32)
        ensures
            r == clamp_u32(mul_floor(x as int, self.raw as int)),
    {
        assert((x as int) * (self.raw as int) <= 0xffff_ffff * 0xffff_ffff_ffff_ffff)
            by (nonlinear_arith);
        let p: u128 = (x as u128) * (self.raw as u128);
        let q: u128 = p / 0x1_0000_0000u128;
        if q > 0xffff_ffffu128 {
            u32::MAX
        } else {
            q as u32
        }
    }

    /// `x` times the ratio, rounded up, at most `u32::MAX`.
    pub fn mul_ceil(self, x: u32) -> (r: u32)
        ensures
            r == clamp_u32(mul_ceil(x as int, self.raw as int)),
    {
        assert((x as int) * (self.raw as int) <= 0xffff_ffff * 0xffff_ffff_ffff_ffff)
            by (nonlinear_arith);
        let p: u128 = (x as u128) * (self.raw as u128) + 0xffff_ffffu128;
        let q: u128 = p / 0x1_0000_0000u128;
        if q > 0xffff_ffffu128 {
            u32::MAX
        } else {
            q as u32
        }
    }

    /// The ratio rounded up to a whole number, at most `u32::MAX`.
    pub fn ceil(self) -> (r: u32)
        ensures
            r == clamp_u32(mul_ceil(1, self.raw as int)),
    {
        self.mul_ceil(1)
    }

    /// The product of two ratios, rounded down, kept positive.
    pub fn scaled_by(self, ratio: Scale) -> (s: Scale)
        ensures
            s.raw == clamp_raw(mul_floor(self.raw as int, ratio.raw as int)),
            s.wf(),
    {
        assert((self.raw as int) * (ratio.raw as int) <= 0xffff_ffff_ffff_ffff
            * 0xffff_ffff_ffff_ffff) by (nonlinear_arith);
        let p: u128 = (self.raw as u128) * (ratio.raw as u128);
        let q: u128 = p / 0x1_0000_0000u128;
        if q < 1 {
            Scale { raw: 1 }
        } else if q > 0xffff_ffff_ffff_ffffu128 {
            Scale { raw: u64::MAX }
        } else {
            Scale { raw: q as u64 }
        }
    }

    /// The quotient of two ratios, rounded down, kept positive and at most
    /// the largest ratio.
    pub fn divided_by(self, ratio: Scale) -> (s: Scale)
        requires
            ratio.wf(),
        ensures
            s.raw == clamp_raw((self.raw as int) * 0x1_0000_0000 / (ratio.raw as int)),
            s.wf(),
    {
        let p: u128 = (self.raw as u128) * 0x1_0000_0000u128;
        let q: u128 = p / (ratio.raw as u128);
        if q < 1 {
            Scale { raw: 1 }
        } else if q > 0xffff_ffff_ffff_ffffu128 {
            Scale { raw: u64::MAX }
        } else {
            Scale { raw: q as u64 }
        }
    }

    /// Whether this ratio is greater than `other`.
    pub fn exceeds(self, other: Scale) -> (b: bool)
        ensures
            b == (self.raw > other.raw),
    {
        self.raw > other.raw
    }
}

/// A terminal area of `term` pixels has a full scale for an image of `img`
/// pixels when the area is not empty and the image is not a single point
/// of no extent.
pub open spec fn has_full_scale(term: Position, img: Position) -> bool {
    term.x > 0 && term.y > 0 && (img.x > 0 || img.y > 0)
}

/// The raw value of the full scale: of the two ratios image width over
/// terminal width and image height over terminal height, the larger,
/// rounded up to the next representable ratio.
pub open spec fn full_scale_raw(term: Position, img: Position) -> int {
    if term.x * img.y < term.y * img.x {
        ratio_raw(img.x as int, term.x as int)
    } else {
        ratio_raw(img.y as int, term.y as int)
    }
}

/// The full scale: the least ratio by which the terminal's pixel area must
/// be multiplied to hold the whole image. Nothing where no ratio does.
pub fn get_scale(term_size: Position, img_size: Position) -> (s: Option<Scale>)
    ensures
        s is Some <==> has_full_scale(term_size, img_size),
        s matches Some(v) ==> v.raw == full_scale_raw(term_size, img_size) && v.wf(),
{
    if term_size.x == 0 || term_size.y == 0 {
        return None;
    }
    assert(term_size.x * img_size.y <= 0xffff_ffff * 0xffff_ffff && term_size.y * img_size.x
        <= 0xffff_ffff * 0xffff_ffff) by (nonlinear_arith);
    let by_width: u64 = (term_size.x as u64) * (img_size.y as u64);
    let by_height: u64 = (term_size.y as u64) * (img_size.x as u64);
    if by_width < by_height {
        assert(img_size.x > 0) by (nonlinear_arith)
            requires
                0 <= by_width < by_height,
                by_height == term_size.y * img_size.x,
        ;
        Scale::from_ratio(img_size.x, term_size.x)
    } else {
        assert(img_size.y == 0 ==> img_size.x == 0) by (nonlinear_arith)
            requires
                by_width >= by_height,
                by_height == term_size.y * img_size.x,
                by_width == term_size.x * img_size.y,
                term_size.y > 0,
        ;
        Scale::from_ratio(img_size.y, term_size.y)
    }
}

/// `den` times the least ratio above `num / den`, fractions dropped, is
/// `num` again.
pub proof fn lemma_ratio_exact(num: int, den: int)
    requires
        0 <= num,
        0 < den <= 0x1_0000_0000,
    ensures
        mul_floor(den, ratio_raw(num, den)) == num,
{
    let r = ratio_raw(num, den);
    let n = num * 0x1_0000_0000 + den - 1;
    assert(den * r <= n < den * r + den) by (nonlinear_arith)
        requires
            r == n / den,
            den > 0,
    ;
    assert(den * r / 0x1_0000_0000 == num) by (nonlinear_arith)
        requires
            num * 0x1_0000_0000 <= den * r,
            den * r < num * 0x1_0000_0000 + 0x1_0000_0000,
    ;
}

/// `other` times the least ratio above `num / den`, fractions dropped, is
/// at least `bound` whenever `other / bound` is at least `den / num`.
pub proof fn lemma_ratio_covers(num: int, den: int, other: int, bound: int)
    requires
        0 <= num,
        0 < den,
        0 <= other,
        0 <= bound,
        den * bound <= other * num,
    ensures
        mul_floor(other, ratio_raw(num, den)) >= bound,
{
    let r = ratio_raw(num, den);
    let n = num * 0x1_0000_0000 + den - 1;
    assert(den * r > n - den) by (nonlinear_arith)
        requires
            r == n / den,
            den > 0,
    ;
    assert(den * r >= num * 0x1_0000_0000);
    assert(other * r >= bound * 0x1_0000_0000) by (nonlinear_arith)
        requires
            den * r >= num * 0x1_0000_0000,
            den * bound <= other * num,
            den > 0,
            other >= 0,
            r >= 0,
            num >= 0,
            bound >= 0,
    ;
    assert(other * r / 0x1_0000_0000 >= bound) by (nonlinear_arith)
        requires
            other * r >= bound * 0x1_0000_0000,
    ;
}

/// At the full scale the terminal area covers the whole image: the scaled
/// area is no smaller than the image on either axis, and on the axis that
/// decided the scale it is exactly the image's extent.
pub proof fn lemma_full_scale_covers(term: Position, img: Position)
    requires
        has_full_scale(term, img),
    ensures
        ({
            let full = Scale { raw: full_scale_raw(term, img) as u64 };
            let area = term.scaled(full);
            &&& 0 < full_scale_raw(term, img) <= u64::MAX
            &&& area.x >= img.x
            &&& area.y >= img.y
            &&& term.x * img.y < term.y * img.x ==> area.x == img.x
            &&& term.x * img.y >= term.y * img.x ==> area.y == img.y
        }),
{
    let (tw, th, iw, ih) = (term.x as int, term.y as int, img.x as int, img.y as int);
    if tw * ih < th * iw {
        assert(iw > 0) by (nonlinear_arith)
            requires
                0 <= tw * ih < th * iw,
                th > 0,
        ;
        lemma_ratio_bounds(iw, tw);
        lemma_ratio_exact(iw, tw);
        lemma_ratio_covers(iw, tw, th, ih);
    } else {
        assert(ih > 0) by (nonlinear_arith)
            requires
                tw * ih >= th * iw,
                th > 0,
                tw > 0,
                iw > 0 || ih > 0,
                iw >= 0,
                ih >= 0,
        ;
        lemma_ratio_bounds(ih, th);
        lemma_ratio_exact(ih, th);
        assert(th * iw <= tw * ih);
        lemma_ratio_covers(ih, th, tw, iw);
    }
}

/// No smaller ratio than the full scale covers the image: at any such ratio
/// the scaled terminal area falls short of the image on the axis that
/// decided the scale.
pub proof fn lemma_full_scale_least(term: Position, img: Position, smaller: Scale)
    requires
        has_full_scale(term, img),
        smaller.raw < full_scale_raw(term, img),
    ensures
        term.x * img.y < term.y * img.x ==> term.scaled(smaller).x < img.x,
        term.x * img.y >= term.y * img.x ==> term.scaled(smaller).y < img.y,
{
    let (num, den) = if term.x * img.y < term.y * img.x {
        (img.x as int, term.x as int)
    } else {
        (img.y as int, term.y as int)
    };
    let raw = smaller.raw as int;
    let n = num * 0x1_0000_0000 + den - 1;
    assert(den * raw < num * 0x1_0000_0000) by (nonlinear_arith)
        requires
            raw < n / den,
            n == num * 0x1_0000_0000 + den - 1,
            den > 0,
            raw >= 0,
    ;
    assert(den * raw / 0x1_0000_0000 < num) by (nonlinear_arith)
        requires
            den * raw < num * 0x1_0000_0000,
    ;
}

/// The least ratio above a positive `num / den` of 32-bit numbers is
/// positive and fits 64 bits.
pub proof fn lemma_ratio_bounds(num: int, den: int)
    requires
        0 < num <= u32::MAX,
        0 < den <= u32::MAX,
    ensures
        0 < ratio_raw(num, den) <= 0xffff_ffff_0000_0000,
{
    let n = num * 0x1_0000_0000 + den - 1;
    assert(1 <= n / den <= 0xffff_ffff_0000_0000) by (nonlinear_arith)
        requires
            n == num * 0x1_0000_0000 + den - 1,
            1 <= num <= 0xffff_ffff,
            1 <= den <= 0xffff_ffff,
    ;
}

} // verus!
