//! Colours: blending over a background, similarity under a tolerance, and
//! the text that shows a colour on a terminal.

use crate::text::{decimal, decimal3, hex2, push_decimal, push_decimal3, push_hex2, push_str, string_of};
use vstd::prelude::*;

verus! {

/// Red, green and blue.
pub type Rgb = [u8; 3];

/// Red, green, blue and alpha.
pub type Rgba = [u8; 4];

/// One channel of `fg` laid over `bg` with opacity `alpha / 255`, the
/// fraction dropped: `floor((fg * alpha + bg * (255 - alpha)) / 255)`.
pub open spec fn blend(fg: int, bg: int, alpha: int) -> int {
    (fg * alpha + bg * (255 - alpha)) / 255
}

/// The opaque colour of `foreground` laid over `background`.
pub open spec fn composite(foreground: Seq<u8>, background: Seq<u8>) -> Seq<u8> {
    seq![
        blend(foreground[0] as int, background[0] as int, foreground[3] as int) as u8,
        blend(foreground[1] as int, background[1] as int, foreground[3] as int) as u8,
        blend(foreground[2] as int, background[2] as int, foreground[3] as int) as u8,
    ]
}

/// A blended channel lies between its two inputs, so it is a byte. Full
/// opacity gives the foreground and none gives the background.
pub proof fn lemma_blend(fg: int, bg: int, alpha: int)
    requires
        0 <= fg <= 255,
        0 <= bg <= 255,
        0 <= alpha <= 255,
    ensures
        0 <= blend(fg, bg, alpha) <= 255,
        fg <= bg ==> fg <= blend(fg, bg, alpha) <= bg,
        bg <= fg ==> bg <= blend(fg, bg, alpha) <= fg,
        blend(fg, bg, 255) == fg,
        blend(fg, bg, 0) == bg,
{
    let n = fg * alpha + bg * (255 - alpha);
    assert(fg <= bg ==> fg * 255 <= n <= bg * 255) by (nonlinear_arith)
        requires
            n == fg * alpha + bg * (255 - alpha),
            0 <= alpha <= 255,
    ;
    assert(bg <= fg ==> bg * 255 <= n <= fg * 255) by (nonlinear_arith)
        requires
            n == fg * alpha + bg * (255 - alpha),
            0 <= alpha <= 255,
    ;
    assert(fg * 255 + bg * (255 - 255) == fg * 255);
    assert(fg * 0 + bg * (255 - 0) == bg * 255);
}

fn blend_channel(fg: u8, bg: u8, alpha: u8) -> (out: u8)
    ensures
        out == blend(fg as int, bg as int, alpha as int),
{
    proof {
        lemma_blend(fg as int, bg as int, alpha as int);
    }
    assert(fg * alpha <= 255 * 255 && bg * (255 - alpha) <= 255 * 255) by (nonlinear_arith)
        requires
            0 <= fg <= 255,
            0 <= bg <= 255,
            0 <= alpha <= 255,
    ;
    let n: u32 = (fg as u32) * (alpha as u32) + (bg as u32) * (255 - alpha as u32);
    (n / 255) as u8
}

/// Lays `foreground` over `background`. A fully opaque foreground comes
/// back unchanged, a fully transparent one gives the background.
pub fn rgba_to_rgb(foreground: Rgba, background: Rgb) -> (out: Rgb)
    ensures
        out@ == composite(foreground@, background@),
        foreground[3] == 255 ==> out@ == foreground@.take(3),
        foreground[3] == 0 ==> out@ == background@,
{
    let alpha = foreground[3];
    let out: Rgb = [
        blend_channel(foreground[0], background[0], alpha),
        blend_channel(foreground[1], background[1], alpha),
        blend_channel(foreground[2], background[2], alpha),
    ];
    proof {
        lemma_blend(foreground[0] as int, background[0] as int, alpha as int);
        lemma_blend(foreground[1] as int, background[1] as int, alpha as int);
        lemma_blend(foreground[2] as int, background[2] as int, alpha as int);
        assert(out@ =~= composite(foreground@, background@));
        if alpha == 255 {
            assert(out@ =~= foreground@.take(3));
        }
        if alpha == 0 {
            assert(out@ =~= background@);
        }
    }
    out
}

/// The squared distance of two colours, with red weighing 3, green 4 and
/// blue 2.
pub open spec fn distance_sq(a: Seq<u8>, b: Seq<u8>) -> int {
    3 * ((a[0] - b[0]) * (a[0] - b[0])) + 4 * ((a[1] - b[1]) * (a[1] - b[1])) + 2 * ((a[2]
        - b[2]) * (a[2] - b[2]))
}

/// Two colours are similar under `tolerance` when their distance, the
/// fraction dropped, is at most `tolerance`.
pub open spec fn similar_rgb(a: Seq<u8>, b: Seq<u8>, tolerance: int) -> bool {
    distance_sq(a, b) < (tolerance + 1) * (tolerance + 1)
}

fn square_diff(a: u8, b: u8) -> (r: u64)
    ensures
        r == (a - b) * (a - b),
        r <= 255 * 255,
{
    let d: u64 = if a < b {
        (b - a) as u64
    } else {
        (a - b) as u64
    };
    assert(d * d == (a - b) * (a - b) && d * d <= 255 * 255) by (nonlinear_arith)
        requires
            d == a - b || d == b - a,
            0 <= d <= 255,
    ;
    d * d
}

/// Whether `a` and `b` are close enough to pass for one colour under
/// `tolerance`. Under tolerance zero only equal colours are.
pub fn similar(a: Rgb, b: Rgb, tolerance: u32) -> (r: bool)
    ensures
        r == similar_rgb(a@, b@, tolerance as int),
{
    let d: u64 = 3 * square_diff(a[0], b[0]) + 4 * square_diff(a[1], b[1]) + 2 * square_diff(
        a[2],
        b[2],
    );
    if tolerance >= 765 {
        assert((tolerance + 1) * (tolerance + 1) > 9 * 255 * 255) by (nonlinear_arith)
            requires
                tolerance >= 765,
        ;
        return true;
    }
    let t: u64 = tolerance as u64 + 1;
    assert(t * t <= 766 * 766) by (nonlinear_arith)
        requires
            0 <= t <= 766,
    ;
    d < t * t
}

/// A colour is similar to itself under every tolerance, and colours that
/// are similar under one tolerance are similar under every larger one.
pub proof fn lemma_similar_reflexive_monotonic(a: Seq<u8>, b: Seq<u8>, t1: int, t2: int)
    requires
        0 <= t1 <= t2,
    ensures
        similar_rgb(a, a, t1),
        similar_rgb(a, b, t1) ==> similar_rgb(a, b, t2),
        similar_rgb(a, b, 0) <==> (a[0] == b[0] && a[1] == b[1] && a[2] == b[2]),
{
    assert((t1 + 1) * (t1 + 1) <= (t2 + 1) * (t2 + 1) && 1 <= (t1 + 1) * (t1 + 1))
        by (nonlinear_arith)
        requires
            0 <= t1 <= t2,
    ;
    let (dr, dg, db) = (a[0] - b[0], a[1] - b[1], a[2] - b[2]);
    assert(dr * dr >= 0 && dg * dg >= 0 && db * db >= 0 && (dr != 0 ==> dr * dr >= 1) && (dg
        != 0 ==> dg * dg >= 1) && (db != 0 ==> db * db >= 1)) by (nonlinear_arith);
}

/// A colour as a terminal knows it. It is called `Tint` so that it is not
/// taken for `term_lattice::Color`, which a screen buffer holds.
#[derive(Debug, Clone, Copy, PartialEq, Eq)]
pub enum Tint {
    /// A 24-bit colour.
    Rgb(Rgb),
    /// An entry of the 256-colour table.
    C256(u8),
    /// The terminal's own default.
    Unset,
}

impl Tint {
    /// Whether two colours pass for one under `tolerance`: RGB colours by
    /// their distance, table entries and the default only when equal.
    pub open spec fn similar_to(self, other: Tint, tolerance: int) -> bool {
        match (self, other) {
            (Tint::Rgb(a), Tint::Rgb(b)) => similar_rgb(a@, b@, tolerance),
            (Tint::C256(a), Tint::C256(b)) => a == b,
            (Tint::Unset, Tint::Unset) => true,
            _ => false,
        }
    }

    pub fn similar(&self, other: &Tint, tolerance: u32) -> (r: bool)
        ensures
            r == self.similar_to(*other, tolerance as int),
    {
        match (self, other) {
            (Tint::Rgb(a), Tint::Rgb(b)) => similar(*a, *b, tolerance),
            (Tint::C256(a), Tint::C256(b)) => *a == *b,
            (Tint::Unset, Tint::Unset) => true,
            _ => false,
        }
    }

    /// What `fmt_color` writes for this colour: the word `None`; or a
    /// sample of the colour as a background behind `#` or `C`, followed by
    /// its six hexadecimal digits or its three-digit table index.
    pub open spec fn label(self) -> Seq<char> {
        match self {
            Tint::Unset => "None"@,
            Tint::Rgb(x) => "\x1b[48;2;"@ + decimal(x[0] as nat) + ";"@ + decimal(x[1] as nat)
                + ";"@ + decimal(x[2] as nat) + "m#\x1b[49m"@ + hex2(x[0]) + hex2(x[1]) + hex2(
                x[2],
            ),
            Tint::C256(x) => "\x1b[48;5;"@ + decimal(x as nat) + "mC\x1b[49m"@ + decimal3(x),
        }
    }
}

/// Text that shows a colour to a person.
pub trait FmtColor {
    fn fmt_color(&self) -> String;
}

impl FmtColor for Tint {
    fn fmt_color(&self) -> (s: String)
        ensures
            s@ == self.label(),
    {
        let mut out: Vec<char> = Vec::new();
        match self {
            Tint::Unset => {
                push_str(&mut out, "None");
            },
            Tint::Rgb(x) => {
                push_str(&mut out, "\x1b[48;2;");
                push_decimal(&mut out, x[0] as u64);
                push_str(&mut out, ";");
                push_decimal(&mut out, x[1] as u64);
                push_str(&mut out, ";");
                push_decimal(&mut out, x[2] as u64);
                push_str(&mut out, "m#\x1b[49m");
                push_hex2(&mut out, x[0]);
                push_hex2(&mut out, x[1]);
                push_hex2(&mut out, x[2]);
            },
            Tint::C256(x) => {
                push_str(&mut out, "\x1b[48;5;");
                push_decimal(&mut out, *x as u64);
                push_str(&mut out, "mC\x1b[49m");
                push_decimal3(&mut out, *x);
            },
        }
        assert(out@ =~= self.label());
        string_of(&out)
    }
}

/// Whether a value carries transparency.
pub trait IsAlpha {
    fn is_alpha(&self) -> bool;
}

} // verus!
