//! The status line below the image, and the notes that tell the user of a
//! correction.

use crate::position::Position;
use crate::text::{decimal, digit, digit_char, push_decimal, push_str, string_of};
use crate::viewport::{Annotation, Viewport};
use vstd::prelude::*;

verus! {

/// Clears the whole screen.
pub const CLEAR_SCREEN: &'static str = "\x1b[2J";

/// Sets the cursor to the upper left corner.
pub const CURSOR_HOME: &'static str = "\x1b[H";

/// Sets the cursor to the first column of its row.
pub const LINE_START: &'static str = "\x1b[G";

/// Ends all colours and attributes.
pub const RESET: &'static str = "\x1b[0m";

/// The sequence that scrolls the screen up by `rows` rows, to make room for
/// the image.
pub open spec fn scroll_text(rows: u32) -> Seq<char> {
    "\x1b["@ + decimal(rows as nat) + "S"@
}

/// Writes the sequence that scrolls the screen up by `rows` rows.
pub fn scroll_up(rows: u32) -> (s: String)
    ensures
        s@ == scroll_text(rows),
{
    let mut out: Vec<char> = Vec::new();
    push_str(&mut out, "\x1b[");
    push_decimal(&mut out, rows as u64);
    push_str(&mut out, "S");
    string_of(&out)
}

/// How `char`'s `Debug` writes `c`: between single quotes, with an escape
/// where the character does not print as itself.
pub uninterp spec fn char_debug_text(c: char) -> Seq<char>;

/// `<char as Debug>::fmt`, through `format!`: the text that names `c` in a
/// message.
#[verifier::external_body]
fn char_debug(c: char) -> (s: String)
    ensures
        s@ == char_debug_text(c),
{
    format!("{:?}", c)
}

/// `n` in `width` decimal digits, with leading zeros; digits beyond
/// `width` are dropped.
pub open spec fn padded(n: nat, width: nat) -> Seq<char>
    decreases width,
{
    if width == 0 {
        Seq::empty()
    } else {
        padded(n / 10, (width - 1) as nat).push(digit_char((n % 10) as int))
    }
}

/// Ten to the power of `places`.
pub open spec fn pow10(places: nat) -> nat
    decreases places,
{
    if places == 0 {
        1
    } else {
        10 * pow10((places - 1) as nat)
    }
}

/// The ratio `raw / 2^32` multiplied by `10^places` and rounded to the
/// nearest whole number, halves upwards.
pub open spec fn rounded(raw: nat, places: nat) -> nat {
    (raw * pow10(places) + 0x8000_0000) / 0x1_0000_0000
}

/// The ratio `raw / 2^32` in decimal, rounded to `places` digits after the
/// point.
pub open spec fn ratio_text(raw: nat, places: nat) -> Seq<char> {
    decimal(rounded(raw, places) / pow10(places)) + seq!['.'] + padded(
        rounded(raw, places) % pow10(places),
        places,
    )
}

fn push_padded(out: &mut Vec<char>, n: u64, width: u32)
    ensures
        final(out)@ == old(out)@ + padded(n as nat, width as nat),
    decreases width,
{
    if width > 0 {
        push_padded(out, n / 10, width - 1);
        out.push(digit((n % 10) as u8));
    }
    assert(out@ =~= old(out)@ + padded(n as nat, width as nat));
}

fn power_of_ten(places: u32) -> (p: u64)
    requires
        places <= 9,
    ensures
        p == pow10(places as nat),
        1 <= p <= 1_000_000_000,
{
    reveal_with_fuel(pow10, 10);
    match places {
        0 => 1,
        1 => 10,
        2 => 100,
        3 => 1_000,
        4 => 10_000,
        5 => 100_000,
        6 => 1_000_000,
        7 => 10_000_000,
        8 => 100_000_000,
        _ => 1_000_000_000,
    }
}

/// Appends the ratio `raw / 2^32` with `places` digits after the point.
pub fn push_ratio(out: &mut Vec<char>, raw: u64, places: u32)
    requires
        places <= 9,
    ensures
        final(out)@ == old(out)@ + ratio_text(raw as nat, places as nat),
{
    let unit = power_of_ten(places);
    assert(raw * unit <= 0xffff_ffff_ffff_ffff * 1_000_000_000) by (nonlinear_arith)
        requires
            0 <= raw <= 0xffff_ffff_ffff_ffff,
            0 <= unit <= 1_000_000_000,
    ;
    let scaled: u128 = ((raw as u128) * (unit as u128) + 0x8000_0000u128) / 0x1_0000_0000u128;
    assert(scaled == rounded(raw as nat, places as nat));
    assert(scaled <= 0xffff_ffff_ffff_ffff);
    let whole: u64 = (scaled / (unit as u128)) as u64;
    let part: u64 = (scaled % (unit as u128)) as u64;
    push_decimal(out, whole);
    out.push('.');
    push_padded(out, part, places);
    assert(out@ =~= old(out)@ + ratio_text(raw as nat, places as nat));
}

impl Annotation {
    /// The short name of the note: `RB` for a boundary, `RC` for a clamp,
    /// `FV` for the floor, and `EI:` with the key's character for a key
    /// without a command.
    pub open spec fn label(self) -> Seq<char> {
        match self {
            Annotation::Boundary => "RB"@,
            Annotation::Clamped => "RC"@,
            Annotation::FloorViolation => "FV"@,
            Annotation::InvalidInput(key) => "EI:"@ + char_debug_text(key as char),
        }
    }

    /// The note as it is written behind the status line: a bell, a space,
    /// and the label on a bright red background.
    pub open spec fn text(self) -> Seq<char> {
        "\x07 \x1b[101m"@ + self.label() + "\x1b[0m"@
    }

    fn push_to(self, out: &mut Vec<char>)
        ensures
            final(out)@ == old(out)@ + self.text(),
    {
        push_str(out, "\x07 \x1b[101m");
        match self {
            Annotation::Boundary => {
                push_str(out, "RB");
            },
            Annotation::Clamped => {
                push_str(out, "RC");
            },
            Annotation::FloorViolation => {
                push_str(out, "FV");
            },
            Annotation::InvalidInput(key) => {
                push_str(out, "EI:");
                let name = char_debug(key as char);
                push_str(out, name.as_str());
            },
        }
        push_str(out, "\x1b[0m");
        assert(out@ =~= old(out)@ + self.text());
    }

    /// The note as it is written behind the status line.
    pub fn render(self) -> (s: String)
        ensures
            s@ == self.text(),
    {
        let mut out: Vec<char> = Vec::new();
        self.push_to(&mut out);
        string_of(&out)
    }
}

/// The status line: in reverse video the image's size, the position of the
/// view, the scale with two digits after the point, the optimization
/// level and the filter's index, then the note, if there is one, written
/// so that the cursor stays where the line ended.
pub open spec fn status_text(
    view: Viewport,
    img_size: Position,
    note: Option<Annotation>,
) -> Seq<char> {
    "\x1b[7mImgSize["@ + decimal(img_size.x as nat) + "x"@ + decimal(img_size.y as nat)
        + "] Pos["@ + decimal(view.win_pos.x as nat) + ","@ + decimal(view.win_pos.y as nat)
        + "] Ratio["@ + ratio_text(view.scale.raw as nat, 2) + "] Opt["@ + decimal(
        view.opt_level as nat,
    ) + "] Fl["@ + decimal(view.filter as nat) + "] Help(H) Quit(Q)\x1b[0m\x1b[s"@ + (match note {
        Some(a) => a.text(),
        None => Seq::empty(),
    }) + "\x1b[K\x1b[u"@
}

/// Writes the status line.
pub fn status_line(view: &Viewport, img_size: Position, note: Option<Annotation>) -> (s: String)
    ensures
        s@ == status_text(*view, img_size, note),
{
    let mut out: Vec<char> = Vec::new();
    push_str(&mut out, "\x1b[7mImgSize[");
    push_decimal(&mut out, img_size.x as u64);
    push_str(&mut out, "x");
    push_decimal(&mut out, img_size.y as u64);
    push_str(&mut out, "] Pos[");
    push_decimal(&mut out, view.win_pos.x as u64);
    push_str(&mut out, ",");
    push_decimal(&mut out, view.win_pos.y as u64);
    push_str(&mut out, "] Ratio[");
    push_ratio(&mut out, view.scale.raw, 2);
    push_str(&mut out, "] Opt[");
    push_decimal(&mut out, view.opt_level as u64);
    push_str(&mut out, "] Fl[");
    push_decimal(&mut out, view.filter as u64);
    push_str(&mut out, "] Help(H) Quit(Q)\x1b[0m\x1b[s");
    match note {
        Some(a) => {
            a.push_to(&mut out);
        },
        None => {},
    }
    push_str(&mut out, "\x1b[K\x1b[u");
    assert(out@ =~= status_text(*view, img_size, note));
    string_of(&out)
}

} // verus!
