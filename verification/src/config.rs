//! What a session is configured with, read from text and held to its
//! ranges.

use crate::color::{Tint, Rgb};
use crate::hex::{base16_of, hex_value, is_hex, num_to_rgb, rgb_of};
use crate::position::Position;
use crate::scale::{Scale, ONE_RAW};
use crate::text::chars_of;
use crate::viewport::Settings;
use vstd::prelude::*;

verus! {

/// Why a configuration value was refused.
#[derive(Debug, Clone, Copy, PartialEq, Eq, Structural)]
pub enum ConfigError {
    /// A colour of this many characters, where six are needed.
    StrLen(usize),
    /// A colour that is not written in hexadecimal digits.
    StrToHex,
    /// A number that is not written in decimal digits, or is too large.
    StrToInt,
    /// A number outside of its range.
    NumberOutOfRange,
    /// A terminal size of this many numbers, where two are needed.
    Arity(usize),
}

/// Why the program ends.
#[derive(Debug, Clone, Copy, PartialEq, Eq, Structural)]
pub enum Failure {
    /// No image was named.
    MissingInput,
    /// Reading or decoding failed: the image, the terminal or a key.
    Io,
    /// A configuration value was refused.
    Config(ConfigError),
    /// Something that must be there was not found.
    Lookup,
}

/// The exit code of each failure.
pub open spec fn exit_code_of(failure: Failure) -> u8 {
    match failure {
        Failure::MissingInput => 1,
        Failure::Io => 2,
        Failure::Config(_) => 3,
        Failure::Lookup => 4,
    }
}

pub fn exit_code(failure: Failure) -> (code: u8)
    ensures
        code == exit_code_of(failure),
        code != 0,
{
    match failure {
        Failure::MissingInput => 1,
        Failure::Io => 2,
        Failure::Config(_) => 3,
        Failure::Lookup => 4,
    }
}

/// The pieces of `s` between the occurrences of `sep`: one more than there
/// are occurrences, so the empty text has one empty piece.
pub open spec fn split(s: Seq<char>, sep: char) -> Seq<Seq<char>>
    decreases s.len(),
{
    if s.len() == 0 {
        seq![Seq::empty()]
    } else {
        let before = split(s.drop_last(), sep);
        if s.last() == sep {
            before.push(Seq::empty())
        } else {
            before.update(before.len() - 1, before.last().push(s.last()))
        }
    }
}

/// A split has at least one piece.
pub proof fn lemma_split_nonempty(s: Seq<char>, sep: char)
    ensures
        split(s, sep).len() >= 1,
    decreases s.len(),
{
    if s.len() > 0 {
        lemma_split_nonempty(s.drop_last(), sep);
    }
}

/// Cuts `s` at every `sep`.
pub fn split_at(s: &str, sep: char) -> (pieces: Vec<Vec<char>>)
    ensures
        pieces@.len() == split(s@, sep).len(),
        forall|i: int| 0 <= i < pieces@.len() ==> (#[trigger] pieces@[i])@ == split(s@, sep)[i],
{
    let chars = chars_of(s);
    let mut pieces: Vec<Vec<char>> = Vec::new();
    let mut piece: Vec<char> = Vec::new();
    let mut i: usize = 0;
    while i < chars.len()
        invariant
            i <= chars.len(),
            pieces@.len() + 1 == split(chars@.take(i as int), sep).len(),
            forall|k: int|
                0 <= k < pieces@.len() ==> (#[trigger] pieces@[k])@ == split(
                    chars@.take(i as int),
                    sep,
                )[k],
            piece@ == split(chars@.take(i as int), sep).last(),
        decreases chars.len() - i,
    {
        let c = chars[i];
        proof {
            assert(chars@.take(i + 1).drop_last() =~= chars@.take(i as int));
            assert(chars@.take(i + 1).last() == c);
        }
        if c == sep {
            pieces.push(piece);
            piece = Vec::new();
        } else {
            piece.push(c);
        }
        i = i + 1;
    }
    assert(chars@.take(chars@.len() as int) =~= chars@);
    pieces.push(piece);
    pieces
}

/// The colour that six hexadecimal digits name, red first, or why `s`
/// names none: a text of another length is a length error whatever it
/// holds, one of six characters that are not all digits a format error.
pub open spec fn color_of(s: Seq<char>) -> Result<Rgb, ConfigError> {
    if s.len() != 6 {
        Err(ConfigError::StrLen(s.len() as usize))
    } else if !is_hex(s) {
        Err(ConfigError::StrToHex)
    } else {
        Ok(rgb_of(hex_value(s) as u32))
    }
}

/// The colours that `pieces` name, or the error of the first piece that
/// names none.
pub open spec fn colors_of(pieces: Seq<Seq<char>>) -> Result<Seq<Tint>, ConfigError>
    decreases pieces.len(),
{
    if pieces.len() == 0 {
        Ok(Seq::empty())
    } else {
        match colors_of(pieces.drop_last()) {
            Err(e) => Err(e),
            Ok(colors) => match color_of(pieces.last()) {
                Err(e) => Err(e),
                Ok(rgb) => Ok(colors.push(Tint::Rgb(rgb))),
            },
        }
    }
}

/// The palette that the list `s` of colours parted by commas describes:
/// the terminal's default first, then the colours in their order.
pub open spec fn palette_of(s: Seq<char>) -> Result<Seq<Tint>, ConfigError> {
    match colors_of(split(s, ',')) {
        Err(e) => Err(e),
        Ok(colors) => Ok(seq![Tint::Unset] + colors),
    }
}

fn color_of_chars(chars: &Vec<char>) -> (r: Result<Rgb, ConfigError>)
    ensures
        r == color_of(chars@),
{
    if chars.len() != 6 {
        return Err(ConfigError::StrLen(chars.len()));
    }
    match base16_of(chars) {
        Some(num) => Ok(num_to_rgb(num)),
        None => Err(ConfigError::StrToHex),
    }
}

/// Reads a colour of six hexadecimal digits.
pub fn parse_color(s: &str) -> (r: Result<Rgb, ConfigError>)
    ensures
        r == color_of(s@),
{
    let chars = chars_of(s);
    color_of_chars(&chars)
}

/// Reads a list of colours parted by commas into a palette. A palette is
/// never empty.
pub fn parse_palette(s: &str) -> (r: Result<Vec<Tint>, ConfigError>)
    ensures
        r is Ok <==> palette_of(s@) is Ok,
        r matches Ok(palette) ==> palette@ == palette_of(s@)->Ok_0 && palette@.len() >= 2,
        r matches Err(e) ==> palette_of(s@) == Err::<Seq<Tint>, ConfigError>(e),
{
    let pieces = split_at(s, ',');
    let ghost want = split(s@, ',');
    proof {
        lemma_split_nonempty(s@, ',');
    }
    let mut palette: Vec<Tint> = Vec::new();
    palette.push(Tint::Unset);
    let mut i: usize = 0;
    while i < pieces.len()
        invariant
            i <= pieces.len(),
            want == split(s@, ','),
            pieces@.len() == want.len(),
            forall|k: int| 0 <= k < pieces@.len() ==> (#[trigger] pieces@[k])@ == want[k],
            colors_of(want.take(i as int)) is Ok,
            palette@ == seq![Tint::Unset] + colors_of(want.take(i as int))->Ok_0,
            palette@.len() == i + 1,
        decreases pieces.len() - i,
    {
        proof {
            assert(pieces@[i as int]@ == want[i as int]);
            assert(want.take(i + 1).drop_last() =~= want.take(i as int));
            assert(want.take(i + 1).last() == want[i as int]);
        }
        match color_of_chars(&pieces[i]) {
            Ok(rgb) => {
                palette.push(Tint::Rgb(rgb));
                assert(palette@ =~= seq![Tint::Unset] + colors_of(want.take(i + 1))->Ok_0);
            },
            Err(e) => {
                proof {
                    lemma_colors_of_fails(want, i + 1);
                }
                return Err(e);
            },
        }
        i = i + 1;
    }
    assert(want.take(want.len() as int) =~= want);
    Ok(palette)
}

/// Where the first `n` pieces fail, all of them fail, with the same error.
proof fn lemma_colors_of_fails(pieces: Seq<Seq<char>>, n: int)
    requires
        0 <= n <= pieces.len(),
        colors_of(pieces.take(n)) is Err,
    ensures
        colors_of(pieces) == colors_of(pieces.take(n)),
    decreases pieces.len() - n,
{
    if n < pieces.len() {
        assert(pieces.take(n + 1).drop_last() =~= pieces.take(n));
        lemma_colors_of_fails(pieces, n + 1);
    } else {
        assert(pieces.take(n) =~= pieces);
    }
}

/// Every character of `s` is a decimal digit.
pub open spec fn is_digits(s: Seq<char>) -> bool {
    forall|i: int| 0 <= i < s.len() ==> '0' <= #[trigger] s[i] <= '9'
}

/// The number that the decimal digits of `s` write.
pub open spec fn digits_value(s: Seq<char>) -> nat
    decreases s.len(),
{
    if s.len() == 0 {
        0
    } else {
        (digits_value(s.drop_last()) * 10 + (s.last() as nat - 48)) as nat
    }
}

/// The number that `s` writes: decimal digits, at least one, after at most
/// one plus sign, with a value that 32 bits hold.
pub open spec fn number_of(s: Seq<char>) -> Option<u32> {
    let body = if s.len() > 0 && s[0] == '+' {
        s.skip(1)
    } else {
        s
    };
    if body.len() == 0 || !is_digits(body) || digits_value(body) > u32::MAX {
        None
    } else {
        Some(digits_value(body) as u32)
    }
}

/// More digits never write a smaller number.
pub proof fn lemma_digits_grow(s: Seq<char>, n: int)
    requires
        0 <= n <= s.len(),
        is_digits(s),
    ensures
        digits_value(s.take(n)) <= digits_value(s),
    decreases s.len() - n,
{
    if n < s.len() {
        assert(s.take(n + 1).drop_last() =~= s.take(n));
        assert(s.take(n + 1).last() == s[n]);
        lemma_digits_grow(s, n + 1);
    } else {
        assert(s.take(n) =~= s);
    }
}

fn number_of_chars(chars: &Vec<char>) -> (r: Option<u32>)
    ensures
        r == number_of(chars@),
{
    let len = chars.len();
    let start: usize = if len > 0 && chars[0] == '+' {
        1
    } else {
        0
    };
    let ghost body = if chars@.len() > 0 && chars@[0] == '+' {
        chars@.skip(1)
    } else {
        chars@
    };
    assert(body =~= chars@.skip(start as int));
    if start == len {
        return None;
    }
    let mut value: u64 = 0;
    let mut i: usize = start;
    while i < len
        invariant
            start <= i <= len,
            len == chars@.len(),
            body == chars@.skip(start as int),
            body.len() > 0,
            number_of(chars@) == (if !is_digits(body) || digits_value(body) > u32::MAX {
                None
            } else {
                Some(digits_value(body) as u32)
            }),
            is_digits(body.take(i - start)),
            value == digits_value(body.take(i - start)),
            value <= u32::MAX,
        decreases len - i,
    {
        let c = chars[i];
        let ghost k = i - start;
        proof {
            assert(body[k] == c);
            assert(body.take(k + 1).drop_last() =~= body.take(k));
            assert(body.take(k + 1).last() == c);
        }
        if c < '0' || c > '9' {
            return None;
        }
        let next: u64 = value * 10 + (c as u64 - 48);
        proof {
            assert forall|j: int| 0 <= j < k + 1 implies '0' <= #[trigger] body.take(k + 1)[j]
                <= '9' by {
                if j < k {
                    assert(body.take(k)[j] == body.take(k + 1)[j]);
                }
            }
        }
        if next > 0xffff_ffff {
            proof {
                if is_digits(body) {
                    lemma_digits_grow(body, k + 1);
                }
            }
            return None;
        }
        value = next;
        i = i + 1;
    }
    assert(body.take(body.len() as int) =~= body);
    Some(value as u32)
}

/// Reads a number as [`number_of`] says.
pub fn parse_number(s: &str) -> (r: Option<u32>)
    ensures
        r == number_of(s@),
{
    let chars = chars_of(s);
    number_of_chars(&chars)
}

/// The numbers that `pieces` write, or nothing where a piece writes none.
pub open spec fn numbers_of(pieces: Seq<Seq<char>>) -> Option<Seq<u32>>
    decreases pieces.len(),
{
    if pieces.len() == 0 {
        Some(Seq::empty())
    } else {
        match (numbers_of(pieces.drop_last()), number_of(pieces.last())) {
            (Some(numbers), Some(n)) => Some(numbers.push(n)),
            _ => None,
        }
    }
}

/// The terminal size that `s` writes as columns, a comma, and rows. A
/// piece that is no number is an error before the count of pieces is.
pub open spec fn term_size_of(s: Seq<char>) -> Result<Position, ConfigError> {
    match numbers_of(split(s, ',')) {
        None => Err(ConfigError::StrToInt),
        Some(numbers) => if numbers.len() != 2 {
            Err(ConfigError::Arity(numbers.len() as usize))
        } else {
            Ok(Position { x: numbers[0], y: numbers[1] })
        },
    }
}

proof fn lemma_numbers_of_fails(pieces: Seq<Seq<char>>, n: int)
    requires
        0 <= n <= pieces.len(),
        numbers_of(pieces.take(n)) is None,
    ensures
        numbers_of(pieces) is None,
    decreases pieces.len() - n,
{
    if n < pieces.len() {
        assert(pieces.take(n + 1).drop_last() =~= pieces.take(n));
        lemma_numbers_of_fails(pieces, n + 1);
    } else {
        assert(pieces.take(n) =~= pieces);
    }
}

/// Reads a terminal size given as `columns,rows`.
pub fn parse_term_size(s: &str) -> (r: Result<Position, ConfigError>)
    ensures
        r == term_size_of(s@),
{
    let pieces = split_at(s, ',');
    let ghost want = split(s@, ',');
    let mut numbers: Vec<u32> = Vec::new();
    let mut i: usize = 0;
    while i < pieces.len()
        invariant
            i <= pieces.len(),
            want == split(s@, ','),
            pieces@.len() == want.len(),
            forall|k: int| 0 <= k < pieces@.len() ==> (#[trigger] pieces@[k])@ == want[k],
            numbers_of(want.take(i as int)) == Some(numbers@),
            numbers@.len() == i,
        decreases pieces.len() - i,
    {
        proof {
            assert(pieces@[i as int]@ == want[i as int]);
            assert(want.take(i + 1).drop_last() =~= want.take(i as int));
            assert(want.take(i + 1).last() == want[i as int]);
        }
        match number_of_chars(&pieces[i]) {
            Some(n) => {
                numbers.push(n);
            },
            None => {
                proof {
                    lemma_numbers_of_fails(want, i + 1);
                }
                return Err(ConfigError::StrToInt);
            },
        }
        i = i + 1;
    }
    assert(want.take(want.len() as int) =~= want);
    if numbers.len() != 2 {
        Err(ConfigError::Arity(numbers.len()))
    } else {
        Ok(Position { x: numbers[0], y: numbers[1] })
    }
}

/// The pixel area of a terminal of `cells.x` columns and `cells.y` rows
/// that keeps its last row for the status line: every other row is two
/// pixels high. Nothing for a terminal without rows, or with more rows
/// than have a pixel height.
pub fn pixel_area(cells: Position) -> (area: Option<Position>)
    ensures
        area == (if 1 <= cells.y && cells.y * 2 <= u32::MAX {
            Some(Position { x: cells.x, y: (cells.y * 2 - 2) as u32 })
        } else {
            None
        }),
{
    if cells.y < 1 || cells.y > u32::MAX / 2 {
        None
    } else {
        Some(Position { x: cells.x, y: cells.y * 2 - 2 })
    }
}

impl Settings {
    /// The settings of a session, where every value is in its range: the
    /// zoom factor between zero and one, both pan shares above zero, and
    /// at least one background.
    pub fn checked(
        zoom_ratio: Scale,
        short_move: Scale,
        long_move: Scale,
        palette_len: usize,
        opt_level: u32,
    ) -> (r: Result<Settings, ConfigError>)
        ensures
            r == (if (Settings { zoom_ratio, short_move, long_move, palette_len, opt_level }).wf() {
                Ok(Settings { zoom_ratio, short_move, long_move, palette_len, opt_level })
            } else {
                Err(ConfigError::NumberOutOfRange)
            }),
    {
        if zoom_ratio.raw == 0 || zoom_ratio.raw >= ONE_RAW || short_move.raw == 0
            || long_move.raw == 0 || palette_len == 0 {
            Err(ConfigError::NumberOutOfRange)
        } else {
            Ok(Settings { zoom_ratio, short_move, long_move, palette_len, opt_level })
        }
    }
}

} // verus!
