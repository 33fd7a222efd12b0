//! The encoder: from a grid of colours to terminal text, with as few
//! colour codes as the tolerance allows.

use crate::color::{rgba_to_rgb, Tint, Rgba};
use crate::text::{decimal, push_chars, push_decimal, push_str, string_of};
use vstd::prelude::*;

verus! {

/// The escape character that opens every control sequence.
pub const ESC: char = '\x1b';

/// The line terminator that an encoder uses unless told otherwise.
pub const CR: &'static str = "\n";

/// The parameters that select `color` in a "select graphic rendition"
/// sequence, as the foreground or as the background.
pub open spec fn sgr_params(color: Tint, background: bool) -> Seq<char> {
    match color {
        Tint::Rgb(x) => (if background {
            "48;2;"@
        } else {
            "38;2;"@
        }) + decimal(x[0] as nat) + ";"@ + decimal(x[1] as nat) + ";"@ + decimal(x[2] as nat),
        Tint::C256(x) => (if background {
            "48;5;"@
        } else {
            "38;5;"@
        }) + decimal(x as nat),
        Tint::Unset => if background {
            "49"@
        } else {
            "39"@
        },
    }
}

/// Writes the parameters that select `color`.
pub fn push_sgr_params(out: &mut Vec<char>, color: Tint, background: bool)
    ensures
        final(out)@ == old(out)@ + sgr_params(color, background),
{
    match color {
        Tint::Rgb(x) => {
            if background {
                push_str(out, "48;2;");
            } else {
                push_str(out, "38;2;");
            }
            push_decimal(out, x[0] as u64);
            push_str(out, ";");
            push_decimal(out, x[1] as u64);
            push_str(out, ";");
            push_decimal(out, x[2] as u64);
        },
        Tint::C256(x) => {
            if background {
                push_str(out, "48;5;");
            } else {
                push_str(out, "38;5;");
            }
            push_decimal(out, x as u64);
        },
        Tint::Unset => {
            if background {
                push_str(out, "49");
            } else {
                push_str(out, "39");
            }
        },
    }
    assert(out@ =~= old(out)@ + sgr_params(color, background));
}

/// One entry of a colour table: parameters to look for, and what to write
/// in their place.
#[derive(Debug, Clone, PartialEq, Eq)]
pub struct Remap {
    pub from: Vec<char>,
    pub to: Vec<char>,
}

/// A table that replaces the parameters of chosen colours, so that a
/// palette of named or indexed colours can stand in for 24-bit ones.
#[derive(Debug, Clone, PartialEq, Eq)]
pub struct ColorTable {
    pub entries: Vec<Remap>,
}

fn same_chars(a: &Vec<char>, b: &Vec<char>) -> (r: bool)
    ensures
        r == (a@ == b@),
{
    if a.len() != b.len() {
        return false;
    }
    let mut i: usize = 0;
    while i < a.len()
        invariant
            i <= a.len(),
            a.len() == b.len(),
            a@.take(i as int) == b@.take(i as int),
        decreases a.len() - i,
    {
        if a[i] != b[i] {
            return false;
        }
        assert(a@.take(i + 1) =~= a@.take(i as int).push(a[i as int]));
        assert(b@.take(i + 1) =~= b@.take(i as int).push(b[i as int]));
        i = i + 1;
    }
    assert(a@.take(a@.len() as int) =~= a@);
    assert(b@.take(b@.len() as int) =~= b@);
    true
}

impl ColorTable {
    /// What the entries from index `from` on make of `params`: the
    /// replacement of the first entry that matches, or `params` itself.
    pub open spec fn lookup_from(self, params: Seq<char>, from: int) -> Seq<char>
        decreases self.entries.len() - from,
    {
        if from < 0 || from >= self.entries.len() {
            params
        } else if self.entries[from].from@ == params {
            self.entries[from].to@
        } else {
            self.lookup_from(params, from + 1)
        }
    }

    /// What the table makes of `params`.
    pub open spec fn lookup(self, params: Seq<char>) -> Seq<char> {
        self.lookup_from(params, 0)
    }

    /// A table without entries, which replaces nothing.
    pub fn new() -> (t: ColorTable)
        ensures
            t.entries@.len() == 0,
            forall|p: Seq<char>| #[trigger] t.lookup(p) == p,
    {
        ColorTable { entries: Vec::new() }
    }

    /// Adds an entry behind those already there: where none of them
    /// matches, `from` is replaced by `to`.
    pub fn insert(&mut self, from: &str, to: &str)
        ensures
            final(self).entries@ == old(self).entries@.push(final(self).entries@.last()),
            final(self).entries@.last().from@ == from@,
            final(self).entries@.last().to@ == to@,
    {
        let mut f: Vec<char> = Vec::new();
        push_str(&mut f, from);
        let mut t: Vec<char> = Vec::new();
        push_str(&mut t, to);
        self.entries.push(Remap { from: f, to: t });
    }

    /// Writes what the table makes of `params`.
    pub fn push_lookup(&self, out: &mut Vec<char>, params: &Vec<char>)
        ensures
            final(out)@ == old(out)@ + self.lookup(params@),
    {
        let mut i: usize = 0;
        while i < self.entries.len()
            invariant
                i <= self.entries.len(),
                out@ == old(out)@,
                self.lookup(params@) == self.lookup_from(params@, i as int),
            decreases self.entries.len() - i,
        {
            if same_chars(&self.entries[i].from, params) {
                push_chars(out, &self.entries[i].to);
                return ;
            }
            i = i + 1;
        }
        push_chars(out, params);
    }
}

/// The two colours of one character cell.
#[derive(Debug, Clone, Copy, PartialEq, Eq)]
pub struct Cell {
    /// The colour of the glyph.
    pub fg: Tint,
    /// The colour behind it.
    pub bg: Tint,
}

/// The colours that the terminal was last told to use.
#[derive(Debug, Clone, Copy, PartialEq, Eq)]
pub struct Cache {
    pub fg: Tint,
    pub bg: Tint,
}

/// How pixels are laid out in cells.
#[derive(Debug, Clone, Copy, PartialEq, Eq, Structural)]
pub enum Mode {
    /// One cell for each pixel, drawn as the glyph in the pixel's colour
    /// over the background.
    Simple,
    /// One cell for two pixels, one above the other: the upper one is the
    /// cell's background, the lower one the colour of the glyph.
    HalfBlock,
}

/// A grid of colours, row by row.
#[derive(Debug, Clone, PartialEq, Eq)]
pub struct Canvas {
    pub width: usize,
    pub cells: Vec<Tint>,
}

/// The colour that the pixel `px` shows over `background`: blended where
/// the background is a 24-bit colour, else the pixel's own colour with its
/// alpha dropped.
pub open spec fn pixel_color(px: Rgba, background: Tint) -> Tint {
    match background {
        Tint::Rgb(b) => Tint::Rgb(
            [
                crate::color::blend(px[0] as int, b[0] as int, px[3] as int) as u8,
                crate::color::blend(px[1] as int, b[1] as int, px[3] as int) as u8,
                crate::color::blend(px[2] as int, b[2] as int, px[3] as int) as u8,
            ],
        ),
        _ => Tint::Rgb([px[0], px[1], px[2]]),
    }
}

pub fn color_of_pixel(px: Rgba, background: Tint) -> (c: Tint)
    ensures
        c == pixel_color(px, background),
{
    match background {
        Tint::Rgb(b) => {
            let out = rgba_to_rgb(px, b);
            let ghost want: [u8; 3] = [
                crate::color::blend(px[0] as int, b[0] as int, px[3] as int) as u8,
                crate::color::blend(px[1] as int, b[1] as int, px[3] as int) as u8,
                crate::color::blend(px[2] as int, b[2] as int, px[3] as int) as u8,
            ];
            assert(out =~= want);
            Tint::Rgb(out)
        },
        _ => {
            let out: [u8; 3] = [px[0], px[1], px[2]];
            let ghost want: [u8; 3] = [px[0], px[1], px[2]];
            assert(out =~= want);
            Tint::Rgb(out)
        },
    }
}

impl Canvas {
    /// The cells fill whole rows.
    pub open spec fn wf(self) -> bool {
        if self.width == 0 {
            self.cells.len() == 0
        } else {
            self.cells.len() % self.width == 0
        }
    }

    /// The number of rows.
    pub open spec fn height(self) -> int {
        if self.width == 0 {
            0
        } else {
            self.cells.len() as int / self.width as int
        }
    }

    /// The grid of `width` by `height` cells that shows the image `pixels`
    /// of rows `img_width` wide at its upper left corner, over
    /// `background`: a cell inside the image has the colour of its pixel,
    /// every other cell is the background. Pixels beyond the grid, and
    /// those of an incomplete last row, are left out.
    pub open spec fn placed(
        pixels: Seq<Rgba>,
        img_width: int,
        width: int,
        height: int,
        background: Tint,
    ) -> Seq<Tint> {
        Seq::new((width * height) as nat, |i: int| Canvas::placed_cell(pixels, img_width, i % width, i / width, background))
    }

    /// The colour of the cell in column `x` of row `y` of such a grid.
    pub open spec fn placed_cell(
        pixels: Seq<Rgba>,
        img_width: int,
        x: int,
        y: int,
        background: Tint,
    ) -> Tint {
        if x < img_width && y * img_width + x < pixels.len() {
            pixel_color(pixels[y * img_width + x], background)
        } else {
            background
        }
    }

    fn cell_of(pixels: &Vec<Rgba>, img_width: usize, x: usize, y: usize, background: Tint) -> (cell:
        Tint)
        ensures
            cell == Canvas::placed_cell(pixels@, img_width as int, x as int, y as int, background),
    {
        let len = pixels.len();
        if x >= img_width {
            return background;
        }
        let base = match y.checked_mul(img_width) {
            Some(base) => base,
            None => {
                return background;
            },
        };
        let at = match base.checked_add(x) {
            Some(at) => at,
            None => {
                return background;
            },
        };
        if at < len {
            color_of_pixel(pixels[at], background)
        } else {
            background
        }
    }

    /// Lays the image `pixels` on a grid of `width` by `height` cells.
    pub fn from_pixels(
        pixels: &Vec<Rgba>,
        img_width: usize,
        width: usize,
        height: usize,
        background: Tint,
    ) -> (canvas: Canvas)
        requires
            width * height <= usize::MAX,
        ensures
            canvas.wf(),
            canvas.width == width,
            canvas.cells@ == Canvas::placed(
                pixels@,
                img_width as int,
                width as int,
                height as int,
                background,
            ),
    {
        let ghost want = Canvas::placed(
            pixels@,
            img_width as int,
            width as int,
            height as int,
            background,
        );
        let mut cells: Vec<Tint> = Vec::new();
        if width == 0 {
            assert(want.len() == 0) by (nonlinear_arith)
                requires
                    want.len() == width * height,
                    width == 0,
            ;
            assert(cells@ =~= want);
            return Canvas { width, cells };
        }
        let mut y: usize = 0;
        while y < height
            invariant
                width > 0,
                y <= height,
                width * height <= usize::MAX,
                cells@.len() == y * width,
                want == Canvas::placed(
                    pixels@,
                    img_width as int,
                    width as int,
                    height as int,
                    background,
                ),
                forall|i: int| 0 <= i < cells@.len() ==> cells@[i] == want[i],
            decreases height - y,
        {
            let mut x: usize = 0;
            while x < width
                invariant
                    width > 0,
                    y < height,
                    x <= width,
                    width * height <= usize::MAX,
                    cells@.len() == y * width + x,
                    want == Canvas::placed(
                        pixels@,
                        img_width as int,
                        width as int,
                        height as int,
                        background,
                    ),
                    forall|i: int| 0 <= i < cells@.len() ==> cells@[i] == want[i],
                decreases width - x,
            {
                let ghost i = y * width + x;
                proof {
                    assert(i % (width as int) == x && i / (width as int) == y) by (nonlinear_arith)
                        requires
                            i == y * width + x,
                            0 <= x < width,
                            0 <= y,
                    ;
                    assert(i < width * height) by (nonlinear_arith)
                        requires
                            i == y * width + x,
                            0 <= x < width,
                            0 <= y < height,
                    ;
                }
                let cell = Canvas::cell_of(pixels, img_width, x, y, background);
                assert(want.len() == width * height);
                assert(cell == want[i]);
                cells.push(cell);
                x = x + 1;
            }
            assert((y + 1) * width == y * width + width) by (nonlinear_arith);
            y = y + 1;
        }
        assert(cells@.len() == want.len()) by (nonlinear_arith)
            requires
                cells@.len() == y * width,
                y == height,
                want.len() == width * height,
        ;
        assert(cells@ =~= want);
        assert((width * height) % (width as int) == 0) by (nonlinear_arith)
            requires
                width > 0,
                height >= 0,
        ;
        Canvas { width, cells }
    }
}

/// How a grid is turned into text.
#[derive(Debug, Clone, PartialEq, Eq)]
pub struct Encoder {
    /// How pixels are laid out in cells.
    pub mode: Mode,
    /// The glyph that shows a cell's foreground.
    pub glyph: char,
    /// The glyph of a cell whose foreground passes for its background.
    pub blank: char,
    /// Whether such cells are drawn with the blank glyph at all.
    pub empty_char: bool,
    /// Whether every row starts from reset colours.
    pub split_edge: bool,
    /// The tolerance under which two colours pass for one.
    pub tolerance: u32,
    /// The colour behind the image.
    pub background: Tint,
    /// What ends a row.
    pub line_end: String,
    /// Replacements for colour parameters.
    pub table: ColorTable,
}

impl Encoder {
    /// The parameters written for `color`, after the table had its say.
    pub open spec fn code(self, color: Tint, background: bool) -> Seq<char> {
        self.table.lookup(sgr_params(color, background))
    }

    /// The glyph of `cell`.
    pub open spec fn cell_glyph(self, cell: Cell) -> char {
        if self.empty_char && cell.fg.similar_to(cell.bg, self.tolerance as int) {
            self.blank
        } else {
            self.glyph
        }
    }

    /// The colour codes written before the glyph of `cell` when the
    /// terminal was last told the colours of `cache`: none for a colour
    /// that passes for the cached one, else one sequence that sets what
    /// differs, the background first.
    pub open spec fn cell_codes(self, cell: Cell, cache: Cache) -> Seq<char> {
        let keep_bg = cell.bg.similar_to(cache.bg, self.tolerance as int);
        let keep_fg = cell.fg.similar_to(cache.fg, self.tolerance as int);
        if keep_bg && keep_fg {
            Seq::empty()
        } else if keep_fg {
            seq![ESC, '['] + self.code(cell.bg, true) + seq!['m']
        } else if keep_bg {
            seq![ESC, '['] + self.code(cell.fg, false) + seq!['m']
        } else {
            seq![ESC, '['] + self.code(cell.bg, true) + seq![';'] + self.code(cell.fg, false)
                + seq!['m']
        }
    }

    /// The text of `cell`: its codes, then its glyph.
    pub open spec fn cell_text(self, cell: Cell, cache: Cache) -> Seq<char> {
        self.cell_codes(cell, cache).push(self.cell_glyph(cell))
    }

    /// The cache after `cell`: each colour that was written replaces the
    /// cached one.
    pub open spec fn cache_after(self, cell: Cell, cache: Cache) -> Cache {
        Cache {
            fg: if cell.fg.similar_to(cache.fg, self.tolerance as int) {
                cache.fg
            } else {
                cell.fg
            },
            bg: if cell.bg.similar_to(cache.bg, self.tolerance as int) {
                cache.bg
            } else {
                cell.bg
            },
        }
    }

    /// The cache at the start of a frame: the terminal's defaults.
    pub open spec fn initial_cache() -> Cache {
        Cache { fg: Tint::Unset, bg: Tint::Unset }
    }

    /// What is written between two rows: the line end alone, or, with
    /// `split_edge`, a reset before it and the background after it.
    pub open spec fn boundary_text(self) -> Seq<char> {
        if self.split_edge {
            seq![ESC, '[', '0', 'm'] + self.line_end@ + seq![ESC, '['] + self.code(
                self.background,
                true,
            ) + seq!['m']
        } else {
            self.line_end@
        }
    }

    /// The cache after a row boundary: with `split_edge` both entries are
    /// the background, else the cache is kept.
    pub open spec fn boundary_cache(self, cache: Cache) -> Cache {
        if self.split_edge {
            Cache { fg: self.background, bg: self.background }
        } else {
            cache
        }
    }

    /// The number of text rows for a grid of `height` rows.
    pub open spec fn text_rows(self, height: int) -> int {
        match self.mode {
            Mode::Simple => height,
            Mode::HalfBlock => (height + 1) / 2,
        }
    }

    /// The cell in column `col` of text row `row`. In half-block mode the
    /// last text row of a grid with an odd number of rows has no lower
    /// pixels: its foreground is the background colour.
    pub open spec fn cell_at(self, cells: Seq<Tint>, width: int, col: int, row: int) -> Cell {
        match self.mode {
            Mode::Simple => Cell { fg: cells[row * width + col], bg: self.background },
            Mode::HalfBlock => Cell {
                fg: if (2 * row + 1) * width + col < cells.len() {
                    cells[(2 * row + 1) * width + col]
                } else {
                    self.background
                },
                bg: cells[2 * row * width + col],
            },
        }
    }

    /// The text of the first `cols` cells of text row `row`, written from
    /// `cache`.
    pub open spec fn row_text(
        self,
        cells: Seq<Tint>,
        width: int,
        row: int,
        cols: nat,
        cache: Cache,
    ) -> Seq<char>
        decreases cols,
    {
        if cols == 0 {
            Seq::empty()
        } else {
            self.row_text(cells, width, row, (cols - 1) as nat, cache) + self.cell_text(
                self.cell_at(cells, width, cols - 1, row),
                self.row_cache(cells, width, row, (cols - 1) as nat, cache),
            )
        }
    }

    /// The cache after the first `cols` cells of text row `row`.
    pub open spec fn row_cache(
        self,
        cells: Seq<Tint>,
        width: int,
        row: int,
        cols: nat,
        cache: Cache,
    ) -> Cache
        decreases cols,
    {
        if cols == 0 {
            cache
        } else {
            self.cache_after(
                self.cell_at(cells, width, cols - 1, row),
                self.row_cache(cells, width, row, (cols - 1) as nat, cache),
            )
        }
    }

    /// The cache from which text row `row` is written.
    pub open spec fn cache_before_row(self, cells: Seq<Tint>, width: int, row: nat) -> Cache
        decreases row,
    {
        if row == 0 {
            Encoder::initial_cache()
        } else {
            self.boundary_cache(
                self.row_cache(
                    cells,
                    width,
                    row - 1,
                    width as nat,
                    self.cache_before_row(cells, width, (row - 1) as nat),
                ),
            )
        }
    }

    /// The text of the first `rows` text rows, with what stands between
    /// them.
    pub open spec fn rows_text(self, cells: Seq<Tint>, width: int, rows: nat) -> Seq<char>
        decreases rows,
    {
        if rows == 0 {
            Seq::empty()
        } else {
            self.rows_text(cells, width, (rows - 1) as nat) + (if rows > 1 {
                self.boundary_text()
            } else {
                Seq::empty()
            }) + self.row_text(
                cells,
                width,
                rows - 1,
                width as nat,
                self.cache_before_row(cells, width, (rows - 1) as nat),
            )
        }
    }

    /// The text of a whole frame.
    pub open spec fn frame_text(self, canvas: Canvas) -> Seq<char> {
        self.rows_text(
            canvas.cells@,
            canvas.width as int,
            self.text_rows(canvas.height()) as nat,
        )
    }

    /// An encoder of half blocks over `background`, with the lower half
    /// block as its glyph, a space as its blank, blanks in use, rows not
    /// split, a line feed as its line end and an empty table.
    pub fn new(tolerance: u32, background: Tint) -> (enc: Encoder)
        ensures
            enc.mode == Mode::HalfBlock,
            enc.glyph == '\u{2584}',
            enc.blank == ' ',
            enc.empty_char,
            !enc.split_edge,
            enc.tolerance == tolerance,
            enc.background == background,
            enc.line_end@ == CR@,
            enc.table.entries@.len() == 0,
    {
        Encoder {
            mode: Mode::HalfBlock,
            glyph: '\u{2584}',
            blank: ' ',
            empty_char: true,
            split_edge: false,
            tolerance,
            background,
            line_end: CR.to_owned(),
            table: ColorTable::new(),
        }
    }

    fn push_code(&self, out: &mut Vec<char>, color: Tint, background: bool)
        ensures
            final(out)@ == old(out)@ + self.code(color, background),
    {
        let mut params: Vec<char> = Vec::new();
        push_sgr_params(&mut params, color, background);
        assert(params@ =~= sgr_params(color, background));
        self.table.push_lookup(out, &params);
    }

    /// Writes one cell: the codes for those of its colours that do not
    /// pass for the cached ones, then its glyph. The cache takes the
    /// colours that were written.
    pub fn encode_cell(&self, cell: Cell, cache: &mut Cache, out: &mut Vec<char>)
        ensures
            final(out)@ == old(out)@ + self.cell_text(cell, *old(cache)),
            *final(cache) == self.cache_after(cell, *old(cache)),
    {
        let keep_bg = cell.bg.similar(&cache.bg, self.tolerance);
        let keep_fg = cell.fg.similar(&cache.fg, self.tolerance);
        if !keep_bg || !keep_fg {
            out.push(ESC);
            out.push('[');
            if !keep_bg {
                self.push_code(out, cell.bg, true);
                cache.bg = cell.bg;
            }
            if !keep_bg && !keep_fg {
                out.push(';');
            }
            if !keep_fg {
                self.push_code(out, cell.fg, false);
                cache.fg = cell.fg;
            }
            out.push('m');
        }
        let glyph = if self.empty_char && cell.fg.similar(&cell.bg, self.tolerance) {
            self.blank
        } else {
            self.glyph
        };
        out.push(glyph);
        assert(out@ =~= old(out)@ + self.cell_text(cell, *old(cache)));
    }

    fn encode_boundary(&self, cache: &mut Cache, out: &mut Vec<char>)
        ensures
            final(out)@ == old(out)@ + self.boundary_text(),
            *final(cache) == self.boundary_cache(*old(cache)),
    {
        if self.split_edge {
            out.push(ESC);
            out.push('[');
            out.push('0');
            out.push('m');
            push_str(out, self.line_end.as_str());
            out.push(ESC);
            out.push('[');
            self.push_code(out, self.background, true);
            out.push('m');
            cache.fg = self.background;
            cache.bg = self.background;
        } else {
            push_str(out, self.line_end.as_str());
        }
        assert(out@ =~= old(out)@ + self.boundary_text());
    }

    fn cell_of(&self, canvas: &Canvas, col: usize, row: usize) -> (cell: Cell)
        requires
            canvas.wf(),
            col < canvas.width,
            row < self.text_rows(canvas.height()),
        ensures
            cell == self.cell_at(canvas.cells@, canvas.width as int, col as int, row as int),
    {
        let width = canvas.width;
        let len = canvas.cells.len();
        let ghost h = canvas.height();
        proof {
            assert(len == h * width && h >= 0) by (nonlinear_arith)
                requires
                    len % width == 0,
                    h == len as int / width as int,
                    width > 0,
                    len >= 0,
            ;
        }
        match self.mode {
            Mode::Simple => {
                assert(row * width + col < len && row * width <= len) by (nonlinear_arith)
                    requires
                        len == h * width,
                        0 <= row < h,
                        0 <= col < width,
                ;
                Cell { fg: canvas.cells[row * width + col], bg: self.background }
            },
            Mode::HalfBlock => {
                assert(2 * row < h);
                assert(2 * row * width + col < len && 2 * row * width + width <= len && 2 * row
                    * width >= 0) by (nonlinear_arith)
                    requires
                        len == h * width,
                        0 <= 2 * row < h,
                        0 <= col < width,
                ;
                let top = 2 * row * width + col;
                let bg = canvas.cells[top];
                assert((2 * row + 1) * width + col == top + width) by (nonlinear_arith)
                    requires
                        top == 2 * row * width + col,
                ;
                let fg = if top < len - width {
                    canvas.cells[top + width]
                } else {
                    self.background
                };
                Cell { fg, bg }
            },
        }
    }

    /// Writes the whole grid as one frame of text. Every frame starts from
    /// the terminal's default colours; rows are parted by the line end.
    pub fn encode(&self, canvas: &Canvas) -> (text: String)
        requires
            canvas.wf(),
        ensures
            text@ == self.frame_text(*canvas),
    {
        let mut out: Vec<char> = Vec::new();
        let width = canvas.width;
        if width == 0 {
            assert(self.text_rows(canvas.height()) == 0);
            return string_of(&out);
        }
        let height = canvas.cells.len() / width;
        let rows = match self.mode {
            Mode::Simple => height,
            Mode::HalfBlock => height / 2 + height % 2,
        };
        assert(rows == self.text_rows(canvas.height()));
        let mut cache = Cache { fg: Tint::Unset, bg: Tint::Unset };
        let mut row: usize = 0;
        while row < rows
            invariant
                canvas.wf(),
                width == canvas.width,
                width > 0,
                rows == self.text_rows(canvas.height()),
                row <= rows,
                out@ == self.rows_text(canvas.cells@, width as int, row as nat),
                (if row > 0 {
                    self.boundary_cache(cache)
                } else {
                    cache
                }) == self.cache_before_row(canvas.cells@, width as int, row as nat),
            decreases rows - row,
        {
            if row > 0 {
                self.encode_boundary(&mut cache, &mut out);
            }
            let ghost start = cache;
            let ghost before = out@;
            let mut col: usize = 0;
            while col < width
                invariant
                    canvas.wf(),
                    width == canvas.width,
                    row < self.text_rows(canvas.height()),
                    col <= width,
                    out@ == before + self.row_text(
                        canvas.cells@,
                        width as int,
                        row as int,
                        col as nat,
                        start,
                    ),
                    cache == self.row_cache(
                        canvas.cells@,
                        width as int,
                        row as int,
                        col as nat,
                        start,
                    ),
                decreases width - col,
            {
                let cell = self.cell_of(canvas, col, row);
                self.encode_cell(cell, &mut cache, &mut out);
                col = col + 1;
            }
            row = row + 1;
        }
        string_of(&out)
    }
}

/// `count` times `glyph`.
pub open spec fn glyph_run(glyph: char, count: nat) -> Seq<char> {
    Seq::new(count, |i: int| glyph)
}

/// `rows` runs of `width` times `glyph`, parted by `sep`.
pub open spec fn glyph_rows(glyph: char, width: nat, rows: nat, sep: Seq<char>) -> Seq<char>
    decreases rows,
{
    if rows == 0 {
        Seq::empty()
    } else {
        glyph_rows(glyph, width, (rows - 1) as nat, sep) + (if rows > 1 {
            sep
        } else {
            Seq::empty()
        }) + glyph_run(glyph, width)
    }
}

/// Every colour passes for itself, under every tolerance.
pub proof fn lemma_color_similar_reflexive(c: Tint, tolerance: int)
    requires
        0 <= tolerance,
    ensures
        c.similar_to(c, tolerance),
{
    match c {
        Tint::Rgb(x) => {
            crate::color::lemma_similar_reflexive_monotonic(x@, x@, tolerance, tolerance);
        },
        _ => {},
    }
}

impl Encoder {
    /// The cell that every cell of a grid of the one colour `color` is: in
    /// simple mode the colour over the background, in half-block mode the
    /// colour over itself.
    pub open spec fn uniform_cell(self, color: Tint) -> Cell {
        match self.mode {
            Mode::Simple => Cell { fg: color, bg: self.background },
            Mode::HalfBlock => Cell { fg: color, bg: color },
        }
    }

    /// A cell written a second time, right after itself, takes no codes
    /// and leaves the cache as it is.
    pub proof fn lemma_cell_repeated(self, cell: Cell, cache: Cache)
        ensures
            self.cell_codes(cell, self.cache_after(cell, cache)) == Seq::<char>::empty(),
            self.cache_after(cell, self.cache_after(cell, cache)) == self.cache_after(cell, cache),
    {
        lemma_color_similar_reflexive(cell.fg, self.tolerance as int);
        lemma_color_similar_reflexive(cell.bg, self.tolerance as int);
    }

    proof fn lemma_row_of_one_cell(
        self,
        cells: Seq<Tint>,
        width: int,
        row: int,
        cols: nat,
        cell: Cell,
        cache: Cache,
    )
        requires
            forall|col: int| 0 <= col < cols ==> self.cell_at(cells, width, col, row) == cell,
        ensures
            cols > 0 ==> self.row_text(cells, width, row, cols, cache) == self.cell_codes(
                cell,
                cache,
            ) + glyph_run(self.cell_glyph(cell), cols),
            cols > 0 ==> self.row_cache(cells, width, row, cols, cache) == self.cache_after(
                cell,
                cache,
            ),
            cols == 0 ==> self.row_text(cells, width, row, cols, cache) == Seq::<char>::empty(),
            cols == 0 ==> self.row_cache(cells, width, row, cols, cache) == cache,
        decreases cols,
    {
        let g = self.cell_glyph(cell);
        if cols == 1 {
            assert(self.cell_at(cells, width, 0, row) == cell);
            assert(self.row_text(cells, width, row, 0, cache) == Seq::<char>::empty());
            assert(self.row_text(cells, width, row, 1, cache) =~= self.cell_codes(cell, cache)
                + glyph_run(g, 1));
        } else if cols > 1 {
            self.lemma_row_of_one_cell(cells, width, row, (cols - 1) as nat, cell, cache);
            self.lemma_cell_repeated(cell, cache);
            assert(self.cell_at(cells, width, cols - 1, row) == cell);
            assert(self.row_text(cells, width, row, cols, cache) =~= self.cell_codes(cell, cache)
                + glyph_run(g, cols));
        }
    }

    /// A frame of a grid that holds one 24-bit colour throughout, written
    /// without `split_edge` (and, in half-block mode, from an even number
    /// of rows), is one colour sequence followed by nothing but glyphs and
    /// line ends: one glyph for every cell. The sequence sets the
    /// foreground, and before it the background unless that is the
    /// terminal's default already.
    pub proof fn lemma_uniform_frame(self, canvas: Canvas, color: crate::color::Rgb)
        requires
            canvas.wf(),
            canvas.cells@.len() > 0,
            !self.split_edge,
            self.mode == Mode::HalfBlock ==> canvas.height() % 2 == 0,
            forall|i: int|
                0 <= i < canvas.cells@.len() ==> canvas.cells@[i] == Tint::Rgb(color),
        ensures
            ({
                let cell = self.uniform_cell(Tint::Rgb(color));
                let codes = self.cell_codes(cell, Encoder::initial_cache());
                &&& self.frame_text(canvas) == codes + glyph_rows(
                    self.cell_glyph(cell),
                    canvas.width as nat,
                    self.text_rows(canvas.height()) as nat,
                    self.line_end@,
                )
                &&& codes == (if cell.bg == Tint::Unset {
                    seq![ESC, '['] + self.code(cell.fg, false) + seq!['m']
                } else {
                    seq![ESC, '['] + self.code(cell.bg, true) + seq![';'] + self.code(
                        cell.fg,
                        false,
                    ) + seq!['m']
                })
            }),
    {
        let width = canvas.width as int;
        let h = canvas.height();
        let len = canvas.cells@.len() as int;
        assert(len == h * width && h > 0) by (nonlinear_arith)
            requires
                len % width == 0,
                h == len / width,
                width > 0,
                len > 0,
        ;
        let rows = self.text_rows(h) as nat;
        assert(rows > 0);
        self.lemma_uniform_rows(canvas, color, rows);
    }

    proof fn lemma_uniform_rows(self, canvas: Canvas, color: crate::color::Rgb, rows: nat)
        requires
            canvas.wf(),
            canvas.cells@.len() > 0,
            !self.split_edge,
            self.mode == Mode::HalfBlock ==> canvas.height() % 2 == 0,
            forall|i: int|
                0 <= i < canvas.cells@.len() ==> canvas.cells@[i] == Tint::Rgb(color),
            0 < rows <= self.text_rows(canvas.height()),
        ensures
            ({
                let cell = self.uniform_cell(Tint::Rgb(color));
                let first = Encoder::initial_cache();
                &&& self.rows_text(canvas.cells@, canvas.width as int, rows) == self.cell_codes(
                    cell,
                    first,
                ) + glyph_rows(self.cell_glyph(cell), canvas.width as nat, rows, self.line_end@)
                &&& self.row_cache(
                    canvas.cells@,
                    canvas.width as int,
                    rows - 1,
                    canvas.width as nat,
                    self.cache_before_row(canvas.cells@, canvas.width as int, (rows - 1) as nat),
                ) == self.cache_after(cell, first)
            }),
        decreases rows,
    {
        let cells = canvas.cells@;
        let width = canvas.width as int;
        let h = canvas.height();
        let len = cells.len() as int;
        let cell = self.uniform_cell(Tint::Rgb(color));
        let first = Encoder::initial_cache();
        let g = self.cell_glyph(cell);
        let row = rows - 1;
        assert(len == h * width) by (nonlinear_arith)
            requires
                len % width == 0,
                h == len / width,
                width > 0,
        ;
        assert forall|col: int| 0 <= col < width implies self.cell_at(cells, width, col, row)
            == cell by {
            match self.mode {
                Mode::Simple => {
                    assert(0 <= row * width + col < len) by (nonlinear_arith)
                        requires
                            len == h * width,
                            0 <= row < h,
                            0 <= col < width,
                    ;
                },
                Mode::HalfBlock => {
                    assert(0 <= 2 * row * width + col && (2 * row + 1) * width + col < len)
                        by (nonlinear_arith)
                        requires
                            len == h * width,
                            0 <= 2 * row + 1 < h,
                            0 <= col < width,
                    ;
                    assert(2 * row * width + col < (2 * row + 1) * width + col)
                        by (nonlinear_arith)
                        requires
                            width > 0,
                    ;
                },
            }
        }
        let start = self.cache_before_row(cells, width, row as nat);
        self.lemma_row_of_one_cell(cells, width, row, width as nat, cell, start);
        if rows == 1 {
            assert(self.rows_text(cells, width, 0) == Seq::<char>::empty());
            assert(glyph_rows(g, width as nat, 0, self.line_end@) == Seq::<char>::empty());
            assert(self.rows_text(cells, width, rows) =~= self.cell_codes(cell, first)
                + glyph_rows(g, width as nat, rows, self.line_end@));
        } else {
            self.lemma_uniform_rows(canvas, color, (rows - 1) as nat);
            assert(start == self.cache_after(cell, first));
            self.lemma_cell_repeated(cell, first);
            assert(self.rows_text(cells, width, rows) =~= self.cell_codes(cell, first)
                + glyph_rows(g, width as nat, rows, self.line_end@));
        }
    }
}

} // verus!
