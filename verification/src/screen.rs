//! Incremental output through `term_lattice`: a screen buffer that keeps
//! what the terminal shows, and writes only what has changed since.

use crate::color::Tint;
use crate::render::Canvas;
use term_lattice::ScreenBuffer;
use vstd::prelude::*;

verus! {

/// `term_lattice::ScreenBuffer`, a grid of colours with the state of what
/// was written last.
#[verifier::external_type_specification]
#[verifier::external_body]
pub struct ExScreenBuffer(term_lattice::ScreenBuffer);

/// `term_lattice::Color`, the colour of one cell of such a buffer, which
/// the buffer's conversions speak of.
#[verifier::external_type_specification]
#[verifier::external_body]
pub struct ExLatticeColor(term_lattice::Color);

/// The colours that the buffer holds, row by row.
pub uninterp spec fn screen_cells(buf: ScreenBuffer) -> Seq<Tint>;

/// The number of columns that the buffer was made with.
pub uninterp spec fn screen_width(buf: ScreenBuffer) -> nat;

/// The number of pixel rows that the buffer was made with.
pub uninterp spec fn screen_height(buf: ScreenBuffer) -> nat;

/// The colour difference threshold that the buffer is configured with:
/// what a flush takes for one colour lies below it.
pub uninterp spec fn screen_threshold(buf: ScreenBuffer) -> nat;

/// The colours that the buffer takes the terminal to show, cell by cell:
/// the terminal's default where it has flushed nothing.
pub uninterp spec fn screen_shown(buf: ScreenBuffer) -> Seq<Tint>;

/// The text that a flush of the buffer writes: the codes and glyphs of the
/// cells that differ from what was flushed before, and the cursor moves
/// between them.
pub uninterp spec fn screen_text(buf: ScreenBuffer) -> Seq<char>;

/// The extents that a buffer can have and be flushed: an even number of
/// rows, and cursor moves along a row or down the rows that fit 16 bits.
pub open spec fn screen_fits(width: nat, height: nat) -> bool {
    &&& height % 2 == 0
    &&& width <= 0xffff
    &&& height / 2 <= 0xffff
}

/// `ScreenBuffer::new_from_cfg` with a `Config` that holds `background`
/// as the default colour and `tolerance` as the colour difference
/// threshold: a buffer of the given extent with room for at least every
/// cell of it, each cell the default colour, that keeps the `Config` and
/// takes the terminal to show nothing yet. The constructor panics on an
/// odd number of rows and multiplies the extents in 32 bits.
#[verifier::external_body]
fn new_buffer(width: u32, height: u32, tolerance: u32, background: Tint) -> (buf: ScreenBuffer)
    requires
        height % 2 == 0,
        width * height <= u32::MAX,
    ensures
        screen_width(buf) == width,
        screen_height(buf) == height,
        screen_cells(buf).len() >= width * height,
        forall|i: int| 0 <= i < screen_cells(buf).len() ==> screen_cells(buf)[i] == background,
        screen_threshold(buf) == tolerance,
        screen_shown(buf).len() >= width * height,
        forall|i: int| 0 <= i < screen_shown(buf).len() ==> screen_shown(buf)[i] == Tint::Unset,
{
    let mut cfg = term_lattice::Config::new();
    cfg.default_color = match background {
        Tint::Rgb(x) => term_lattice::Color::Rgb(x),
        Tint::C256(x) => term_lattice::Color::C256(x),
        Tint::Unset => term_lattice::Color::None,
    };
    cfg.chromatic_aberration = tolerance;
    ScreenBuffer::new_from_cfg([width, height], cfg)
}

/// `ScreenBuffer::set_idx`: the cell at `index` becomes `color`, nothing
/// else changes, neither a cell nor the threshold nor what the terminal is
/// taken to show. It panics past the last cell.
#[verifier::external_body]
fn set_cell(buf: &mut ScreenBuffer, index: usize, color: Tint)
    requires
        index < screen_cells(*old(buf)).len(),
    ensures
        screen_cells(*final(buf)) == screen_cells(*old(buf)).update(index as int, color),
        screen_width(*final(buf)) == screen_width(*old(buf)),
        screen_height(*final(buf)) == screen_height(*old(buf)),
        screen_threshold(*final(buf)) == screen_threshold(*old(buf)),
        screen_shown(*final(buf)) == screen_shown(*old(buf)),
{
    buf.set_idx(
        index,
        match color {
            Tint::Rgb(x) => term_lattice::Color::Rgb(x),
            Tint::C256(x) => term_lattice::Color::C256(x),
            Tint::Unset => term_lattice::Color::None,
        },
    );
}

/// `ScreenBuffer::fill`: every cell becomes `color`. The threshold and
/// what the terminal is taken to show stay.
#[verifier::external_body]
fn fill_cells(buf: &mut ScreenBuffer, color: Tint)
    ensures
        screen_cells(*final(buf)).len() == screen_cells(*old(buf)).len(),
        forall|i: int|
            0 <= i < screen_cells(*final(buf)).len() ==> screen_cells(*final(buf))[i] == color,
        screen_width(*final(buf)) == screen_width(*old(buf)),
        screen_height(*final(buf)) == screen_height(*old(buf)),
        screen_threshold(*final(buf)) == screen_threshold(*old(buf)),
        screen_shown(*final(buf)) == screen_shown(*old(buf)),
{
    buf.fill(
        match color {
            Tint::Rgb(x) => term_lattice::Color::Rgb(x),
            Tint::C256(x) => term_lattice::Color::C256(x),
            Tint::Unset => term_lattice::Color::None,
        },
    );
}

/// `ScreenBuffer::init_bg_colors`: the buffer forgets what was flushed and
/// takes the terminal to show its default in every cell. The cells and the
/// threshold stay.
#[verifier::external_body]
fn forget_flushed(buf: &mut ScreenBuffer)
    ensures
        screen_cells(*final(buf)) == screen_cells(*old(buf)),
        screen_width(*final(buf)) == screen_width(*old(buf)),
        screen_height(*final(buf)) == screen_height(*old(buf)),
        screen_threshold(*final(buf)) == screen_threshold(*old(buf)),
        screen_shown(*final(buf)).len() == screen_shown(*old(buf)).len(),
        forall|i: int|
            0 <= i < screen_shown(*final(buf)).len() ==> screen_shown(*final(buf))[i]
                == Tint::Unset,
{
    buf.init_bg_colors();
}

/// The field `cfg.chromatic_aberration` of the buffer: the threshold
/// becomes `tolerance`. The cells and what the terminal is taken to show
/// stay.
#[verifier::external_body]
fn set_threshold(buf: &mut ScreenBuffer, tolerance: u32)
    ensures
        screen_cells(*final(buf)) == screen_cells(*old(buf)),
        screen_width(*final(buf)) == screen_width(*old(buf)),
        screen_height(*final(buf)) == screen_height(*old(buf)),
        screen_threshold(*final(buf)) == tolerance,
        screen_shown(*final(buf)) == screen_shown(*old(buf)),
{
    buf.cfg.chromatic_aberration = tolerance;
}

/// `ScreenBuffer::flush_to_string(false, ..)` into an empty string: the
/// text for what has changed, written from reset colours. The cells and
/// the threshold stay; what the terminal is taken to show changes where
/// the flush wrote, cell for cell. The flush counts the cursor moves of a row, and the rows it moves down,
/// in 16 bits.
#[verifier::external_body]
fn flush_buffer(buf: &mut ScreenBuffer) -> (text: String)
    requires
        screen_fits(screen_width(*old(buf)), screen_height(*old(buf))),
    ensures
        text@ == screen_text(*old(buf)),
        screen_cells(*final(buf)) == screen_cells(*old(buf)),
        screen_width(*final(buf)) == screen_width(*old(buf)),
        screen_height(*final(buf)) == screen_height(*old(buf)),
        screen_threshold(*final(buf)) == screen_threshold(*old(buf)),
        screen_shown(*final(buf)).len() == screen_shown(*old(buf)).len(),
{
    let mut text = String::new();
    buf.flush_to_string(false, &mut text);
    text
}

/// The colour of cell `i` of a screen of `columns` columns after the first
/// `y` rows of `canvas`, and the first `x` cells of the row after them,
/// were laid over `before` from the upper left corner.
pub open spec fn painted_upto(
    before: Seq<Tint>,
    columns: int,
    canvas: Canvas,
    i: int,
    y: int,
    x: int,
) -> Tint {
    let col = i % columns;
    let row = i / columns;
    if col < canvas.width && (row < y || (row == y && col < x)) {
        canvas.cells@[row * canvas.width + col]
    } else {
        before[i]
    }
}

/// The colour of cell `i` after all of `canvas` was laid over `before`.
pub open spec fn painted(before: Seq<Tint>, columns: int, canvas: Canvas, i: int) -> Tint {
    painted_upto(before, columns, canvas, i, canvas.height(), 0)
}

/// A screen buffer of a known extent.
pub struct Screen {
    buf: ScreenBuffer,
    width: u32,
    height: u32,
}

impl Screen {
    /// The extent that the screen records is the buffer's own, can be
    /// flushed, and every cell of it is there.
    pub closed spec fn wf(self) -> bool {
        &&& screen_width(self.buf) == self.width
        &&& screen_height(self.buf) == self.height
        &&& screen_fits(self.width as nat, self.height as nat)
        &&& self.width * self.height <= u32::MAX
        &&& screen_cells(self.buf).len() >= self.width * self.height
        &&& screen_shown(self.buf).len() >= self.width * self.height
    }

    /// The number of columns.
    pub closed spec fn columns(self) -> nat {
        self.width as nat
    }

    /// The number of pixel rows, always even.
    pub closed spec fn rows(self) -> nat {
        self.height as nat
    }

    /// The colours of the cells, row by row.
    pub closed spec fn cells(self) -> Seq<Tint> {
        screen_cells(self.buf).take(self.width * self.height)
    }

    /// The tolerance: a flush takes two colours for one where their
    /// distance lies below it.
    pub closed spec fn tolerance(self) -> nat {
        screen_threshold(self.buf)
    }

    /// The colours that the terminal is taken to show, row by row: the
    /// terminal's default where nothing was flushed, or after
    /// [`invalidate`](Screen::invalidate). A flush writes the cells that
    /// differ from these.
    pub closed spec fn shown(self) -> Seq<Tint> {
        screen_shown(self.buf).take(self.width * self.height)
    }

    /// What the next flush writes.
    pub closed spec fn pending(self) -> Seq<char> {
        screen_text(self.buf)
    }

    /// A screen of `width` columns and `height` pixel rows, every cell
    /// `background`, that takes colours within `tolerance` for one.
    /// Nothing for an extent that cannot be flushed.
    pub fn new(width: u32, height: u32, tolerance: u32, background: Tint) -> (screen: Option<
        Screen,
    >)
        ensures
            screen is Some <==> screen_fits(width as nat, height as nat) && width * height
                <= u32::MAX,
            screen matches Some(s) ==> {
                &&& s.wf()
                &&& s.columns() == width
                &&& s.rows() == height
                &&& s.cells().len() == width * height
                &&& forall|i: int| 0 <= i < s.cells().len() ==> s.cells()[i] == background
                &&& s.tolerance() == tolerance
                &&& s.shown().len() == width * height
                &&& forall|i: int| 0 <= i < s.shown().len() ==> s.shown()[i] == Tint::Unset
            },
    {
        if height % 2 != 0 || width > 0xffff || height / 2 > 0xffff {
            return None;
        }
        assert(width * height <= 0xffff * 0x1_ffff) by (nonlinear_arith)
            requires
                0 <= width <= 0xffff,
                0 <= height <= 0x1_ffff,
        ;
        if width as u64 * height as u64 > u32::MAX as u64 {
            return None;
        }
        let buf = new_buffer(width, height, tolerance, background);
        Some(Screen { buf, width, height })
    }

    /// Shows `canvas` at the upper left corner: every cell of the screen
    /// that the canvas covers takes the canvas's colour there, the others
    /// stay as they are.
    pub fn paint(&mut self, canvas: &Canvas)
        requires
            old(self).wf(),
            canvas.wf(),
        ensures
            final(self).wf(),
            final(self).columns() == old(self).columns(),
            final(self).rows() == old(self).rows(),
            final(self).tolerance() == old(self).tolerance(),
            final(self).shown() == old(self).shown(),
            final(self).cells().len() == old(self).cells().len(),
            forall|i: int|
                0 <= i < final(self).cells().len() ==> final(self).cells()[i] == painted(
                    old(self).cells(),
                    old(self).columns() as int,
                    *canvas,
                    i,
                ),
    {
        let width = self.width as usize;
        let height = self.height as usize;
        if canvas.width == 0 || width == 0 {
            proof {
                assert(width == 0 ==> width * height == 0) by (nonlinear_arith);
                assert forall|i: int| 0 <= i < self.cells().len() implies self.cells()[i]
                    == painted(old(self).cells(), old(self).columns() as int, *canvas, i) by {
                    assert(i % (width as int) >= 0) by (nonlinear_arith)
                        requires
                            width > 0,
                            i >= 0,
                    ;
                }
            }
            return ;
        }
        let canvas_height = canvas.cells.len() / canvas.width;
        let ghost before = screen_cells(self.buf);
        proof {
            assert(canvas.cells@.len() == canvas_height * canvas.width) by (nonlinear_arith)
                requires
                    canvas.cells@.len() as int % canvas.width as int == 0,
                    canvas_height == canvas.cells@.len() as int / canvas.width as int,
                    canvas.width > 0,
            ;
        }
        let mut y: usize = 0;
        while y < height && y < canvas_height
            invariant
                y <= height,
                y <= canvas_height,
                width == self.width,
                height == self.height,
                width > 0,
                canvas.width > 0,
                canvas_height == canvas.height(),
                canvas.cells@.len() == canvas_height * canvas.width,
                canvas.cells@.len() <= usize::MAX,
                screen_width(self.buf) == self.width,
                screen_height(self.buf) == self.height,
                screen_threshold(self.buf) == screen_threshold(old(self).buf),
                screen_shown(self.buf) == screen_shown(old(self).buf),
                self.width == old(self).width,
                self.height == old(self).height,
                self.width * self.height <= u32::MAX,
                screen_cells(self.buf).len() == before.len(),
                before.len() >= width * height,
                before == screen_cells(old(self).buf),
                forall|i: int|
                    0 <= i < before.len() ==> screen_cells(self.buf)[i] == painted_upto(
                        before,
                        width as int,
                        *canvas,
                        i,
                        y as int,
                        0,
                    ),
            decreases height - y,
        {
            let mut x: usize = 0;
            while x < width && x < canvas.width
                invariant
                    width == self.width,
                    height == self.height,
                    width > 0,
                    canvas.width > 0,
                    y < height,
                    y < canvas_height,
                    canvas.cells@.len() == canvas_height * canvas.width,
                    canvas.cells@.len() <= usize::MAX,
                    screen_width(self.buf) == self.width,
                    screen_height(self.buf) == self.height,
                    screen_threshold(self.buf) == screen_threshold(old(self).buf),
                    screen_shown(self.buf) == screen_shown(old(self).buf),
                    self.width == old(self).width,
                    self.height == old(self).height,
                    self.width * self.height <= u32::MAX,
                    screen_cells(self.buf).len() == before.len(),
                    before.len() >= width * height,
                    forall|i: int|
                        0 <= i < before.len() ==> screen_cells(self.buf)[i] == painted_upto(
                            before,
                            width as int,
                            *canvas,
                            i,
                            y as int,
                            x as int,
                        ),
                decreases width - x,
            {
                proof {
                    assert(y * width + x < width * height && y * width >= 0) by (nonlinear_arith)
                        requires
                            0 <= x < width,
                            0 <= y < height,
                    ;
                    assert(y * canvas.width + x < canvas_height * canvas.width && y
                        * canvas.width >= 0) by (nonlinear_arith)
                        requires
                            0 <= x < canvas.width,
                            0 <= y < canvas_height,
                    ;
                    assert((y * width + x) % (width as int) == x && (y * width + x) / (
                    width as int) == y) by (nonlinear_arith)
                        requires
                            0 <= x < width,
                            0 <= y,
                    ;
                }
                let color = canvas.cells[y * canvas.width + x];
                let ghost prev = screen_cells(self.buf);
                set_cell(&mut self.buf, y * width + x, color);
                proof {
                    assert forall|i: int| 0 <= i < before.len() implies screen_cells(self.buf)[i]
                        == painted_upto(before, width as int, *canvas, i, y as int, x + 1) by {
                        assert(i == i / (width as int) * width + i % (width as int) && 0 <= i % (
                        width as int) < width) by (nonlinear_arith)
                            requires
                                width > 0,
                        ;
                        assert(prev[i] == painted_upto(
                            before,
                            width as int,
                            *canvas,
                            i,
                            y as int,
                            x as int,
                        ));
                    }
                }
                x = x + 1;
            }
            proof {
                assert forall|i: int| 0 <= i < before.len() implies screen_cells(self.buf)[i]
                    == painted_upto(before, width as int, *canvas, i, y + 1, 0) by {
                    assert(0 <= i % (width as int) < width) by (nonlinear_arith)
                        requires
                            width > 0,
                    ;
                    assert(screen_cells(self.buf)[i] == painted_upto(
                        before,
                        width as int,
                        *canvas,
                        i,
                        y as int,
                        x as int,
                    ));
                }
            }
            y = y + 1;
        }
        proof {
            let area = width * height;
            assert forall|i: int| 0 <= i < self.cells().len() implies self.cells()[i] == painted(
                old(self).cells(),
                old(self).columns() as int,
                *canvas,
                i,
            ) by {
                assert(0 <= i / (width as int) < height) by (nonlinear_arith)
                    requires
                        0 <= i < width * height,
                        width > 0,
                ;
                assert(old(self).cells()[i] == before[i]);
                assert(self.cells()[i] == screen_cells(self.buf)[i]);
                assert(screen_cells(self.buf)[i] == painted_upto(
                    before,
                    width as int,
                    *canvas,
                    i,
                    y as int,
                    0,
                ));
            }
        }
    }

    /// Makes every cell `color`.
    pub fn clear(&mut self, color: Tint)
        requires
            old(self).wf(),
        ensures
            final(self).wf(),
            final(self).columns() == old(self).columns(),
            final(self).rows() == old(self).rows(),
            final(self).tolerance() == old(self).tolerance(),
            final(self).shown() == old(self).shown(),
            final(self).cells().len() == old(self).cells().len(),
            forall|i: int| 0 <= i < final(self).cells().len() ==> final(self).cells()[i] == color,
    {
        fill_cells(&mut self.buf, color);
    }

    /// Sets the tolerance under which the next flush takes two colours for
    /// one. The cells, and what the terminal is taken to show, stay.
    pub fn set_tolerance(&mut self, tolerance: u32)
        requires
            old(self).wf(),
        ensures
            final(self).wf(),
            final(self).tolerance() == tolerance,
            final(self).columns() == old(self).columns(),
            final(self).rows() == old(self).rows(),
            final(self).cells() == old(self).cells(),
            final(self).shown() == old(self).shown(),
    {
        set_threshold(&mut self.buf, tolerance);
    }

    /// Forgets what the terminal shows, as after the screen was cleared:
    /// the terminal is taken to show its default in every cell, so that
    /// the next flush writes every cell that holds a colour. The cells and
    /// the tolerance stay.
    pub fn invalidate(&mut self)
        requires
            old(self).wf(),
        ensures
            final(self).wf(),
            final(self).shown().len() == old(self).shown().len(),
            forall|i: int|
                0 <= i < final(self).shown().len() ==> final(self).shown()[i] == Tint::Unset,
            final(self).columns() == old(self).columns(),
            final(self).rows() == old(self).rows(),
            final(self).cells() == old(self).cells(),
            final(self).tolerance() == old(self).tolerance(),
    {
        forget_flushed(&mut self.buf);
    }

    /// Writes what has changed since the last flush. The cells stay.
    pub fn flush(&mut self) -> (text: String)
        requires
            old(self).wf(),
        ensures
            final(self).wf(),
            text@ == old(self).pending(),
            final(self).columns() == old(self).columns(),
            final(self).rows() == old(self).rows(),
            final(self).cells() == old(self).cells(),
            final(self).tolerance() == old(self).tolerance(),
            final(self).shown().len() == old(self).shown().len(),
    {
        flush_buffer(&mut self.buf)
    }
}

} // verus!
