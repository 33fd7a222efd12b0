//! The help page: the keys, and the values that a session runs with.

use crate::color::{Tint, FmtColor};
use crate::position::sat_sub;
use crate::scale::{clamp_raw, Scale};
use crate::status::{push_ratio, ratio_text};
use crate::text::{decimal, push_decimal, push_str, string_of};
use crate::viewport::{filter_of, Filter, Viewport};
use vstd::prelude::*;

verus! {

/// One line of the page: written from the first column, and followed by a
/// line feed and a return to the first column.
pub open spec fn line(content: Seq<char>) -> Seq<char> {
    "\x1b[G"@ + content + "\n\x1b[G"@
}

/// `count` dashes.
pub open spec fn dashes(count: nat) -> Seq<char> {
    Seq::new(count, |i: int| '-')
}

/// The labels of the first `count` colours of `palette`, parted by a comma
/// and a space.
pub open spec fn palette_labels(palette: Seq<Tint>, count: nat) -> Seq<char>
    decreases count,
{
    if count == 0 {
        Seq::empty()
    } else {
        palette_labels(palette, (count - 1) as nat) + (if count > 1 {
            ", "@
        } else {
            Seq::empty()
        }) + palette[count - 1].label()
    }
}

/// The factor of one zoom step outwards: one over the factor inwards.
pub open spec fn zoom_out_raw(view: Viewport) -> int {
    clamp_raw(0x1_0000_0000int * 0x1_0000_0000 / (view.settings.zoom_ratio.raw as int))
}

/// The help page for `view` and `palette`: the screen cleared, a heading
/// between dashes that fill the terminal's width, one line for each group
/// of keys with the values in use, and the cursor set below the image.
pub open spec fn help_page(view: Viewport, palette: Seq<Tint>) -> Seq<char> {
    let rule = dashes((sat_sub(view.term_size.x, 4) / 2) as nat);
    "\x1b[2J\x1b[H\n"@ + line(rule + "Help"@ + rule) + line(
        "Move: move px:`hjkl`, move 1/4 term: `aswd`, move 3/4 term: `ASWD`, s/l ratio: ("@
            + ratio_text(view.settings.short_move.raw as nat, 2) + ","@ + ratio_text(
            view.settings.long_move.raw as nat,
            2,
        ) + ")"@,
    ) + line("Opt: add opt: `oO`, sub opt: `iI`"@) + line(
        "Zoom: `cx` or `+-`, ratio: "@ + ratio_text(zoom_out_raw(view) as nat, 4) + ","@
            + ratio_text(view.settings.zoom_ratio.raw as nat, 4),
    ) + line("ReDraw: `r`"@) + line("ReInit: `R`"@) + line(
        "SwitchBackground: `z` ["@ + palette_labels(palette, palette.len()) + "]"@,
    ) + line("InitBackground: `Z`"@) + line(
        "SetFilter: `f`, ("@ + filter_of(view.filter).label()
            + ") [Nearest, Triangle, CatmullRom, Gaussian, Lanczos3]"@,
    ) + line("FlipImage: `gG`"@) + line("Rotate: `yY`"@) + line("Invert: `m`"@) + line(
        "Grayscale: `M`"@,
    ) + line("ThisHelpInfo: `H?`"@) + line("InitRatio: `X`"@) + line("UnitRatio: `C`"@) + line(
        "Quit: `Q` or `Ctrl-C`"@,
    ) + "\x1b["@ + decimal((view.term_size.y / 2 + 1) as nat) + "H"@
}

fn push_line_start(out: &mut Vec<char>)
    ensures
        final(out)@ == old(out)@ + "\x1b[G"@,
{
    push_str(out, "\x1b[G");
}

fn push_line_end(out: &mut Vec<char>)
    ensures
        final(out)@ == old(out)@ + "\n\x1b[G"@,
{
    push_str(out, "\n\x1b[G");
}

fn push_plain_line(out: &mut Vec<char>, content: &str)
    ensures
        final(out)@ == old(out)@ + line(content@),
{
    push_line_start(out);
    push_str(out, content);
    push_line_end(out);
    assert(out@ =~= old(out)@ + line(content@));
}

fn push_dashes(out: &mut Vec<char>, count: u32)
    ensures
        final(out)@ == old(out)@ + dashes(count as nat),
{
    let mut i: u32 = 0;
    while i < count
        invariant
            i <= count,
            out@ == old(out)@ + dashes(i as nat),
        decreases count - i,
    {
        out.push('-');
        assert(dashes((i + 1) as nat) =~= dashes(i as nat).push('-'));
        i = i + 1;
    }
}

fn push_palette(out: &mut Vec<char>, palette: &Vec<Tint>)
    ensures
        final(out)@ == old(out)@ + palette_labels(palette@, palette@.len()),
{
    let mut i: usize = 0;
    while i < palette.len()
        invariant
            i <= palette.len(),
            out@ == old(out)@ + palette_labels(palette@, i as nat),
        decreases palette.len() - i,
    {
        if i > 0 {
            push_str(out, ", ");
        }
        let label = palette[i].fmt_color();
        push_str(out, label.as_str());
        assert(out@ =~= old(out)@ + palette_labels(palette@, (i + 1) as nat));
        i = i + 1;
    }
}

fn push_heading(out: &mut Vec<char>, rule: u32)
    ensures
        final(out)@ == old(out)@ + line(dashes(rule as nat) + "Help"@ + dashes(rule as nat)),
{
    push_line_start(out);
    push_dashes(out, rule);
    push_str(out, "Help");
    push_dashes(out, rule);
    push_line_end(out);
    assert(out@ =~= old(out)@ + line(dashes(rule as nat) + "Help"@ + dashes(rule as nat)));
}

fn push_move_line(out: &mut Vec<char>, short_raw: u64, long_raw: u64)
    ensures
        final(out)@ == old(out)@ + line(
            "Move: move px:`hjkl`, move 1/4 term: `aswd`, move 3/4 term: `ASWD`, s/l ratio: ("@
                + ratio_text(short_raw as nat, 2) + ","@ + ratio_text(long_raw as nat, 2) + ")"@,
        ),
{
    push_line_start(out);
    push_str(
        out,
        "Move: move px:`hjkl`, move 1/4 term: `aswd`, move 3/4 term: `ASWD`, s/l ratio: (",
    );
    push_ratio(out, short_raw, 2);
    push_str(out, ",");
    push_ratio(out, long_raw, 2);
    push_str(out, ")");
    push_line_end(out);
    assert(out@ =~= old(out)@ + line(
        "Move: move px:`hjkl`, move 1/4 term: `aswd`, move 3/4 term: `ASWD`, s/l ratio: ("@
            + ratio_text(short_raw as nat, 2) + ","@ + ratio_text(long_raw as nat, 2) + ")"@,
    ));
}

fn push_zoom_line(out: &mut Vec<char>, out_raw: u64, in_raw: u64)
    ensures
        final(out)@ == old(out)@ + line(
            "Zoom: `cx` or `+-`, ratio: "@ + ratio_text(out_raw as nat, 4) + ","@ + ratio_text(
                in_raw as nat,
                4,
            ),
        ),
{
    push_line_start(out);
    push_str(out, "Zoom: `cx` or `+-`, ratio: ");
    push_ratio(out, out_raw, 4);
    push_str(out, ",");
    push_ratio(out, in_raw, 4);
    push_line_end(out);
    assert(out@ =~= old(out)@ + line(
        "Zoom: `cx` or `+-`, ratio: "@ + ratio_text(out_raw as nat, 4) + ","@ + ratio_text(
            in_raw as nat,
            4,
        ),
    ));
}

fn push_palette_line(out: &mut Vec<char>, palette: &Vec<Tint>)
    ensures
        final(out)@ == old(out)@ + line(
            "SwitchBackground: `z` ["@ + palette_labels(palette@, palette@.len()) + "]"@,
        ),
{
    push_line_start(out);
    push_str(out, "SwitchBackground: `z` [");
    push_palette(out, palette);
    push_str(out, "]");
    push_line_end(out);
    assert(out@ =~= old(out)@ + line(
        "SwitchBackground: `z` ["@ + palette_labels(palette@, palette@.len()) + "]"@,
    ));
}

fn push_filter_line(out: &mut Vec<char>, filter: usize)
    ensures
        final(out)@ == old(out)@ + line(
            "SetFilter: `f`, ("@ + filter_of(filter).label()
                + ") [Nearest, Triangle, CatmullRom, Gaussian, Lanczos3]"@,
        ),
{
    push_line_start(out);
    push_str(out, "SetFilter: `f`, (");
    push_str(out, Filter::at(filter).name());
    push_str(out, ") [Nearest, Triangle, CatmullRom, Gaussian, Lanczos3]");
    push_line_end(out);
    assert(out@ =~= old(out)@ + line(
        "SetFilter: `f`, ("@ + filter_of(filter).label()
            + ") [Nearest, Triangle, CatmullRom, Gaussian, Lanczos3]"@,
    ));
}

/// Writes the help page.
pub fn help_text(view: &Viewport, palette: &Vec<Tint>) -> (s: String)
    requires
        view.settings.zoom_ratio.wf(),
    ensures
        s@ == help_page(*view, palette@),
{
    let mut out: Vec<char> = Vec::new();
    let rule = view.term_size.x.saturating_sub(4) / 2;
    let wider = Scale::unit().divided_by(view.settings.zoom_ratio);
    push_str(&mut out, "\x1b[2J\x1b[H\n");
    assert(out@ =~= "\x1b[2J\x1b[H\n"@);
    push_heading(&mut out, rule);
    push_move_line(&mut out, view.settings.short_move.raw, view.settings.long_move.raw);
    push_plain_line(&mut out, "Opt: add opt: `oO`, sub opt: `iI`");
    push_zoom_line(&mut out, wider.raw, view.settings.zoom_ratio.raw);
    push_plain_line(&mut out, "ReDraw: `r`");
    push_plain_line(&mut out, "ReInit: `R`");
    push_palette_line(&mut out, palette);
    push_plain_line(&mut out, "InitBackground: `Z`");
    push_filter_line(&mut out, view.filter);
    push_plain_line(&mut out, "FlipImage: `gG`");
    push_plain_line(&mut out, "Rotate: `yY`");
    push_plain_line(&mut out, "Invert: `m`");
    push_plain_line(&mut out, "Grayscale: `M`");
    push_plain_line(&mut out, "ThisHelpInfo: `H?`");
    push_plain_line(&mut out, "InitRatio: `X`");
    push_plain_line(&mut out, "UnitRatio: `C`");
    push_plain_line(&mut out, "Quit: `Q` or `Ctrl-C`");
    push_str(&mut out, "\x1b[");
    push_decimal(&mut out, (view.term_size.y / 2 + 1) as u64);
    push_str(&mut out, "H");
    string_of(&out)
}

} // verus!
