//! What the renderer asks the display to draw: one `Plot` per grid cell written.
use crate::layout::Rect;
use crate::pane::{Pane, PaneModel, WIDTH};
use crate::ring::{safe_add, wrap};
use vstd::prelude::*;

verus! {

/// The two display colours the console uses.
#[derive(Clone, Copy, Debug, PartialEq, Eq, Structural)]
pub enum Shade {
    Black,
    Green,
}

/// A foreground and a background colour.
#[derive(Clone, Copy, Debug, PartialEq, Eq, Structural)]
pub struct ColorPair {
    pub foreground: Shade,
    pub background: Shade,
}

/// One cell to write: character `ch` at column `x`, row `y`.
#[derive(Clone, Copy, Debug, PartialEq, Eq, Structural)]
pub struct Plot {
    pub ch: char,
    pub x: usize,
    pub y: usize,
    pub color: ColorPair,
}

/// Glyph of a window's outline.
pub const BORDER: char = '.';

/// Glyph that erases a cell.
pub const BLANK: char = ' ';

/// Outline colours: inverted for the focused window.
pub open spec fn frame_color(focused: bool) -> ColorPair {
    if focused {
        ColorPair { foreground: Shade::Black, background: Shade::Green }
    } else {
        ColorPair { foreground: Shade::Green, background: Shade::Black }
    }
}

/// Colours of typed text.
pub open spec fn text_color() -> ColorPair {
    ColorPair { foreground: Shade::Green, background: Shade::Black }
}

/// Colours of an erased cell.
pub open spec fn blank_color() -> ColorPair {
    ColorPair { foreground: Shade::Black, background: Shade::Black }
}

/// The digit of the title of window `id`, whose title is `F` and that digit: the name
/// of the function key that focuses it.
pub open spec fn title_digit(id: int) -> char {
    if id == 0 {
        '1'
    } else if id == 1 {
        '2'
    } else if id == 2 {
        '3'
    } else {
        '4'
    }
}

/// Top and bottom edges, column by column: a top cell, then the bottom cell below it.
pub open spec fn edges_across(r: Rect, color: ColorPair) -> Seq<Plot> {
    Seq::new(
        (2 * (r.right - r.left + 1)) as nat,
        |i: int|
            Plot {
                ch: BORDER,
                x: (r.left + i / 2) as usize,
                y: if i % 2 == 0 { r.top } else { r.bottom },
                color,
            },
    )
}

/// Left and right edges, row by row: a left cell, then the right cell beside it.
pub open spec fn edges_down(r: Rect, color: ColorPair) -> Seq<Plot> {
    Seq::new(
        (2 * (r.bottom - r.top + 1)) as nat,
        |i: int|
            Plot {
                ch: BORDER,
                x: if i % 2 == 0 { r.left } else { r.right },
                y: (r.top + i / 2) as usize,
                color,
            },
    )
}

/// The title of window `id`, centred on the top edge.
pub open spec fn title_line(r: Rect, color: ColorPair, id: int) -> Seq<Plot> {
    let center = (r.left + r.right) / 2;
    seq![
        Plot { ch: 'F', x: center as usize, y: r.top, color },
        Plot { ch: title_digit(id), x: (center + 1) as usize, y: r.top, color },
    ]
}

/// Everything drawn for window `id` with rectangle `r`.
pub open spec fn outline(r: Rect, id: int, focused: bool) -> Seq<Plot> {
    edges_across(r, frame_color(focused)) + edges_down(r, frame_color(focused)) + title_line(r, frame_color(focused), id)
}

/// Screen column of the `n`-th live cell of a window whose left edge is `left`.
pub open spec fn live_column(left: int, n: int) -> int {
    left + wrap(n, 1, WIDTH as int)
}

/// The cells of the current row drawn for the first `k` live columns of pane `p` in
/// window `r`; a cell at or past the right edge is skipped. When `erase` holds every
/// cell is drawn blank, otherwise with its buffered character.
pub open spec fn live_line(r: Rect, p: PaneModel, erase: bool, k: int) -> Seq<Plot>
    decreases k,
{
    if k <= 0 {
        Seq::empty()
    } else {
        let before = live_line(r, p, erase, k - 1);
        let x = live_column(r.left as int, k - 1);
        if x < r.right {
            before.push(
                Plot {
                    ch: if erase { BLANK } else { p.cell(p.cursor_row, k - 1) },
                    x: x as usize,
                    y: (r.top + p.cursor_row) as usize,
                    color: if erase { blank_color() } else { text_color() },
                },
            )
        } else {
            before
        }
    }
}

fn frame_color_of(focused: bool) -> (c: ColorPair)
    ensures
        c == frame_color(focused),
{
    if focused {
        ColorPair { foreground: Shade::Black, background: Shade::Green }
    } else {
        ColorPair { foreground: Shade::Green, background: Shade::Black }
    }
}

fn title_digit_of(id: usize) -> (c: char)
    requires
        id < 4,
    ensures
        c == title_digit(id as int),
{
    if id == 0 {
        '1'
    } else if id == 1 {
        '2'
    } else if id == 2 {
        '3'
    } else {
        '4'
    }
}

fn push_edges_across(out: &mut Vec<Plot>, r: Rect, color: ColorPair)
    requires
        r.on_grid(),
    ensures
        final(out)@ == old(out)@ + edges_across(r, color),
{
    let ghost start = out@;
    let mut x: usize = r.left;
    while x <= r.right
        invariant
            r.on_grid(),
            r.left <= x <= r.right + 1,
            out@ == start + edges_across(r, color).take(2 * (x - r.left)),
        decreases r.right + 1 - x,
    {
        out.push(Plot { ch: BORDER, x, y: r.top, color });
        out.push(Plot { ch: BORDER, x, y: r.bottom, color });
        proof {
            let k = 2 * (x - r.left);
            assert(edges_across(r, color).take(k + 2) =~= edges_across(r, color).take(k).push(
                edges_across(r, color)[k],
            ).push(edges_across(r, color)[k + 1]));
            assert(out@ =~= start + edges_across(r, color).take(k + 2));
        }
        x = x + 1;
    }
    assert(edges_across(r, color).take(2 * (x - r.left)) =~= edges_across(r, color));
}

fn push_edges_down(out: &mut Vec<Plot>, r: Rect, color: ColorPair)
    requires
        r.on_grid(),
    ensures
        final(out)@ == old(out)@ + edges_down(r, color),
{
    let ghost start = out@;
    let mut y: usize = r.top;
    while y <= r.bottom
        invariant
            r.on_grid(),
            r.top <= y <= r.bottom + 1,
            out@ == start + edges_down(r, color).take(2 * (y - r.top)),
        decreases r.bottom + 1 - y,
    {
        out.push(Plot { ch: BORDER, x: r.left, y, color });
        out.push(Plot { ch: BORDER, x: r.right, y, color });
        proof {
            let k = 2 * (y - r.top);
            assert(edges_down(r, color).take(k + 2) =~= edges_down(r, color).take(k).push(
                edges_down(r, color)[k],
            ).push(edges_down(r, color)[k + 1]));
            assert(out@ =~= start + edges_down(r, color).take(k + 2));
        }
        y = y + 1;
    }
    assert(edges_down(r, color).take(2 * (y - r.top)) =~= edges_down(r, color));
}

fn push_header(out: &mut Vec<Plot>, r: Rect, id: usize, color: ColorPair)
    requires
        r.on_grid(),
        id < 4,
    ensures
        final(out)@ == old(out)@ + title_line(r, color, id as int),
{
    let center: usize = (r.left + r.right) / 2;
    out.push(Plot { ch: 'F', x: center, y: r.top, color });
    out.push(Plot { ch: title_digit_of(id), x: center + 1, y: r.top, color });
    assert(out@ =~= old(out)@ + title_line(r, color, id as int));
}

/// Appends to `out` the outline and title of window `id`.
pub fn push_outline(out: &mut Vec<Plot>, r: Rect, id: usize, focused: bool)
    requires
        r.on_grid(),
        id < 4,
    ensures
        final(out)@ == old(out)@ + outline(r, id as int, focused),
{
    let color = frame_color_of(focused);
    push_edges_across(out, r, color);
    push_edges_down(out, r, color);
    push_header(out, r, id, color);
    assert(out@ =~= old(out)@ + outline(r, id as int, focused));
}

/// Appends to `out` the live cells of the current row of `p`, shown in window `r`.
pub fn push_live_line(out: &mut Vec<Plot>, r: Rect, p: &Pane, erase: bool)
    requires
        r.on_grid(),
        p@.wf(),
    ensures
        final(out)@ == old(out)@ + live_line(r, p@, erase, p@.visible_length),
{
    let ghost start = out@;
    let row: usize = p.cursor_row();
    let y: usize = r.top + row;
    let len: usize = p.visible_length();
    let mut n: usize = 0;
    while n < len
        invariant
            r.on_grid(),
            p@.wf(),
            row == p@.cursor_row,
            y == r.top + row,
            len == p@.visible_length,
            n <= len,
            out@ == start + live_line(r, p@, erase, n as int),
        decreases len - n,
    {
        let x: usize = r.left + safe_add::<WIDTH>(n, 1);
        if x < r.right {
            let ch = if erase {
                BLANK
            } else {
                p.cell(row, n)
            };
            let color = if erase {
                ColorPair { foreground: Shade::Black, background: Shade::Black }
            } else {
                ColorPair { foreground: Shade::Green, background: Shade::Black }
            };
            out.push(Plot { ch, x, y, color });
        }
        n = n + 1;
        assert(out@ =~= start + live_line(r, p@, erase, n as int));
    }
}

} // verus!
