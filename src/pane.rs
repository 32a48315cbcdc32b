//! One window's text buffer, write cursor and line-wrap policy.
use crate::ring::{add1, wrap};
use vstd::prelude::*;

verus! {

/// Columns of the character grid.
pub const WIDTH: usize = 80;

/// Rows of the character grid.
pub const HEIGHT: usize = 25;

/// Placeholder glyph of a cell that holds no typed text.
pub const FILLER: char = '_';

/// The line terminator: it starts a new row instead of being stored.
pub const NEWLINE: char = '\n';

/// A character is drawable when its low byte is printable ASCII.
pub open spec fn drawable(c: char) -> bool {
    let b = (c as u32) % 256;
    0x20 <= b && b <= 0x7e
}

/// Whether `c` can be shown on the grid (the low byte of `c` lies in `0x20..=0x7e`).
pub fn is_drawable(c: char) -> (r: bool)
    ensures
        r == drawable(c),
{
    let b: u32 = (c as u32) % 256;
    0x20 <= b && b <= 0x7e
}

/// What a pane holds: `cells` is the buffer, row after row, `WIDTH` cells each.
pub struct PaneModel {
    pub cells: Seq<char>,
    pub cursor_row: int,
    pub next_slot: int,
    pub visible_length: int,
}

impl PaneModel {
    pub open spec fn wf(self) -> bool {
        &&& self.cells.len() == HEIGHT * WIDTH
        &&& 0 <= self.cursor_row < HEIGHT
        &&& 0 <= self.next_slot < WIDTH
        &&& 0 <= self.visible_length <= WIDTH
    }

    /// The cell at row `r`, column `c`.
    pub open spec fn cell(self, r: int, c: int) -> char {
        self.cells[r * WIDTH + c]
    }

    /// Row `r` of the buffer.
    pub open spec fn row(self, r: int) -> Seq<char> {
        self.cells.subrange(r * WIDTH, r * WIDTH + WIDTH)
    }

    /// A pane with every cell set to the filler and the cursor at the origin.
    pub open spec fn empty() -> PaneModel {
        PaneModel {
            cells: Seq::new((HEIGHT * WIDTH) as nat, |i: int| FILLER),
            cursor_row: 0,
            next_slot: 0,
            visible_length: 0,
        }
    }

    /// The pane after a drawable `c` is written at the cursor.
    pub open spec fn appended(self, c: char) -> PaneModel {
        let slot = wrap(self.next_slot, 1, WIDTH as int);
        let cells = self.cells.update(self.cursor_row * WIDTH + self.next_slot, c);
        if slot == WIDTH - 1 {
            PaneModel {
                cells,
                cursor_row: wrap(self.cursor_row, 1, HEIGHT as int),
                next_slot: slot,
                visible_length: 0,
            }
        } else {
            PaneModel {
                cells,
                cursor_row: self.cursor_row,
                next_slot: slot,
                visible_length: if self.visible_length + 1 < WIDTH {
                    self.visible_length + 1
                } else {
                    WIDTH as int
                },
            }
        }
    }

    /// The pane after a line break: the next row, cleared, with the cursor at its start.
    pub open spec fn after_newline(self) -> PaneModel {
        let r = wrap(self.cursor_row, 1, HEIGHT as int);
        PaneModel {
            cells: Seq::new(
                self.cells.len(),
                |i: int|
                    if r * WIDTH <= i < r * WIDTH + WIDTH {
                        FILLER
                    } else {
                        self.cells[i]
                    },
            ),
            cursor_row: r,
            next_slot: 0,
            visible_length: 1,
        }
    }

    /// The pane after the character `c` is typed into it.
    pub open spec fn typed(self, c: char) -> PaneModel {
        if drawable(c) {
            self.appended(c)
        } else if c == NEWLINE {
            self.after_newline()
        } else {
            self
        }
    }

    /// The pane after each character of `s` is appended in turn.
    pub open spec fn appended_all(self, s: Seq<char>) -> PaneModel
        decreases s.len(),
    {
        if s.len() == 0 {
            self
        } else {
            self.appended_all(s.drop_last()).appended(s.last())
        }
    }
}

/// The text buffer and write cursor of one window.
pub struct Pane {
    buffer: Vec<char>,
    cursor_row: usize,
    next_slot: usize,
    visible_length: usize,
}

impl View for Pane {
    type V = PaneModel;

    closed spec fn view(&self) -> PaneModel {
        PaneModel {
            cells: self.buffer@,
            cursor_row: self.cursor_row as int,
            next_slot: self.next_slot as int,
            visible_length: self.visible_length as int,
        }
    }
}

impl Pane {
    /// A pane filled with the filler glyph, its cursor at row 0, column 0.
    pub fn new() -> (p: Pane)
        ensures
            p@ == PaneModel::empty(),
    {
        let mut buffer: Vec<char> = Vec::new();
        let n: usize = HEIGHT * WIDTH;
        while buffer.len() < n
            invariant
                n == HEIGHT * WIDTH,
                buffer.len() <= n,
                forall|i: int| 0 <= i < buffer.len() ==> buffer@[i] == FILLER,
            decreases n - buffer.len(),
        {
            buffer.push(FILLER);
        }
        let p = Pane { buffer, cursor_row: 0, next_slot: 0, visible_length: 0 };
        assert(p@.cells =~= PaneModel::empty().cells);
        p
    }

    /// The row the cursor is on.
    pub fn cursor_row(&self) -> (r: usize)
        ensures
            r == self@.cursor_row,
    {
        self.cursor_row
    }

    /// The column where the next typed character lands.
    pub fn next_slot(&self) -> (r: usize)
        ensures
            r == self@.next_slot,
    {
        self.next_slot
    }

    /// How many columns of the current row are live.
    pub fn visible_length(&self) -> (r: usize)
        ensures
            r == self@.visible_length,
    {
        self.visible_length
    }

    /// The character at row `r`, column `c`.
    pub fn cell(&self, r: usize, c: usize) -> (ch: char)
        requires
            self@.wf(),
            r < HEIGHT,
            c < WIDTH,
        ensures
            ch == self@.cell(r as int, c as int),
    {
        self.buffer[r * WIDTH + c]
    }

    /// Writes a drawable `c` at the cursor and moves the cursor on; one cell short of a
    /// full line, the cursor moves to the next row and the live length starts over.
    pub fn append_char(&mut self, c: char)
        requires
            old(self)@.wf(),
            drawable(c),
        ensures
            final(self)@ == old(self)@.appended(c),
            final(self)@.wf(),
    {
        let at: usize = self.cursor_row * WIDTH + self.next_slot;
        self.buffer.set(at, c);
        self.next_slot = add1::<WIDTH>(self.next_slot);
        if self.visible_length + 1 < WIDTH {
            self.visible_length = self.visible_length + 1;
        } else {
            self.visible_length = WIDTH;
        }
        if self.next_slot == WIDTH - 1 {
            self.cursor_row = add1::<HEIGHT>(self.cursor_row);
            self.visible_length = 0;
        }
    }

    /// Moves the cursor to the start of the next row and clears that row.
    pub fn newline(&mut self)
        requires
            old(self)@.wf(),
        ensures
            final(self)@ == old(self)@.after_newline(),
            final(self)@.wf(),
            final(self)@.next_slot == 0,
            final(self)@.visible_length == 1,
            final(self)@.cursor_row == wrap(old(self)@.cursor_row, 1, HEIGHT as int),
            forall|c: int| 0 <= c < WIDTH ==> final(self)@.cell(final(self)@.cursor_row, c) == FILLER,
    {
        let ghost before = self.buffer@;
        self.cursor_row = add1::<HEIGHT>(self.cursor_row);
        self.next_slot = 0;
        self.visible_length = 1;
        let base: usize = self.cursor_row * WIDTH;
        let mut c: usize = 0;
        while c < WIDTH
            invariant
                base == self.cursor_row * WIDTH,
                self.cursor_row < HEIGHT,
                self.cursor_row == wrap(old(self)@.cursor_row, 1, HEIGHT as int),
                self.next_slot == 0,
                self.visible_length == 1,
                c <= WIDTH,
                self.buffer@.len() == before.len(),
                before.len() == HEIGHT * WIDTH,
                forall|i: int|
                    0 <= i < before.len() ==> self.buffer@[i] == if base <= i < base + c {
                        FILLER
                    } else {
                        before[i]
                    },
            decreases WIDTH - c,
        {
            self.buffer.set(base + c, FILLER);
            c = c + 1;
        }
        assert(self@.cells =~= old(self)@.after_newline().cells);
    }

    /// Types `c`: a drawable character is appended, a line terminator starts a new
    /// row, anything else is dropped.
    pub fn type_char(&mut self, c: char)
        requires
            old(self)@.wf(),
        ensures
            final(self)@ == old(self)@.typed(c),
            final(self)@.wf(),
    {
        if is_drawable(c) {
            self.append_char(c);
        } else if c == NEWLINE {
            self.newline();
        }
    }
}

/// The cursor names a cell of the buffer.
proof fn lemma_cursor_in_buffer(p: PaneModel)
    requires
        p.wf(),
    ensures
        0 <= p.cursor_row * WIDTH + p.next_slot < HEIGHT * WIDTH,
{
    assert(0 <= p.cursor_row * WIDTH + p.next_slot < HEIGHT * WIDTH) by (nonlinear_arith)
        requires
            0 <= p.cursor_row < HEIGHT,
            0 <= p.next_slot < WIDTH,
    ;
}

/// Typing any character keeps a pane well formed.
pub proof fn lemma_typed_wf(p: PaneModel, c: char)
    requires
        p.wf(),
    ensures
        p.typed(c).wf(),
{
    lemma_cursor_in_buffer(p);
}

/// Appending drawable characters to a line that starts at column 0, while fewer than
/// `WIDTH - 1` have been appended, keeps the cursor on its row, leaves `next_slot` at
/// their count and grows the live length by that count, up to `WIDTH`.
pub proof fn lemma_append_run(p: PaneModel, s: Seq<char>)
    requires
        p.wf(),
        p.next_slot == 0,
        s.len() < WIDTH - 1,
        forall|i: int| 0 <= i < s.len() ==> drawable(#[trigger] s[i]),
    ensures
        p.appended_all(s).wf(),
        p.appended_all(s).cursor_row == p.cursor_row,
        p.appended_all(s).next_slot == s.len(),
        p.appended_all(s).visible_length == if p.visible_length + s.len() < WIDTH {
            p.visible_length + s.len()
        } else {
            WIDTH as int
        },
    decreases s.len(),
{
    if s.len() > 0 {
        let front = s.drop_last();
        assert forall|i: int| 0 <= i < front.len() implies drawable(#[trigger] front[i]) by {
            assert(front[i] == s[i]);
        }
        lemma_append_run(p, front);
        lemma_cursor_in_buffer(p.appended_all(front));
    }
}

/// On an empty line (every column typed so far: none), `k < WIDTH - 1` drawable
/// characters leave `next_slot` and the live length both at `k`.
pub proof fn lemma_short_line(p: PaneModel, s: Seq<char>)
    requires
        p.wf(),
        p.next_slot == 0,
        p.visible_length == 0,
        s.len() < WIDTH - 1,
        forall|i: int| 0 <= i < s.len() ==> drawable(#[trigger] s[i]),
    ensures
        p.appended_all(s).next_slot == s.len(),
        p.appended_all(s).visible_length == s.len(),
{
    lemma_append_run(p, s);
}

/// Appending exactly `WIDTH - 1` drawable characters to a line that starts at column 0
/// advances the cursor by one row, on the last character only, and resets the live
/// length to 0; `next_slot` stays at `WIDTH - 1`.
pub proof fn lemma_full_line(p: PaneModel, s: Seq<char>)
    requires
        p.wf(),
        p.next_slot == 0,
        s.len() == WIDTH - 1,
        forall|i: int| 0 <= i < s.len() ==> drawable(#[trigger] s[i]),
    ensures
        p.appended_all(s).wf(),
        p.appended_all(s).cursor_row == wrap(p.cursor_row, 1, HEIGHT as int),
        p.appended_all(s).visible_length == 0,
        p.appended_all(s).next_slot == WIDTH - 1,
        forall|k: int|
            0 <= k < WIDTH - 1 ==> (#[trigger] p.appended_all(s.take(k))).cursor_row
                == p.cursor_row,
{
    let front = s.drop_last();
    assert forall|i: int| 0 <= i < front.len() implies drawable(#[trigger] front[i]) by {
        assert(front[i] == s[i]);
    }
    lemma_append_run(p, front);
    lemma_cursor_in_buffer(p.appended_all(front));
    assert forall|k: int| 0 <= k < WIDTH - 1 implies (#[trigger] p.appended_all(
        s.take(k),
    )).cursor_row == p.cursor_row by {
        let t = s.take(k);
        assert forall|i: int| 0 <= i < t.len() implies drawable(#[trigger] t[i]) by {
            assert(t[i] == s[i]);
        }
        lemma_append_run(p, t);
    }
}

} // verus!
