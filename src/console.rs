//! The multiplexer: four panes, their windows, the focused window, key routing and
//! the per-tick drawing.
use crate::layout::{quadrant, quadrants, Rect, NUM_WINDOWS};
use crate::pane::{lemma_typed_wf, Pane, PaneModel, NEWLINE};
use crate::render::{live_line, outline, push_live_line, push_outline, Plot};
use vstd::prelude::*;

verus! {

/// A key that decodes to no character.
#[derive(Clone, Copy, Debug, PartialEq, Eq, Structural)]
pub enum RawKey {
    F1,
    F2,
    F3,
    F4,
    Other,
}

/// A decoded keystroke: a key without a character, or a character.
#[derive(Clone, Copy, Debug, PartialEq, Eq, Structural)]
pub enum KeyEvent {
    RawKey(RawKey),
    Unicode(char),
}

/// The window a raw key focuses, if any.
pub open spec fn focus_target(k: RawKey) -> Option<int> {
    match k {
        RawKey::F1 => Some(0),
        RawKey::F2 => Some(1),
        RawKey::F3 => Some(2),
        RawKey::F4 => Some(3),
        RawKey::Other => None,
    }
}

/// What the multiplexer holds: a pane and a window per id, and the focused id.
pub struct ConsoleModel {
    pub panes: Seq<PaneModel>,
    pub windows: Seq<Rect>,
    pub active: int,
}

impl ConsoleModel {
    pub open spec fn wf(self) -> bool {
        &&& self.panes.len() == NUM_WINDOWS
        &&& self.windows.len() == NUM_WINDOWS
        &&& forall|i: int| 0 <= i < NUM_WINDOWS ==> #[trigger] self.windows[i] == quadrant(i)
        &&& forall|i: int| 0 <= i < NUM_WINDOWS ==> (#[trigger] self.panes[i]).wf()
        &&& 0 <= self.active < NUM_WINDOWS
    }

    /// Four empty panes in the quadrant windows, window 0 focused.
    pub open spec fn initial() -> ConsoleModel {
        ConsoleModel {
            panes: Seq::new(NUM_WINDOWS as nat, |i: int| PaneModel::empty()),
            windows: Seq::new(NUM_WINDOWS as nat, |i: int| quadrant(i)),
            active: 0,
        }
    }

    /// Focus moves to `id` when it names a window; otherwise nothing changes.
    pub open spec fn focused_on(self, id: int) -> ConsoleModel {
        if 0 <= id < NUM_WINDOWS {
            ConsoleModel { active: id, ..self }
        } else {
            self
        }
    }

    /// The state after key `k`: a focus key moves the focus, a character goes to the
    /// focused pane.
    pub open spec fn stepped(self, k: KeyEvent) -> ConsoleModel {
        match k {
            KeyEvent::RawKey(r) => match focus_target(r) {
                Some(id) => self.focused_on(id),
                None => self,
            },
            KeyEvent::Unicode(c) => ConsoleModel {
                panes: self.panes.update(self.active, self.panes[self.active].typed(c)),
                ..self
            },
        }
    }

    /// The focused pane's current row, erased (`erase`) or drawn.
    pub open spec fn current_line(self, erase: bool) -> Seq<Plot> {
        let p = self.panes[self.active];
        live_line(self.windows[self.active], p, erase, p.visible_length)
    }

    /// The outlines of windows `0..n`, in order.
    pub open spec fn frames(self, n: int) -> Seq<Plot>
        decreases n,
    {
        if n <= 0 {
            Seq::empty()
        } else {
            self.frames(n - 1) + outline(self.windows[n - 1], n - 1, n - 1 == self.active)
        }
    }

    /// One refresh: erase the live row, draw every outline, draw the live row.
    pub open spec fn refresh(self) -> Seq<Plot> {
        self.current_line(true) + self.frames(NUM_WINDOWS as int) + self.current_line(false)
    }
}

/// Each plot of an outline lies in its window's rectangle.
pub proof fn lemma_outline_inside(r: Rect, id: int, focused: bool)
    requires
        r.on_grid(),
        r.left < r.right,
    ensures
        forall|i: int|
            0 <= i < outline(r, id, focused).len() ==> r.contains(
                #[trigger] outline(r, id, focused)[i].x as int,
                outline(r, id, focused)[i].y as int,
            ),
{
    let o = outline(r, id, focused);
    assert forall|i: int| 0 <= i < o.len() implies r.contains(
        #[trigger] o[i].x as int,
        o[i].y as int,
    ) by {
        let w = r.right - r.left + 1;
        let h = r.bottom - r.top + 1;
        if i < 2 * w {
            assert(i / 2 < w);
        } else if i < 2 * w + 2 * h {
            assert((i - 2 * w) / 2 < h);
        }
    }
}

/// Every plot of the outlines of windows `0..n` lies in one of those windows.
pub proof fn lemma_frames_inside(s: ConsoleModel, n: int)
    requires
        s.wf(),
        0 <= n <= NUM_WINDOWS,
    ensures
        forall|i: int|
            0 <= i < s.frames(n).len() ==> exists|w: int|
                0 <= w < n && #[trigger] s.windows[w].contains(
                    (#[trigger] s.frames(n)[i]).x as int,
                    s.frames(n)[i].y as int,
                ),
    decreases n,
{
    if n > 0 {
        lemma_frames_inside(s, n - 1);
        let r = s.windows[n - 1];
        lemma_outline_inside(r, n - 1, n - 1 == s.active);
        let f = s.frames(n - 1);
        let o = outline(r, n - 1, n - 1 == s.active);
        assert forall|i: int| 0 <= i < s.frames(n).len() implies exists|w: int|
            0 <= w < n && #[trigger] s.windows[w].contains(
                (#[trigger] s.frames(n)[i]).x as int,
                s.frames(n)[i].y as int,
            ) by {
            if i < f.len() {
                assert(s.frames(n)[i] == f[i]);
                let w = choose|w: int|
                    0 <= w < n - 1 && #[trigger] s.windows[w].contains(
                        f[i].x as int,
                        f[i].y as int,
                    );
                assert(s.windows[w].contains(s.frames(n)[i].x as int, s.frames(n)[i].y as int));
            } else {
                assert(s.frames(n)[i] == o[i - f.len()]);
                assert(s.windows[n - 1].contains(
                    s.frames(n)[i].x as int,
                    s.frames(n)[i].y as int,
                ));
            }
        }
    }
}

/// After a focus key for window `id`, the focus is `id`, and a character typed next
/// changes that window's pane only.
pub proof fn lemma_focus_routes_input(s: ConsoleModel, f: RawKey, c: char)
    requires
        s.wf(),
        focus_target(f) is Some,
    ensures
        s.stepped(KeyEvent::RawKey(f)).active == focus_target(f)->0,
        s.stepped(KeyEvent::RawKey(f)).stepped(KeyEvent::Unicode(c)).wf(),
        s.stepped(KeyEvent::RawKey(f)).stepped(KeyEvent::Unicode(c)).panes[focus_target(f)->0]
            == s.panes[focus_target(f)->0].typed(c),
        forall|j: int|
            0 <= j < NUM_WINDOWS && j != focus_target(f)->0 ==> #[trigger] s.stepped(
                KeyEvent::RawKey(f),
            ).stepped(KeyEvent::Unicode(c)).panes[j] == s.panes[j],
{
    let id = focus_target(f)->0;
    assert(s.panes[id].wf());
    lemma_typed_wf(s.panes[id], c);
}

/// Four text windows tiling the grid; keystrokes go to the focused one.
pub struct SwimInterface {
    panes: Vec<Pane>,
    windows: Vec<Rect>,
    active_window: usize,
}

impl View for SwimInterface {
    type V = ConsoleModel;

    closed spec fn view(&self) -> ConsoleModel {
        ConsoleModel {
            panes: self.panes@.map_values(|p: Pane| p@),
            windows: self.windows@,
            active: self.active_window as int,
        }
    }
}

impl Default for SwimInterface {
    fn default() -> (r: SwimInterface)
        ensures
            r@ == ConsoleModel::initial(),
            r@.wf(),
    {
        SwimInterface::new()
    }
}

impl SwimInterface {
    /// Four empty panes in the quadrant windows, window 0 focused.
    pub fn new() -> (r: SwimInterface)
        ensures
            r@ == ConsoleModel::initial(),
            r@.wf(),
    {
        let mut panes: Vec<Pane> = Vec::new();
        while panes.len() < NUM_WINDOWS
            invariant
                panes.len() <= NUM_WINDOWS,
                forall|i: int| 0 <= i < panes.len() ==> (#[trigger] panes@[i])@
                    == PaneModel::empty(),
            decreases NUM_WINDOWS - panes.len(),
        {
            panes.push(Pane::new());
        }
        let r = SwimInterface { panes, windows: quadrants(), active_window: 0 };
        assert(r@.panes =~= ConsoleModel::initial().panes);
        assert(r@.windows =~= ConsoleModel::initial().windows);
        assert(PaneModel::empty().wf());
        r
    }

    /// The focused window.
    pub fn active_id(&self) -> (id: usize)
        ensures
            id == self@.active,
    {
        self.active_window
    }

    /// Moves the focus to `id` when it names a window; otherwise does nothing.
    pub fn set_active(&mut self, id: usize)
        requires
            old(self)@.wf(),
        ensures
            final(self)@ == old(self)@.focused_on(id as int),
            final(self)@.wf(),
    {
        if id < NUM_WINDOWS {
            self.active_window = id;
        }
    }

    /// The rectangle of window `id`.
    pub fn rect_of(&self, id: usize) -> (r: Rect)
        requires
            self@.wf(),
            id < NUM_WINDOWS,
        ensures
            r == quadrant(id as int),
    {
        self.windows[id]
    }

    /// Every window id, in order.
    pub fn all_ids(&self) -> (ids: Vec<usize>)
        ensures
            ids@ == seq![0usize, 1, 2, 3],
    {
        let mut ids: Vec<usize> = Vec::new();
        let mut i: usize = 0;
        while i < NUM_WINDOWS
            invariant
                i <= NUM_WINDOWS,
                ids@ == Seq::new(i as nat, |j: int| j as usize),
            decreases NUM_WINDOWS - i,
        {
            ids.push(i);
            i = i + 1;
            assert(ids@ =~= Seq::new(i as nat, |j: int| j as usize));
        }
        assert(ids@ =~= seq![0usize, 1, 2, 3]);
        ids
    }

    /// The pane of window `id`.
    pub fn pane(&self, id: usize) -> (p: &Pane)
        requires
            self@.wf(),
            id < NUM_WINDOWS,
        ensures
            p@ == self@.panes[id as int],
    {
        &self.panes[id]
    }

    /// Handles one keystroke; returns what must be drawn at once (the new live row,
    /// after a line break; nothing otherwise).
    pub fn key(&mut self, key: KeyEvent) -> (out: Vec<Plot>)
        requires
            old(self)@.wf(),
        ensures
            final(self)@ == old(self)@.stepped(key),
            final(self)@.wf(),
            out@ == if key == KeyEvent::Unicode(NEWLINE) {
                final(self)@.current_line(false)
            } else {
                Seq::empty()
            },
    {
        match key {
            KeyEvent::RawKey(code) => {
                self.handle_raw(code);
                Vec::new()
            },
            KeyEvent::Unicode(c) => self.handle_unicode(c),
        }
    }

    fn handle_raw(&mut self, key: RawKey)
        requires
            old(self)@.wf(),
        ensures
            final(self)@ == old(self)@.stepped(KeyEvent::RawKey(key)),
            final(self)@.wf(),
    {
        match key {
            RawKey::F1 => self.set_active(0),
            RawKey::F2 => self.set_active(1),
            RawKey::F3 => self.set_active(2),
            RawKey::F4 => self.set_active(3),
            RawKey::Other => {},
        }
    }

    fn handle_unicode(&mut self, c: char) -> (out: Vec<Plot>)
        requires
            old(self)@.wf(),
        ensures
            final(self)@ == old(self)@.stepped(KeyEvent::Unicode(c)),
            final(self)@.wf(),
            out@ == if c == NEWLINE {
                final(self)@.current_line(false)
            } else {
                Seq::empty()
            },
    {
        let a = self.active_window;
        proof {
            lemma_typed_wf(self@.panes[a as int], c);
        }
        self.panes[a].type_char(c);
        assert(self@.panes =~= old(self)@.stepped(KeyEvent::Unicode(c)).panes);
        if c == NEWLINE {
            self.draw_current()
        } else {
            Vec::new()
        }
    }

    /// Plots that draw the focused pane's current row.
    pub fn draw_current(&self) -> (out: Vec<Plot>)
        requires
            self@.wf(),
        ensures
            out@ == self@.current_line(false),
    {
        let mut out: Vec<Plot> = Vec::new();
        let a = self.active_window;
        assert(self@.panes[a as int] == self.panes@[a as int]@);
        push_live_line(&mut out, self.windows[a], &self.panes[a], false);
        assert(out@ =~= self@.current_line(false));
        out
    }

    /// Plots that erase the focused pane's current row.
    pub fn clear_current(&self) -> (out: Vec<Plot>)
        requires
            self@.wf(),
        ensures
            out@ == self@.current_line(true),
    {
        let mut out: Vec<Plot> = Vec::new();
        let a = self.active_window;
        assert(self@.panes[a as int] == self.panes@[a as int]@);
        push_live_line(&mut out, self.windows[a], &self.panes[a], true);
        assert(out@ =~= self@.current_line(true));
        out
    }

    /// Plots that draw the outline and title of window `id`, highlighted when focused.
    pub fn draw_window(&self, id: usize) -> (out: Vec<Plot>)
        requires
            self@.wf(),
            id < NUM_WINDOWS,
        ensures
            out@ == outline(self@.windows[id as int], id as int, id == self@.active),
    {
        let mut out: Vec<Plot> = Vec::new();
        push_outline(&mut out, self.windows[id], id, id == self.active_window);
        assert(out@ =~= outline(self@.windows[id as int], id as int, id == self@.active));
        out
    }

    /// Plots that draw every window's outline; each lies inside one of the windows.
    pub fn draw_all_windows(&self) -> (out: Vec<Plot>)
        requires
            self@.wf(),
        ensures
            out@ == self@.frames(NUM_WINDOWS as int),
            forall|i: int|
                0 <= i < out@.len() ==> exists|w: int|
                    0 <= w < NUM_WINDOWS && #[trigger] self@.windows[w].contains(
                        (#[trigger] out@[i]).x as int,
                        out@[i].y as int,
                    ),
    {
        let mut out: Vec<Plot> = Vec::new();
        let mut i: usize = 0;
        while i < NUM_WINDOWS
            invariant
                self@.wf(),
                i <= NUM_WINDOWS,
                out@ == self@.frames(i as int),
            decreases NUM_WINDOWS - i,
        {
            push_outline(&mut out, self.windows[i], i, i == self.active_window);
            i = i + 1;
        }
        proof {
            lemma_frames_inside(self@, NUM_WINDOWS as int);
        }
        out
    }

    /// One refresh: erase the live row, draw every outline, then draw the live row.
    pub fn tick(&mut self) -> (out: Vec<Plot>)
        requires
            old(self)@.wf(),
        ensures
            final(self)@ == old(self)@,
            out@ == old(self)@.refresh(),
    {
        let mut out = self.clear_current();
        let mut frames = self.draw_all_windows();
        let mut live = self.draw_current();
        out.append(&mut frames);
        out.append(&mut live);
        out
    }
}

} // verus!
