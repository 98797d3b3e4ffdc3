//! Retiling: from the state to the commands that show the active workspace.

use vstd::prelude::*;
use crate::command::{seq_of, Command};
use crate::geometry::{compute_layout, layout_fits, layout_fits_spec, layout_of, Cell, Placement, Rect, Window};
use crate::model::{Class, Model};
use crate::seqs::{flat_map, lemma_flat_map_contains, lemma_flat_map_step};
use crate::state::State;
use crate::widgets::Ctx;

verus! {

broadcast use vstd::std_specs::hash::group_hash_axioms;

impl Model {
    /// The screen less its paddings, over the unbounded integers.
    pub open spec fn bounds_cell(self) -> Cell {
        Cell {
            x: self.style.paddings.left as int,
            y: self.style.paddings.top as int,
            width: self.screen_width - self.style.paddings.left - self.style.paddings.right,
            height: self.screen_height - self.style.paddings.top - self.style.paddings.bottom,
        }
    }

    /// The region that tiled windows share.
    pub open spec fn bounds(self) -> Rect
        recommends
            self.bounds_cell().fits(),
    {
        self.bounds_cell().rect()
    }

    /// The split position of the active workspace: its own, or the middle
    /// of the screen where it has no layout parameters.
    pub open spec fn split(self) -> u32 {
        match self.space().custom {
            Some(c) => c.separator,
            None => self.screen_width / 2,
        }
    }

    /// The placement of `w` at `rect`: a command for a managed window,
    /// none for any other handle.
    pub open spec fn place(self, w: Window, rect: Rect) -> Option<Command> {
        if self.contains(w) {
            Some(
                Command::Place {
                    window: w,
                    rect,
                    border_width: self.style.border_thickness,
                    selected: w == self.active.window,
                },
            )
        } else {
            None
        }
    }

    /// The placement of `w` where it is: a command for a managed window,
    /// none for any other handle.
    pub open spec fn refresh(self, w: Window) -> Option<Command> {
        if self.contains(w) {
            Some(
                Command::Refresh {
                    window: w,
                    border_width: self.style.border_thickness,
                    selected: w == self.active.window,
                },
            )
        } else {
            None
        }
    }

    /// The whole screen.
    pub open spec fn full_screen(self) -> Rect {
        Rect { x: 0, y: 0, width: self.screen_width, height: self.screen_height }
    }

    /// Each window is lowered.
    pub open spec fn lowering() -> spec_fn(Window) -> Seq<Command> {
        |w: Window| seq![Command::Lower(w)]
    }

    /// Each window is hidden.
    pub open spec fn hiding() -> spec_fn(Window) -> Seq<Command> {
        |w: Window| seq![Command::Unmap(w)]
    }

    /// Each placement becomes a command, if its window is managed.
    pub open spec fn placing(self) -> spec_fn(Placement) -> Seq<Command> {
        |p: Placement| seq_of(self.place(p.window, p.rect))
    }

    /// Each window is placed where it is, if it is managed.
    pub open spec fn refreshing(self) -> spec_fn(Window) -> Seq<Command> {
        |w: Window| seq_of(self.refresh(w))
    }

    /// Each window is raised and, if it is managed, given the whole screen.
    pub open spec fn filling(self) -> spec_fn(Window) -> Seq<Command> {
        |w: Window| seq![Command::Raise(w)] + seq_of(self.place(w, self.full_screen()))
    }

    /// The layout of `n` tiled windows is representable.
    pub open spec fn tiling_fits(self, n: int) -> bool {
        &&& self.bounds_cell().fits()
        &&& layout_fits_spec(n, self.split(), self.bounds(), self.style.useless_gap, self.style.border_thickness)
    }

    /// The commands that tile `ws`: every window is lowered; then, where
    /// the layout is representable, the master is placed and after it the
    /// stack from the top. Where it is not, no window is placed.
    pub open spec fn cascade_autotiling(self, ws: Seq<Window>) -> Seq<Command> {
        flat_map(ws, Self::lowering()) + if self.tiling_fits(ws.len() as int) {
            flat_map(
                layout_of(ws, self.split(), self.bounds(), self.style.useless_gap, self.style.border_thickness),
                self.placing(),
            )
        } else {
            Seq::empty()
        }
    }

    /// The commands that show the floating windows `ws`.
    pub open spec fn draw_floating_windows(self, ws: Seq<Window>) -> Seq<Command> {
        flat_map(ws, self.refreshing())
    }

    /// The commands that show the fullscreen windows `ws`.
    pub open spec fn draw_fullscreen_windows(self, ws: Seq<Window>) -> Seq<Command> {
        flat_map(ws, self.filling())
    }

    /// The commands of a retile: the widgets are redrawn; the tiled windows
    /// of the active workspace are laid out; above them the floating ones
    /// are shown where they are; above those the fullscreen ones fill the
    /// screen.
    pub open spec fn retile(self) -> Seq<Command> {
        seq![Command::DrawWidgets(Ctx::Retile)] + self.cascade_autotiling(self.space().of_class(Class::Tiled))
            + self.draw_floating_windows(self.space().of_class(Class::Floating))
            + self.draw_fullscreen_windows(self.space().of_class(Class::Fullscreen))
    }
}

/// A handle that no workspace lists is never placed: neither at a given
/// rectangle nor where it is.
pub proof fn stale_handle_is_not_placed(m: Model, w: Window, rect: Rect)
    requires
        !m.contains(w),
    ensures
        m.place(w, rect).is_none(),
        m.refresh(w).is_none(),
        seq_of(m.place(w, rect)).len() == 0,
{
}

/// Whatever windows are handed to the tiling, every window that one of
/// its commands places is a managed one.
pub proof fn tiling_places_managed_windows_only(m: Model, ws: Seq<Window>, c: Command)
    requires
        m.cascade_autotiling(ws).contains(c),
    ensures
        c is Place ==> m.contains(c->Place_window),
        !(c is Refresh),
{
    let low = flat_map(ws, Model::lowering());
    let all = m.cascade_autotiling(ws);
    let k = choose|k: int| 0 <= k < all.len() && all[k] == c;
    if k < low.len() {
        assert(low[k] == c);
        assert(low.contains(c));
        lemma_flat_map_contains(ws, Model::lowering(), c);
        let i = choose|i: int| 0 <= i < ws.len() && (#[trigger] Model::lowering()(ws[i])).contains(c);
        assert(Model::lowering()(ws[i])[0] == c);
    } else {
        let layout = layout_of(ws, m.split(), m.bounds(), m.style.useless_gap, m.style.border_thickness);
        let placed = flat_map(layout, m.placing());
        assert(placed[k - low.len()] == c);
        assert(placed.contains(c));
        lemma_flat_map_contains(layout, m.placing(), c);
        let i = choose|i: int| 0 <= i < layout.len() && (#[trigger] m.placing()(layout[i])).contains(c);
        assert(m.placing()(layout[i])[0] == c);
    }
}

/// Placing a window.
pub trait WindowExt: Sized {
    /// The handle of the window.
    spec fn handle(self) -> Window;

    /// The command that places the window at `rect`, or none where no
    /// workspace lists the window.
    fn do_map(self, state: &State, rect: Rect) -> (c: Option<Command>)
        ensures
            c == state@.place(self.handle(), rect),
    ;
}

impl WindowExt for Window {
    open spec fn handle(self) -> Window {
        self
    }

    fn do_map(self, state: &State, rect: Rect) -> (c: Option<Command>) {
        if !state.window_exists(self) {
            return None;
        }
        Some(
            Command::Place {
                window: self,
                rect,
                border_width: state.style.border_thickness,
                selected: self == state.active.window,
            },
        )
    }
}

/// Appends the command, if there is one.
pub fn push_command(out: &mut Vec<Command>, c: Option<Command>)
    ensures
        final(out)@ == old(out)@ + seq_of(c),
{
    match c {
        Some(c) => {
            out.push(c);
            assert(out@ =~= old(out)@ + seq![c]);
        },
        None => {
            assert(out@ =~= old(out)@ + Seq::<Command>::empty());
        },
    }
}

impl State {
    /// The region that tiled windows share, or `None` where the paddings
    /// leave none that is representable.
    pub fn bounds(&self) -> (b: Option<Rect>)
        ensures
            b.is_some() == self@.bounds_cell().fits(),
            b.is_some() ==> b.unwrap() == self@.bounds(),
    {
        let p = self.style.paddings;
        if p.left > 2147483647 || p.top > 2147483647 {
            return None;
        }
        if p.left > self.screen_width || p.right > self.screen_width - p.left {
            return None;
        }
        if p.top > self.screen_height || p.bottom > self.screen_height - p.top {
            return None;
        }
        Some(
            Rect {
                x: p.left as i32,
                y: p.top as i32,
                width: self.screen_width - p.left - p.right,
                height: self.screen_height - p.top - p.bottom,
            },
        )
    }

    /// The split position of the active workspace.
    pub fn split(&self) -> (s: u32)
        requires
            self.wf(),
        ensures
            s == self@.split(),
    {
        match &self.workspaces[self.active.workspace].custom {
            Some(c) => c.separator,
            None => self.screen_width / 2,
        }
    }

    /// The command that places a managed window where it is.
    pub fn refresh(&self, window: Window) -> (c: Option<Command>)
        ensures
            c == self@.refresh(window),
    {
        if !self.window_exists(window) {
            return None;
        }
        Some(
            Command::Refresh {
                window,
                border_width: self.style.border_thickness,
                selected: window == self.active.window,
            },
        )
    }

    /// Tiles `windows` in master/stack fashion: the last window is the
    /// master, left of the split position; the others share the rest.
    pub fn cascade_autotiling(&self, windows: Vec<Window>) -> (cmds: Vec<Command>)
        requires
            self.wf(),
        ensures
            cmds@ == self@.cascade_autotiling(windows@),
    {
        let mut out: Vec<Command> = Vec::new();
        let mut i: usize = 0;
        while i < windows.len()
            invariant
                i <= windows.len(),
                out@ == flat_map(windows@.take(i as int), Model::lowering()),
            decreases windows.len() - i,
        {
            proof {
                lemma_flat_map_step(windows@, Model::lowering(), i as int);
            }
            out.push(Command::Lower(windows[i]));
            i += 1;
        }
        assert(windows@.take(i as int) =~= windows@);
        let ghost lowered = out@;
        let split = self.split();
        let gap = self.style.useless_gap;
        let border = self.style.border_thickness;
        match self.bounds() {
            Some(b) => {
                if layout_fits(windows.len(), split, b, gap, border) {
                    let layout = compute_layout(&windows, split, b, gap, border);
                    let mut j: usize = 0;
                    while j < layout.len()
                        invariant
                            j <= layout.len(),
                            out@ == lowered + flat_map(layout@.take(j as int), self@.placing()),
                        decreases layout.len() - j,
                    {
                        proof {
                            lemma_flat_map_step(layout@, self@.placing(), j as int);
                        }
                        let c = layout[j].window.do_map(self, layout[j].rect);
                        push_command(&mut out, c);
                        assert(out@ =~= lowered + flat_map(layout@.take(j + 1), self@.placing()));
                        j += 1;
                    }
                    assert(layout@.take(j as int) =~= layout@);
                } else {
                    assert(out@ =~= lowered + Seq::<Command>::empty());
                }
            },
            None => {
                assert(out@ =~= lowered + Seq::<Command>::empty());
            },
        }
        out
    }

    /// Shows each of `windows` where it is.
    pub fn draw_floating_windows(&self, windows: &Vec<Window>) -> (cmds: Vec<Command>)
        ensures
            cmds@ == self@.draw_floating_windows(windows@),
    {
        let mut out: Vec<Command> = Vec::new();
        let mut i: usize = 0;
        while i < windows.len()
            invariant
                i <= windows.len(),
                out@ == flat_map(windows@.take(i as int), self@.refreshing()),
            decreases windows.len() - i,
        {
            proof {
                lemma_flat_map_step(windows@, self@.refreshing(), i as int);
            }
            let c = self.refresh(windows[i]);
            push_command(&mut out, c);
            i += 1;
        }
        assert(windows@.take(i as int) =~= windows@);
        out
    }

    /// Raises each of `windows` and gives it the whole screen.
    pub fn draw_fullscreen_windows(&self, windows: &Vec<Window>) -> (cmds: Vec<Command>)
        ensures
            cmds@ == self@.draw_fullscreen_windows(windows@),
    {
        let full = Rect { x: 0, y: 0, width: self.screen_width, height: self.screen_height };
        let mut out: Vec<Command> = Vec::new();
        let mut i: usize = 0;
        while i < windows.len()
            invariant
                i <= windows.len(),
                full == self@.full_screen(),
                out@ == flat_map(windows@.take(i as int), self@.filling()),
            decreases windows.len() - i,
        {
            proof {
                lemma_flat_map_step(windows@, self@.filling(), i as int);
            }
            let ghost before = out@;
            out.push(Command::Raise(windows[i]));
            let c = windows[i].do_map(self, full);
            push_command(&mut out, c);
            assert(out@ =~= before + (seq![Command::Raise(windows[i as int])] + seq_of(c)));
            i += 1;
        }
        assert(windows@.take(i as int) =~= windows@);
        out
    }

    /// Recomputes the geometry of every window of the active workspace.
    /// The state is not changed, and the commands depend on it alone.
    pub fn retile(&self) -> (cmds: Vec<Command>)
        requires
            self.wf(),
        ensures
            cmds@ == self@.retile(),
    {
        let space = &self.workspaces[self.active.workspace];
        assert(space@ == self@.space());
        let mut tiled: Vec<Window> = Vec::new();
        let mut floating: Vec<Window> = Vec::new();
        let mut fullscreen: Vec<Window> = Vec::new();
        let mut i: usize = 0;
        while i < space.windows.len()
            invariant
                i <= space.windows.len(),
                tiled@ == flat_map(space.windows@.take(i as int), space@.keep_class(Class::Tiled)),
                floating@ == flat_map(space.windows@.take(i as int), space@.keep_class(Class::Floating)),
                fullscreen@ == flat_map(space.windows@.take(i as int), space@.keep_class(Class::Fullscreen)),
            decreases space.windows.len() - i,
        {
            proof {
                lemma_flat_map_step(space.windows@, space@.keep_class(Class::Tiled), i as int);
                lemma_flat_map_step(space.windows@, space@.keep_class(Class::Floating), i as int);
                lemma_flat_map_step(space.windows@, space@.keep_class(Class::Fullscreen), i as int);
            }
            let w = space.windows[i];
            let ghost t = tiled@;
            let ghost fl = floating@;
            let ghost fu = fullscreen@;
            match &space.custom {
                Some(c) => {
                    if c.fullscreen_windows.contains(&w) {
                        fullscreen.push(w);
                    } else if c.floating_windows.contains(&w) {
                        floating.push(w);
                    } else {
                        tiled.push(w);
                    }
                },
                None => {
                    tiled.push(w);
                },
            }
            assert(tiled@ =~= t + space@.keep_class(Class::Tiled)(w));
            assert(floating@ =~= fl + space@.keep_class(Class::Floating)(w));
            assert(fullscreen@ =~= fu + space@.keep_class(Class::Fullscreen)(w));
            i += 1;
        }
        assert(space.windows@.take(i as int) =~= space.windows@);
        let mut out: Vec<Command> = Vec::new();
        out.push(Command::DrawWidgets(Ctx::Retile));
        assert(out@ =~= seq![Command::DrawWidgets(Ctx::Retile)]);
        let mut tiles = self.cascade_autotiling(tiled);
        out.append(&mut tiles);
        let mut floats = self.draw_floating_windows(&floating);
        out.append(&mut floats);
        let mut fulls = self.draw_fullscreen_windows(&fullscreen);
        out.append(&mut fulls);
        out
    }
}

} // verus!
