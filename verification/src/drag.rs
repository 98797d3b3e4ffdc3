//! Pointer gestures and the commands that change a window's geometry by
//! hand: the split position, floating windows, and the drag of either.

use vstd::prelude::*;
use crate::command::{seq_of, Command};
use crate::geometry::{Rect, Window};
use crate::model::{CustomModel, Model, SpaceModel, NO_WINDOW};
use crate::retile::{push_command, WindowExt};
use crate::seqs::{first_index, lemma_first_index, position};
use crate::state::{clamp, Active, State};

verus! {

broadcast use vstd::std_specs::hash::group_hash_axioms;

/// How far the pointer has to go, on either axis, before a drag has an
/// effect.
pub const DRAG_THRESHOLD: u32 = 50;

/// The least width and height that a resize leaves a floating window.
pub const MIN_FLOATING_SIZE: u32 = 100;

/// The distance between two coordinates.
pub open spec fn distance_spec(a: int, b: int) -> int {
    if a >= b {
        a - b
    } else {
        b - a
    }
}

/// `v` brought into `lo..=hi`.
pub open spec fn clamp_to(v: int, lo: int, hi: int) -> int {
    if v < lo {
        lo
    } else if v > hi {
        hi
    } else {
        v
    }
}

/// Whether `pt` is further than the threshold from `from`, on either axis.
pub open spec fn crossed(pt: (i32, i32), from: (i32, i32)) -> bool {
    distance_spec(pt.0 as int, from.0 as int) > DRAG_THRESHOLD || distance_spec(pt.1 as int, from.1 as int)
        > DRAG_THRESHOLD
}

/// `s` with the elements at `i` and `j` exchanged.
pub open spec fn swapped(s: Seq<Window>, i: int, j: int) -> Seq<Window>
    recommends
        0 <= i < s.len(),
        0 <= j < s.len(),
{
    s.update(i, s[j]).update(j, s[i])
}

/// The distance between two coordinates.
pub fn distance(a: i32, b: i32) -> (d: u32)
    ensures
        d == distance_spec(a as int, b as int),
{
    let x: i64 = a as i64;
    let y: i64 = b as i64;
    if x >= y {
        (x - y) as u32
    } else {
        (y - x) as u32
    }
}

/// `v + delta`, brought into `lo..=hi`.
pub fn shift_clamped(v: u32, delta: i32, lo: u32, hi: u32) -> (r: u32)
    requires
        lo <= hi,
    ensures
        r == clamp_to(v + delta, lo as int, hi as int),
{
    let t: i64 = v as i64 + delta as i64;
    if t < lo as i64 {
        lo
    } else if t > hi as i64 {
        hi
    } else {
        t as u32
    }
}

impl Model {
    /// The state with `c` as the layout parameters of the active
    /// workspace.
    pub open spec fn with_custom(self, c: CustomModel) -> Model {
        self.with_space(SpaceModel { custom: Some(c), ..self.space() })
    }

    /// The state with focus pinned, or free.
    pub open spec fn locked(self, on: bool) -> Model {
        Model { active: Active { focus_locked: on, ..self.active }, ..self }
    }

    /// `separator_modify`: the split position of the active workspace
    /// moves by `modifier` and stays within its range.
    pub open spec fn separator_modify(self, modifier: i32) -> Model {
        match self.space().custom {
            Some(c) => self.with_custom(
                CustomModel {
                    separator: clamp_to(
                        c.separator + modifier,
                        self.separator_min as int,
                        self.separator_max as int,
                    ) as u32,
                    ..c
                },
            ),
            None => self,
        }
    }

    /// The commands of a change of the layout parameters, `after` being
    /// the state that it led to: a retile, if the workspace has any.
    pub open spec fn custom_commands(self, after: Model) -> Seq<Command> {
        if self.space().custom.is_some() {
            after.retile()
        } else {
            Seq::empty()
        }
    }

    /// `rect`, grown by `dw` and `dh` and no smaller than the least size.
    pub open spec fn resized(rect: Rect, dw: i32, dh: i32) -> Rect {
        Rect {
            width: clamp_to(rect.width + dw, MIN_FLOATING_SIZE as int, i32::MAX as int) as u32,
            height: clamp_to(rect.height + dh, MIN_FLOATING_SIZE as int, i32::MAX as int) as u32,
            ..rect
        }
    }

    /// `active_floating_resize`: the active window, if it floats, is
    /// placed with its size changed.
    pub open spec fn active_floating_resize(self, dw: i32, dh: i32, rect: Rect) -> Option<Command> {
        if self.space().is_floating(self.active.window) {
            self.place(self.active.window, Self::resized(rect, dw, dh))
        } else {
            None
        }
    }

    /// `active_floating_move`: the active window, if it floats, is placed
    /// with its corner moved, where the new corner is representable.
    pub open spec fn active_floating_move(self, dx: i32, dy: i32, rect: Rect) -> Option<Command> {
        if self.space().is_floating(self.active.window) && i32::MIN <= rect.x + dx <= i32::MAX && i32::MIN
            <= rect.y + dy <= i32::MAX {
            self.place(self.active.window, Rect { x: (rect.x + dx) as i32, y: (rect.y + dy) as i32, ..rect })
        } else {
            None
        }
    }

    /// `leftclick_grab`: the active window is grabbed for a move, with the
    /// pointer's offset from its corner, and focus is pinned.
    pub open spec fn leftclick_grab(self, pt: (i32, i32), rect: Rect) -> Model {
        match self.space().custom {
            Some(c) => self.locked(true).with_custom(
                CustomModel {
                    leftclick_grab_window: self.active.window,
                    leftclick_grabbing: true,
                    leftclick_d: ((pt.0 - rect.x) as i64, (pt.1 - rect.y) as i64),
                    ..c
                },
            ),
            None => self,
        }
    }

    /// `leftclick_release`: the move gesture is over and focus is free.
    pub open spec fn leftclick_release(self) -> Model {
        match self.space().custom {
            Some(c) => self.locked(false).with_custom(
                CustomModel {
                    leftclick_grab_window: NO_WINDOW,
                    leftclick_grabbing: false,
                    leftclick_d: (0i64, 0i64),
                    ..c
                },
            ),
            None => self,
        }
    }

    /// `rightclick_grab`: the active window is grabbed for a resize, with
    /// the pointer's position as the anchor, and focus is pinned.
    pub open spec fn rightclick_grab(self, pt: (i32, i32)) -> Model {
        match self.space().custom {
            Some(c) => self.locked(true).with_custom(
                CustomModel {
                    rightclick_grab_origin: pt,
                    rightclick_grabbing: true,
                    rightclick_grab_window: self.active.window,
                    ..c
                },
            ),
            None => self,
        }
    }

    /// `rightclick_release`: the resize gesture is over and focus is free.
    pub open spec fn rightclick_release(self) -> Model {
        match self.space().custom {
            Some(c) => self.locked(false).with_custom(
                CustomModel {
                    rightclick_grab_origin: (0i32, 0i32),
                    rightclick_grabbing: false,
                    rightclick_grab_window: NO_WINDOW,
                    ..c
                },
            ),
            None => self,
        }
    }

    /// Whether the window grabbed with the right button floats.
    pub open spec fn resizing_floating(self) -> bool {
        self.space().custom.is_some() && self.space().is_floating(
            self.space().custom.unwrap().rightclick_grab_window,
        )
    }

    /// Whether a pointer move to `pt` takes effect in the resize gesture:
    /// for a floating window, when the pointer is further than the
    /// threshold from the anchor on either axis; for the split position,
    /// when it is so on the horizontal axis.
    pub open spec fn resize_fires(self, pt: (i32, i32)) -> bool {
        match self.space().custom {
            Some(c) => if self.resizing_floating() {
                crossed(pt, c.rightclick_grab_origin)
            } else {
                distance_spec(pt.0 as int, c.rightclick_grab_origin.0 as int) > DRAG_THRESHOLD
            },
            None => false,
        }
    }

    /// `mouse_move_rightclick`, the state: a move that takes effect makes
    /// the pointer's position the new anchor, on both axes for a floating
    /// window, on the horizontal one for the split position, which then
    /// is the pointer's column brought into its range. Any other move
    /// changes nothing.
    pub open spec fn mouse_move_rightclick(self, pt: (i32, i32)) -> Model {
        if !self.resize_fires(pt) {
            self
        } else {
            let c = self.space().custom.unwrap();
            if self.resizing_floating() {
                self.with_custom(CustomModel { rightclick_grab_origin: pt, ..c })
            } else {
                self.with_custom(
                    CustomModel {
                        separator: clamp_to(
                            pt.0 as int,
                            self.separator_min as int,
                            self.separator_max as int,
                        ) as u32,
                        rightclick_grab_origin: (pt.0, c.rightclick_grab_origin.1),
                        ..c
                    },
                )
            }
        }
    }

    /// `mouse_move_rightclick`, the commands: a move that takes effect
    /// places the floating window with the pointer at its far corner, or
    /// retiles with the new split position. Any other move gives none.
    pub open spec fn mouse_move_rightclick_commands(self, pt: (i32, i32), rect: Rect) -> Seq<Command> {
        if !self.resize_fires(pt) {
            Seq::empty()
        } else if self.resizing_floating() {
            seq_of(
                self.place(
                    self.space().custom.unwrap().rightclick_grab_window,
                    Rect {
                        width: distance_spec(pt.0 as int, rect.x as int) as u32,
                        height: distance_spec(pt.1 as int, rect.y as int) as u32,
                        ..rect
                    },
                ),
            )
        } else {
            self.mouse_move_rightclick(pt).retile()
        }
    }

    /// `mouse_move_leftclick`: the grabbed window, if it floats, is placed
    /// with its corner at the pointer less the recorded offset, where that
    /// corner is representable and further than the threshold from the
    /// corner of `rect` on either axis.
    pub open spec fn mouse_move_leftclick(self, pt: (i32, i32), rect: Rect) -> Option<Command> {
        match self.space().custom {
            Some(c) => {
                let x = pt.0 - c.leftclick_d.0;
                let y = pt.1 - c.leftclick_d.1;
                if self.space().is_floating(c.leftclick_grab_window) && i32::MIN <= x <= i32::MAX && i32::MIN
                    <= y <= i32::MAX && (distance_spec(x, rect.x as int) > DRAG_THRESHOLD || distance_spec(
                    y,
                    rect.y as int,
                ) > DRAG_THRESHOLD) {
                    self.place(c.leftclick_grab_window, Rect { x: x as i32, y: y as i32, ..rect })
                } else {
                    None
                }
            },
            None => None,
        }
    }

    /// Whether a resize gesture is in progress.
    pub open spec fn rightclick_grabbing(self) -> bool {
        self.space().custom.is_some() && self.space().custom.unwrap().rightclick_grabbing
    }

    /// Whether a move gesture is in progress.
    pub open spec fn leftclick_grabbing(self) -> bool {
        self.space().custom.is_some() && self.space().custom.unwrap().leftclick_grabbing
    }

    /// `mouse_move`, the state: that of the resize gesture, if one is in
    /// progress.
    pub open spec fn mouse_move(self, pt: (i32, i32)) -> Model {
        if self.rightclick_grabbing() {
            self.mouse_move_rightclick(pt)
        } else {
            self
        }
    }

    /// The rectangle of `w` after `cmds`, given that it was `rect` before:
    /// where the commands are the one placement of `w`, the rectangle of
    /// that placement.
    pub open spec fn rect_after(cmds: Seq<Command>, w: Window, rect: Rect) -> Rect {
        if cmds.len() == 1 {
            match cmds[0] {
                Command::Place { window, rect: placed, .. } => if window == w {
                    placed
                } else {
                    rect
                },
                _ => rect,
            }
        } else {
            rect
        }
    }

    /// The commands of the resize gesture on a pointer move, if one is in
    /// progress.
    pub open spec fn resize_commands(self, pt: (i32, i32), resized: Rect) -> Seq<Command> {
        if self.rightclick_grabbing() {
            self.mouse_move_rightclick_commands(pt, resized)
        } else {
            Seq::empty()
        }
    }

    /// `mouse_move`, the commands: those of the resize gesture, then that
    /// of the move gesture, of each if it is in progress. The move gesture
    /// sees the grabbed window as the resize gesture has left it.
    pub open spec fn mouse_move_commands(self, pt: (i32, i32), resized: Rect, moved: Rect) -> Seq<Command> {
        self.resize_commands(pt, resized) + (if self.leftclick_grabbing() {
            seq_of(
                self.mouse_move(pt).mouse_move_leftclick(
                    pt,
                    Self::rect_after(
                        self.resize_commands(pt, resized),
                        self.space().custom.unwrap().leftclick_grab_window,
                        moved,
                    ),
                ),
            )
        } else {
            Seq::empty()
        })
    }

    /// Whether the pointer's entering `window` reorders the list: a move
    /// gesture is in progress on a window that does not float, both
    /// windows are in the active workspace, and the one entered is tiled.
    pub open spec fn reorders(self, window: Window) -> bool {
        match self.space().custom {
            Some(c) => {
                &&& c.leftclick_grabbing
                &&& !self.space().is_floating(c.leftclick_grab_window)
                &&& self.space().windows.contains(window)
                &&& self.space().windows.contains(c.leftclick_grab_window)
                &&& !self.space().is_floating(window)
                &&& !self.space().is_fullscreen(window)
            },
            None => false,
        }
    }

    /// `mouse_cross`: the grabbed window and the one entered change
    /// places in the list.
    pub open spec fn mouse_cross(self, window: Window) -> Model {
        if self.reorders(window) {
            let s = self.space();
            self.with_space(
                SpaceModel {
                    windows: swapped(
                        s.windows,
                        first_index(s.windows, window, 0),
                        first_index(s.windows, s.custom.unwrap().leftclick_grab_window, 0),
                    ),
                    ..s
                },
            )
        } else {
            self
        }
    }

    /// The commands of `mouse_cross`: a retile after a reordering.
    pub open spec fn mouse_cross_commands(self, window: Window) -> Seq<Command> {
        if self.reorders(window) {
            self.mouse_cross(window).retile()
        } else {
            Seq::empty()
        }
    }
}

/// A state that lists the same windows in the same workspaces as a well
/// formed one, whose workspaces are well formed and whose active window
/// is managed or none, is well formed.
pub proof fn lemma_same_windows_wf(m: Model, r: Model)
    requires
        m.wf(),
        r.workspaces.len() == m.workspaces.len(),
        r.active.workspace < r.workspaces.len(),
        r.separator_min <= r.separator_max,
        r.root == m.root,
        forall|i: int, x: Window| #[trigger] r.holds(i, x) <==> m.holds(i, x),
        forall|i: int|
            0 <= i < r.workspaces.len() ==> (#[trigger] r.workspaces[i]).wf(r.separator_min, r.separator_max),
        r.active.window == m.active.window || m.contains(r.active.window) || r.no_window(r.active.window),
    ensures
        r.wf(),
{
    assert forall|i: int, j: int, x: Window|
        #![trigger r.holds(i, x), r.holds(j, x)]
        r.holds(i, x) && r.holds(j, x) implies i == j by {
        assert(m.holds(i, x) && m.holds(j, x));
    }
    if m.contains(r.active.window) {
        let i = choose|i: int| m.holds(i, r.active.window);
        assert(r.holds(i, r.active.window));
    }
}

/// New layout parameters with the same sets and a split position within
/// the range keep the invariants, whether focus is pinned or not.
pub proof fn lemma_with_custom_wf(m: Model, c: CustomModel, on: bool)
    requires
        m.wf(),
        m.space().custom.is_some(),
        c.floating_windows == m.space().custom.unwrap().floating_windows,
        c.fullscreen_windows == m.space().custom.unwrap().fullscreen_windows,
        m.separator_min <= c.separator <= m.separator_max,
    ensures
        m.with_custom(c).wf(),
        m.locked(on).with_custom(c).wf(),
        m.locked(on).wf(),
{
    assert(m.workspaces[m.active.workspace as int].wf(m.separator_min, m.separator_max));
    let r = m.with_custom(c);
    assert forall|i: int| 0 <= i < r.workspaces.len() implies (#[trigger] r.workspaces[i]).wf(
        r.separator_min,
        r.separator_max,
    ) by {
        assert(m.workspaces[i].wf(m.separator_min, m.separator_max));
    }
    lemma_same_windows_wf(m, r);
    let l = m.locked(on);
    assert forall|i: int| 0 <= i < l.workspaces.len() implies (#[trigger] l.workspaces[i]).wf(
        l.separator_min,
        l.separator_max,
    ) by {
        assert(m.workspaces[i].wf(m.separator_min, m.separator_max));
    }
    lemma_same_windows_wf(m, l);
    let q = l.with_custom(c);
    assert forall|i: int| 0 <= i < q.workspaces.len() implies (#[trigger] q.workspaces[i]).wf(
        q.separator_min,
        q.separator_max,
    ) by {
        assert(m.workspaces[i].wf(m.separator_min, m.separator_max));
    }
    lemma_same_windows_wf(m, q);
}

/// Exchanging two elements keeps what the sequence holds, and adds no
/// duplicate.
pub proof fn lemma_swapped(s: Seq<Window>, i: int, j: int)
    requires
        0 <= i < s.len(),
        0 <= j < s.len(),
    ensures
        swapped(s, i, j).len() == s.len(),
        forall|x: Window| #[trigger] swapped(s, i, j).contains(x) <==> s.contains(x),
        s.no_duplicates() ==> swapped(s, i, j).no_duplicates(),
{
    let t = swapped(s, i, j);
    assert forall|x: Window| #[trigger] t.contains(x) <==> s.contains(x) by {
        if t.contains(x) {
            let k = choose|k: int| 0 <= k < t.len() && t[k] == x;
            if k == i {
                assert(s[j] == x);
            } else if k == j {
                assert(s[i] == x);
            } else {
                assert(s[k] == x);
            }
        }
        if s.contains(x) {
            let k = choose|k: int| 0 <= k < s.len() && s[k] == x;
            if k == i {
                assert(t[j] == x);
            } else if k == j {
                assert(t[i] == x);
            } else {
                assert(t[k] == x);
            }
        }
    }
}

/// `mouse_cross` keeps the invariants.
pub proof fn lemma_mouse_cross_wf(m: Model, window: Window)
    requires
        m.wf(),
    ensures
        m.mouse_cross(window).wf(),
{
    if m.reorders(window) {
        let s = m.space();
        let a = first_index(s.windows, window, 0);
        let b = first_index(s.windows, s.custom.unwrap().leftclick_grab_window, 0);
        lemma_first_index(s.windows, window, 0);
        lemma_first_index(s.windows, s.custom.unwrap().leftclick_grab_window, 0);
        lemma_swapped(s.windows, a, b);
        let r = m.mouse_cross(window);
        assert(m.workspaces[m.active.workspace as int].wf(m.separator_min, m.separator_max));
        assert forall|i: int| 0 <= i < r.workspaces.len() implies (#[trigger] r.workspaces[i]).wf(
            r.separator_min,
            r.separator_max,
        ) by {
            assert(m.workspaces[i].wf(m.separator_min, m.separator_max));
            if i == m.active.workspace {
                let t = r.workspaces[i];
                assert(t.windows.to_set() =~= s.windows.to_set());
            }
        }
        lemma_same_windows_wf(m, r);
    }
}


impl Model {
    /// The state and the commands after the pointer moves `moves` of a
    /// resize gesture, each with the rectangle that the grabbed window
    /// had at the time.
    pub open spec fn resize_all(self, moves: Seq<((i32, i32), Rect)>) -> (Model, Seq<Command>)
        decreases moves.len(),
    {
        if moves.len() == 0 {
            (self, Seq::empty())
        } else {
            let (m, cmds) = self.resize_all(moves.drop_last());
            let (pt, rect) = moves.last();
            (m.mouse_move_rightclick(pt), cmds + m.mouse_move_rightclick_commands(pt, rect))
        }
    }
}

/// However many pointer moves a resize gesture sees, as long as each
/// stays within the threshold of the anchor, no command is given and the
/// state stays as it is, the anchor with it.
pub proof fn drag_within_threshold_is_silent(m: Model, moves: Seq<((i32, i32), Rect)>)
    requires
        m.space().custom.is_some(),
        forall|i: int|
            0 <= i < moves.len() ==> !crossed(
                (#[trigger] moves[i]).0,
                m.space().custom.unwrap().rightclick_grab_origin,
            ),
    ensures
        m.resize_all(moves) == (m, Seq::<Command>::empty()),
    decreases moves.len(),
{
    if moves.len() > 0 {
        let head = moves.drop_last();
        assert forall|i: int| 0 <= i < head.len() implies !crossed(
            (#[trigger] head[i]).0,
            m.space().custom.unwrap().rightclick_grab_origin,
        ) by {
            assert(head[i] == moves[i]);
        }
        drag_within_threshold_is_silent(m, head);
        assert(!crossed(moves[moves.len() - 1].0, m.space().custom.unwrap().rightclick_grab_origin));
        assert(Seq::<Command>::empty() + Seq::<Command>::empty() =~= Seq::<Command>::empty());
    }
}

/// The first pointer move of a resize gesture on a floating window that
/// goes beyond the threshold of the anchor, after any number that stay
/// within it, gives exactly one command: the placement of the grabbed
/// window. The pointer's position is the anchor from then on.
pub proof fn drag_across_threshold_places_once(
    m: Model,
    quiet: Seq<((i32, i32), Rect)>,
    pt: (i32, i32),
    rect: Rect,
)
    requires
        m.wf(),
        m.resizing_floating(),
        forall|i: int|
            0 <= i < quiet.len() ==> !crossed(
                (#[trigger] quiet[i]).0,
                m.space().custom.unwrap().rightclick_grab_origin,
            ),
        crossed(pt, m.space().custom.unwrap().rightclick_grab_origin),
    ensures
        m.resize_all(quiet.push((pt, rect))).1.len() == 1,
        m.resize_all(quiet.push((pt, rect))).1[0] == m.place(
            m.space().custom.unwrap().rightclick_grab_window,
            Rect {
                width: distance_spec(pt.0 as int, rect.x as int) as u32,
                height: distance_spec(pt.1 as int, rect.y as int) as u32,
                ..rect
            },
        ).unwrap(),
        m.resize_all(quiet.push((pt, rect))).0.space().custom.unwrap().rightclick_grab_origin == pt,
{
    let all = quiet.push((pt, rect));
    assert(all.drop_last() =~= quiet);
    drag_within_threshold_is_silent(m, quiet);
    let s = m.space();
    let w = s.custom.unwrap().rightclick_grab_window;
    assert(m.workspaces[m.active.workspace as int].wf(m.separator_min, m.separator_max));
    assert(s.windows.to_set().contains(w));
    assert(m.holds(m.active.workspace as int, w));
    let cmds = m.mouse_move_rightclick_commands(pt, rect);
    assert(cmds.len() == 1);
    assert(Seq::<Command>::empty() + cmds =~= cmds);
}

impl State {
    /// Whether `window` is marked floating in the active workspace.
    pub fn is_floating(&self, window: Window) -> (r: bool)
        requires
            self.wf(),
        ensures
            r == self@.space().is_floating(window),
    {
        assert(self.workspaces[self.active.workspace as int]@ == self@.space());
        match &self.workspaces[self.active.workspace].custom {
            Some(c) => c.floating_windows.contains(&window),
            None => false,
        }
    }

    /// Whether `window` is marked fullscreen in the active workspace.
    pub fn is_fullscreen(&self, window: Window) -> (r: bool)
        requires
            self.wf(),
        ensures
            r == self@.space().is_fullscreen(window),
    {
        assert(self.workspaces[self.active.workspace as int]@ == self@.space());
        match &self.workspaces[self.active.workspace].custom {
            Some(c) => c.fullscreen_windows.contains(&window),
            None => false,
        }
    }

    /// Moves the split position of the active workspace by `modifier`,
    /// within its range, and retiles. Nothing happens in a workspace
    /// without layout parameters.
    pub fn separator_modify(&mut self, modifier: i32) -> (cmds: Vec<Command>)
        requires
            old(self).wf(),
        ensures
            final(self).wf(),
            final(self)@ == old(self)@.separator_modify(modifier),
            cmds@ == old(self)@.custom_commands(final(self)@),
    {
        let lo = self.separator_min;
        let hi = self.separator_max;
        assert(self.workspaces[self.active.workspace as int]@ == self@.space());
        if self.workspaces[self.active.workspace].custom.is_none() {
            return Vec::new();
        }
        match &mut self.workspaces[self.active.workspace].custom {
            Some(c) => {
                c.separator = shift_clamped(c.separator, modifier, lo, hi);
            },
            None => {},
        }
        proof {
            let r = old(self)@.separator_modify(modifier);
            lemma_with_custom_wf(old(self)@, r.space().custom.unwrap(), false);
            assert(self@.workspaces =~= r.workspaces);
        }
        self.retile()
    }

    /// Grows the active window by `dw` and `dh`, if it floats; `rect` is
    /// the rectangle that it has now. The state is not changed.
    pub fn active_floating_resize(&self, dw: i32, dh: i32, rect: Rect) -> (c: Option<Command>)
        requires
            self.wf(),
        ensures
            c == self@.active_floating_resize(dw, dh, rect),
    {
        if !self.is_floating(self.active.window) {
            return None;
        }
        let resized = Rect {
            x: rect.x,
            y: rect.y,
            width: shift_clamped(rect.width, dw, MIN_FLOATING_SIZE, 2147483647),
            height: shift_clamped(rect.height, dh, MIN_FLOATING_SIZE, 2147483647),
        };
        self.active.window.do_map(self, resized)
    }

    /// Moves the active window by `dx` and `dy`, if it floats; `rect` is
    /// the rectangle that it has now. The state is not changed.
    pub fn active_floating_move(&self, dx: i32, dy: i32, rect: Rect) -> (c: Option<Command>)
        requires
            self.wf(),
        ensures
            c == self@.active_floating_move(dx, dy, rect),
    {
        if !self.is_floating(self.active.window) {
            return None;
        }
        let x: i64 = rect.x as i64 + dx as i64;
        let y: i64 = rect.y as i64 + dy as i64;
        if x < -2147483648 || x > 2147483647 || y < -2147483648 || y > 2147483647 {
            return None;
        }
        self.active.window.do_map(self, Rect { x: x as i32, y: y as i32, width: rect.width, height: rect.height })
    }

    /// Starts a move gesture on the active window; `rect` is the
    /// rectangle that it has now. Nothing happens in a workspace without
    /// layout parameters.
    pub fn leftclick_grab(&mut self, pt: (i32, i32), rect: Rect)
        requires
            old(self).wf(),
        ensures
            final(self).wf(),
            final(self)@ == old(self)@.leftclick_grab(pt, rect),
    {
        let window = self.active.window;
        assert(self.workspaces[self.active.workspace as int]@ == self@.space());
        if self.workspaces[self.active.workspace].custom.is_none() {
            return ;
        }
        match &mut self.workspaces[self.active.workspace].custom {
            Some(c) => {
                c.leftclick_grab_window = window;
                c.leftclick_grabbing = true;
                c.leftclick_d = (pt.0 as i64 - rect.x as i64, pt.1 as i64 - rect.y as i64);
            },
            None => {},
        }
        self.active.focus_locked = true;
        proof {
            let r = old(self)@.leftclick_grab(pt, rect);
            lemma_with_custom_wf(old(self)@, r.space().custom.unwrap(), true);
            assert(self@.workspaces =~= r.workspaces);
        }
    }

    /// Ends the move gesture. Nothing happens in a workspace without
    /// layout parameters.
    pub fn leftclick_release(&mut self, _pt: (i32, i32))
        requires
            old(self).wf(),
        ensures
            final(self).wf(),
            final(self)@ == old(self)@.leftclick_release(),
    {
        assert(self.workspaces[self.active.workspace as int]@ == self@.space());
        if self.workspaces[self.active.workspace].custom.is_none() {
            return ;
        }
        match &mut self.workspaces[self.active.workspace].custom {
            Some(c) => {
                c.leftclick_grab_window = NO_WINDOW;
                c.leftclick_grabbing = false;
                c.leftclick_d = (0, 0);
            },
            None => {},
        }
        self.active.focus_locked = false;
        proof {
            let r = old(self)@.leftclick_release();
            lemma_with_custom_wf(old(self)@, r.space().custom.unwrap(), false);
            assert(self@.workspaces =~= r.workspaces);
        }
    }

    /// Starts a resize gesture on the active window, anchored at `pt`.
    /// Nothing happens in a workspace without layout parameters.
    pub fn rightclick_grab(&mut self, pt: (i32, i32))
        requires
            old(self).wf(),
        ensures
            final(self).wf(),
            final(self)@ == old(self)@.rightclick_grab(pt),
    {
        let window = self.active.window;
        assert(self.workspaces[self.active.workspace as int]@ == self@.space());
        if self.workspaces[self.active.workspace].custom.is_none() {
            return ;
        }
        match &mut self.workspaces[self.active.workspace].custom {
            Some(c) => {
                c.rightclick_grab_origin = pt;
                c.rightclick_grabbing = true;
                c.rightclick_grab_window = window;
            },
            None => {},
        }
        self.active.focus_locked = true;
        proof {
            let r = old(self)@.rightclick_grab(pt);
            lemma_with_custom_wf(old(self)@, r.space().custom.unwrap(), true);
            assert(self@.workspaces =~= r.workspaces);
        }
    }

    /// Ends the resize gesture. Nothing happens in a workspace without
    /// layout parameters.
    pub fn rightclick_release(&mut self, _pt: (i32, i32))
        requires
            old(self).wf(),
        ensures
            final(self).wf(),
            final(self)@ == old(self)@.rightclick_release(),
    {
        assert(self.workspaces[self.active.workspace as int]@ == self@.space());
        if self.workspaces[self.active.workspace].custom.is_none() {
            return ;
        }
        match &mut self.workspaces[self.active.workspace].custom {
            Some(c) => {
                c.rightclick_grab_origin = (0, 0);
                c.rightclick_grabbing = false;
                c.rightclick_grab_window = NO_WINDOW;
            },
            None => {},
        }
        self.active.focus_locked = false;
        proof {
            let r = old(self)@.rightclick_release();
            lemma_with_custom_wf(old(self)@, r.space().custom.unwrap(), false);
            assert(self@.workspaces =~= r.workspaces);
        }
    }

    /// A pointer move to `pt` in the resize gesture; `rect` is the
    /// rectangle that the grabbed window has now. A floating window is
    /// resized, else the split position moves; either only when the
    /// pointer has gone further than the threshold from the anchor.
    pub fn mouse_move_rightclick(&mut self, pt: (i32, i32), rect: Rect) -> (cmds: Vec<Command>)
        requires
            old(self).wf(),
        ensures
            final(self).wf(),
            final(self)@ == old(self)@.mouse_move_rightclick(pt),
            cmds@ == old(self)@.mouse_move_rightclick_commands(pt, rect),
    {
        let lo = self.separator_min;
        let hi = self.separator_max;
        let mut out: Vec<Command> = Vec::new();
        assert(self.workspaces[self.active.workspace as int]@ == self@.space());
        let (window, origin) = match &self.workspaces[self.active.workspace].custom {
            Some(c) => (c.rightclick_grab_window, c.rightclick_grab_origin),
            None => {
                return out;
            },
        };
        let far_x = distance(pt.0, origin.0) > DRAG_THRESHOLD;
        let far_y = distance(pt.1, origin.1) > DRAG_THRESHOLD;
        if self.is_floating(window) {
            if far_x || far_y {
                let c = window.do_map(
                    self,
                    Rect { x: rect.x, y: rect.y, width: distance(pt.0, rect.x), height: distance(pt.1, rect.y) },
                );
                match c {
                    Some(c) => {
                        out.push(c);
                        assert(out@ =~= seq![c]);
                    },
                    None => {},
                }
                match &mut self.workspaces[self.active.workspace].custom {
                    Some(c) => {
                        c.rightclick_grab_origin = pt;
                    },
                    None => {},
                }
                proof {
                    let r = old(self)@.mouse_move_rightclick(pt);
                    lemma_with_custom_wf(old(self)@, r.space().custom.unwrap(), false);
                    assert(self@.workspaces =~= r.workspaces);
                }
            }
            return out;
        }
        if far_x {
            match &mut self.workspaces[self.active.workspace].custom {
                Some(c) => {
                    c.separator = if pt.0 < 0 {
                        lo
                    } else {
                        clamp(pt.0 as u32, lo, hi)
                    };
                    c.rightclick_grab_origin = (pt.0, origin.1);
                },
                None => {},
            }
            proof {
                let r = old(self)@.mouse_move_rightclick(pt);
                lemma_with_custom_wf(old(self)@, r.space().custom.unwrap(), false);
                assert(self@.workspaces =~= r.workspaces);
            }
            return self.retile();
        }
        out
    }

    /// A pointer move to `pt` in the move gesture; `rect` is the
    /// rectangle that the grabbed window has now. A floating window
    /// follows the pointer once it would move further than the threshold.
    /// The state is not changed.
    pub fn mouse_move_leftclick(&self, pt: (i32, i32), rect: Rect) -> (c: Option<Command>)
        requires
            self.wf(),
        ensures
            c == self@.mouse_move_leftclick(pt, rect),
    {
        assert(self.workspaces[self.active.workspace as int]@ == self@.space());
        let (window, d) = match &self.workspaces[self.active.workspace].custom {
            Some(c) => (c.leftclick_grab_window, c.leftclick_d),
            None => {
                return None;
            },
        };
        if !self.is_floating(window) {
            return None;
        }
        let x: i128 = pt.0 as i128 - d.0 as i128;
        let y: i128 = pt.1 as i128 - d.1 as i128;
        if x < -2147483648 || x > 2147483647 || y < -2147483648 || y > 2147483647 {
            return None;
        }
        if distance(x as i32, rect.x) > DRAG_THRESHOLD || distance(y as i32, rect.y) > DRAG_THRESHOLD {
            window.do_map(self, Rect { x: x as i32, y: y as i32, width: rect.width, height: rect.height })
        } else {
            None
        }
    }

    /// A pointer move to `pt`: the part of each gesture that is in
    /// progress. `resized` and `moved` are the rectangles that the windows
    /// grabbed with the right and the left button have now; where the
    /// resize gesture places the window that the move gesture holds, the
    /// move gesture goes by the new rectangle.
    pub fn mouse_move(&mut self, pt: (i32, i32), resized: Rect, moved: Rect) -> (cmds: Vec<Command>)
        requires
            old(self).wf(),
        ensures
            final(self).wf(),
            final(self)@ == old(self)@.mouse_move(pt),
            cmds@ == old(self)@.mouse_move_commands(pt, resized, moved),
    {
        assert(self.workspaces[self.active.workspace as int]@ == self@.space());
        let (right, left, grabbed) = match &self.workspaces[self.active.workspace].custom {
            Some(c) => (c.rightclick_grabbing, c.leftclick_grabbing, c.leftclick_grab_window),
            None => {
                assert(Seq::<Command>::empty() + Seq::<Command>::empty() =~= Seq::<Command>::empty());
                return Vec::new();
            },
        };
        let mut out: Vec<Command> = Vec::new();
        if right {
            out = self.mouse_move_rightclick(pt, resized);
        }
        let ghost first = out@;
        if left {
            let mut now = moved;
            if out.len() == 1 {
                match out[0] {
                    Command::Place { window, rect, .. } => {
                        if window == grabbed {
                            now = rect;
                        }
                    },
                    _ => {},
                }
            }
            let c = self.mouse_move_leftclick(pt, now);
            push_command(&mut out, c);
        } else {
            assert(out@ =~= first + Seq::<Command>::empty());
        }
        out
    }

    /// The pointer enters `window`: during a move gesture on a tiled
    /// window, the two windows change places in the list, and the
    /// workspace is retiled.
    pub fn mouse_cross(&mut self, window: Window) -> (cmds: Vec<Command>)
        requires
            old(self).wf(),
        ensures
            final(self).wf(),
            final(self)@ == old(self)@.mouse_cross(window),
            cmds@ == old(self)@.mouse_cross_commands(window),
    {
        assert(self.workspaces[self.active.workspace as int]@ == self@.space());
        let (grabbing, grabbed) = match &self.workspaces[self.active.workspace].custom {
            Some(c) => (c.leftclick_grabbing, c.leftclick_grab_window),
            None => {
                return Vec::new();
            },
        };
        if !grabbing || self.is_floating(grabbed) {
            return Vec::new();
        }
        let maybe_ix1 = position(&self.workspaces[self.active.workspace].windows, window);
        let maybe_ix2 = position(&self.workspaces[self.active.workspace].windows, grabbed);
        let (ix1, ix2) = match (maybe_ix1, maybe_ix2) {
            (Some(a), Some(b)) => (a, b),
            _ => {
                return Vec::new();
            },
        };
        if self.is_floating(window) || self.is_fullscreen(window) {
            return Vec::new();
        }
        let first = self.workspaces[self.active.workspace].windows[ix1];
        let second = self.workspaces[self.active.workspace].windows[ix2];
        self.workspaces[self.active.workspace].windows[ix1] = second;
        self.workspaces[self.active.workspace].windows[ix2] = first;
        proof {
            let r = old(self)@.mouse_cross(window);
            lemma_mouse_cross_wf(old(self)@, window);
            assert(self.workspaces[self.active.workspace as int].windows@ =~= r.space().windows);
            assert(self@.workspaces =~= r.workspaces);
        }
        self.retile()
    }
}

} // verus!
