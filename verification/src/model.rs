//! The mathematical model of the engine's state, and its transitions.
//!
//! Every operation of the engine is stated as a function on these values;
//! the executable operations are proved to compute them.

use vstd::prelude::*;
use crate::geometry::Window;
use crate::seqs::{flat_map, lemma_flat_map_contains};
use crate::state::{Active, Selector};
use crate::style::Style;

verus! {

/// The handle that stands for "no window".
pub const NO_WINDOW: Window = 0;

/// The per-workspace layout parameters and drag state.
pub struct CustomModel {
    pub separator: u32,
    pub fullscreen_windows: Set<Window>,
    pub floating_windows: Set<Window>,
    pub rightclick_grab_origin: (i32, i32),
    pub rightclick_grab_window: Window,
    pub rightclick_grabbing: bool,
    pub leftclick_d: (i64, i64),
    pub leftclick_grab_window: Window,
    pub leftclick_grabbing: bool,
}

/// A workspace: its tag, its windows in master/stack order, and its layout
/// parameters if it has any.
pub struct SpaceModel {
    pub tag: Seq<char>,
    pub windows: Seq<Window>,
    pub custom: Option<CustomModel>,
}

/// The whole state of the engine.
pub struct Model {
    pub root: Window,
    pub screen_width: u32,
    pub screen_height: u32,
    pub style: Style,
    pub separator_min: u32,
    pub separator_max: u32,
    pub workspaces: Seq<SpaceModel>,
    pub active: Active,
}

/// How a window of a workspace is rendered.
pub enum Class {
    Tiled,
    Floating,
    Fullscreen,
}

/// The function that drops `w` and keeps every other handle.
pub open spec fn keep_unless(w: Window) -> spec_fn(Window) -> Seq<Window> {
    |x: Window|
        if x == w {
            Seq::<Window>::empty()
        } else {
            seq![x]
        }
}

/// `s` without any occurrence of `w`, the order of the rest kept.
pub open spec fn strip(s: Seq<Window>, w: Window) -> Seq<Window> {
    flat_map(s, keep_unless(w))
}

/// `s` with `w` in it exactly if it was not.
pub open spec fn flip(s: Set<Window>, w: Window) -> Set<Window> {
    if s.contains(w) {
        s.remove(w)
    } else {
        s.insert(w)
    }
}

impl CustomModel {
    /// The parameters with `w` in neither set.
    pub open spec fn without(self, w: Window) -> CustomModel {
        CustomModel {
            fullscreen_windows: self.fullscreen_windows.remove(w),
            floating_windows: self.floating_windows.remove(w),
            ..self
        }
    }

    /// The parameters with the membership of `w` in the selected set
    /// reversed.
    pub open spec fn toggled(self, w: Window, sel: Selector) -> CustomModel {
        match sel {
            Selector::Floating => CustomModel { floating_windows: flip(self.floating_windows, w), ..self },
            Selector::Fullscreen => CustomModel {
                fullscreen_windows: flip(self.fullscreen_windows, w),
                ..self
            },
        }
    }
}

impl SpaceModel {
    /// No handle twice; both sets within the window list; the split
    /// position within `lo..=hi`.
    pub open spec fn wf(self, lo: u32, hi: u32) -> bool {
        &&& self.windows.no_duplicates()
        &&& match self.custom {
            Some(c) => {
                &&& c.floating_windows.subset_of(self.windows.to_set())
                &&& c.fullscreen_windows.subset_of(self.windows.to_set())
                &&& lo <= c.separator <= hi
            },
            None => true,
        }
    }

    /// The workspace without `w`: gone from the list and from both sets.
    pub open spec fn without(self, w: Window) -> SpaceModel {
        SpaceModel {
            windows: strip(self.windows, w),
            custom: match self.custom {
                Some(c) => Some(c.without(w)),
                None => None,
            },
            ..self
        }
    }

    /// The workspace with `w` appended.
    pub open spec fn with(self, w: Window) -> SpaceModel {
        SpaceModel { windows: self.windows.push(w), ..self }
    }

    /// The workspace with the membership of `w` in the selected set
    /// reversed, if `w` is one of its windows and it has layout
    /// parameters; else the workspace as it is.
    pub open spec fn toggled(self, w: Window, sel: Selector) -> SpaceModel {
        match self.custom {
            Some(c) => if self.windows.contains(w) {
                SpaceModel { custom: Some(c.toggled(w, sel)), ..self }
            } else {
                self
            },
            None => self,
        }
    }

    /// How `w` is rendered here: fullscreen before floating before tiled.
    pub open spec fn class_of(self, w: Window) -> Class {
        match self.custom {
            Some(c) => if c.fullscreen_windows.contains(w) {
                Class::Fullscreen
            } else if c.floating_windows.contains(w) {
                Class::Floating
            } else {
                Class::Tiled
            },
            None => Class::Tiled,
        }
    }

    /// The function that keeps a window of class `class` and drops others.
    pub open spec fn keep_class(self, class: Class) -> spec_fn(Window) -> Seq<Window> {
        |w: Window|
            if self.class_of(w) == class {
                seq![w]
            } else {
                Seq::<Window>::empty()
            }
    }

    /// The windows of class `class`, in list order.
    pub open spec fn of_class(self, class: Class) -> Seq<Window> {
        flat_map(self.windows, self.keep_class(class))
    }

    /// Whether `w` is marked floating here.
    pub open spec fn is_floating(self, w: Window) -> bool {
        self.custom.is_some() && self.custom.unwrap().floating_windows.contains(w)
    }

    /// Whether `w` is marked fullscreen here.
    pub open spec fn is_fullscreen(self, w: Window) -> bool {
        self.custom.is_some() && self.custom.unwrap().fullscreen_windows.contains(w)
    }
}

impl Model {
    /// Workspace `i` exists and lists `w`.
    pub open spec fn holds(self, i: int, w: Window) -> bool {
        0 <= i < self.workspaces.len() && self.workspaces[i].windows.contains(w)
    }

    /// Some workspace lists `w`.
    pub open spec fn contains(self, w: Window) -> bool {
        exists|i: int| self.holds(i, w)
    }

    /// `w` stands for "no window": the null handle or the root.
    pub open spec fn no_window(self, w: Window) -> bool {
        w == NO_WINDOW || w == self.root
    }

    /// The invariants of the engine: there is an active workspace; every
    /// workspace is well formed; no handle is in two workspaces; the
    /// active window is a managed one or stands for none.
    pub open spec fn wf(self) -> bool {
        &&& self.workspaces.len() > 0
        &&& self.active.workspace < self.workspaces.len()
        &&& self.separator_min <= self.separator_max
        &&& forall|i: int|
            0 <= i < self.workspaces.len() ==> (#[trigger] self.workspaces[i]).wf(
                self.separator_min,
                self.separator_max,
            )
        &&& forall|i: int, j: int, w: Window|
            #![trigger self.holds(i, w), self.holds(j, w)]
            self.holds(i, w) && self.holds(j, w) ==> i == j
        &&& self.no_window(self.active.window) || self.contains(self.active.window)
    }

    /// The active workspace.
    pub open spec fn space(self) -> SpaceModel
        recommends
            self.active.workspace < self.workspaces.len(),
    {
        self.workspaces[self.active.workspace as int]
    }

    /// The state with the active workspace replaced by `s`.
    pub open spec fn with_space(self, s: SpaceModel) -> Model {
        Model { workspaces: self.workspaces.update(self.active.workspace as int, s), ..self }
    }

    /// The state with `w` as the active window.
    pub open spec fn with_window(self, w: Window) -> Model {
        Model { active: Active { window: w, ..self.active }, ..self }
    }

    /// `add_window`: `w` appended to workspace `ws`; nothing where `w` is
    /// already managed or there is no such workspace.
    pub open spec fn add_window(self, ws: int, w: Window) -> Model {
        if self.contains(w) || !(0 <= ws < self.workspaces.len()) {
            self
        } else {
            Model { workspaces: self.workspaces.update(ws, self.workspaces[ws].with(w)), ..self }
        }
    }

    /// `remove_window`: `w` gone from every list and set; where it was the
    /// active window, no window is active.
    pub open spec fn remove_window(self, w: Window) -> Model {
        Model {
            workspaces: Seq::new(self.workspaces.len(), |i: int| self.workspaces[i].without(w)),
            active: Active {
                window: if self.active.window == w {
                    NO_WINDOW
                } else {
                    self.active.window
                },
                ..self.active
            },
            ..self
        }
    }

    /// `move_window_to_workspace`: `w` removed where it was and appended
    /// to workspace `target`; nothing where `w` is not managed or there is
    /// no such workspace.
    pub open spec fn move_window_to_workspace(self, w: Window, target: int) -> Model {
        if !self.contains(w) || !(0 <= target < self.workspaces.len()) {
            self
        } else {
            self.remove_window(w).add_window(target, w)
        }
    }

    /// `toggle_membership`: the membership of `w` in the selected set of
    /// its workspace reversed.
    pub open spec fn toggle_membership(self, w: Window, sel: Selector) -> Model {
        Model {
            workspaces: Seq::new(self.workspaces.len(), |i: int| self.workspaces[i].toggled(w, sel)),
            ..self
        }
    }
}

/// What is left of `s` after `strip` is what was there and is not `w`, and
/// nothing is left twice that was not there twice.
pub proof fn lemma_strip(s: Seq<Window>, w: Window)
    ensures
        forall|x: Window| #[trigger] strip(s, w).contains(x) <==> s.contains(x) && x != w,
        s.no_duplicates() ==> strip(s, w).no_duplicates(),
        !s.contains(w) ==> strip(s, w) == s,
    decreases s.len(),
{
    let f = keep_unless(w);
    assert forall|x: Window| #[trigger] strip(s, w).contains(x) <==> s.contains(x) && x != w by {
        lemma_flat_map_contains(s, f, x);
        if strip(s, w).contains(x) {
            let i = choose|i: int| 0 <= i < s.len() && (#[trigger] f(s[i])).contains(x);
            assert(f(s[i]) == seq![s[i]]);
            assert(seq![s[i]][0] == s[i]);
            assert(s[i] == x);
        }
        if s.contains(x) && x != w {
            let i = choose|i: int| 0 <= i < s.len() && s[i] == x;
            assert(seq![x][0] == x);
            assert(f(s[i]).contains(x));
        }
    }
    if s.len() > 0 {
        let t = s.drop_last();
        lemma_strip(t, w);
        if s.no_duplicates() {
            assert(t.no_duplicates());
            if s.last() != w {
                assert(!t.contains(s.last())) by {
                    if t.contains(s.last()) {
                        let i = choose|i: int| 0 <= i < t.len() && t[i] == s.last();
                        assert(s[i] == s[s.len() - 1]);
                    }
                }
                let r = strip(t, w);
                assert(strip(s, w) =~= r.push(s.last()));
                assert(!r.contains(s.last()));
                assert forall|a: int, b: int| 0 <= a < b < r.len() + 1 implies r.push(s.last())[a]
                    != r.push(s.last())[b] by {
                    if b == r.len() {
                        assert(r.contains(r[a]));
                    }
                }
            } else {
                assert(strip(s, w) =~= strip(t, w));
            }
        }
        if !s.contains(w) {
            assert(s[s.len() - 1] != w);
            assert(!t.contains(w)) by {
                if t.contains(w) {
                    let i = choose|i: int| 0 <= i < t.len() && t[i] == w;
                    assert(s[i] == w);
                }
            }
            assert(strip(s, w) =~= t.push(s.last()));
            assert(t.push(s.last()) =~= s);
        }
    } else {
        assert(strip(s, w) =~= s);
    }
}

/// `add_window` keeps the invariants.
pub proof fn lemma_add_window_wf(m: Model, ws: int, w: Window)
    requires
        m.wf(),
    ensures
        m.add_window(ws, w).wf(),
        m.add_window(ws, w).contains(w) <==> m.contains(w) || 0 <= ws < m.workspaces.len(),
{
    let r = m.add_window(ws, w);
    if !m.contains(w) && 0 <= ws < m.workspaces.len() {
        let s = m.workspaces[ws];
        assert(!m.holds(ws, w));
        assert(s.windows.push(w)[s.windows.len() as int] == w);
        assert(r.holds(ws, w));
        assert forall|i: int, x: Window| r.holds(i, x) implies m.holds(i, x) || (i == ws && x == w) by {
            if i == ws && x != w {
                let k = choose|k: int| 0 <= k < s.windows.push(w).len() && s.windows.push(w)[k] == x;
                assert(s.windows[k] == x);
            }
        }
        assert forall|i: int, x: Window| m.holds(i, x) implies r.holds(i, x) by {
            if i == ws {
                let k = choose|k: int| 0 <= k < s.windows.len() && s.windows[k] == x;
                assert(s.windows.push(w)[k] == x);
            }
        }
        assert forall|i: int, j: int, x: Window|
            #![trigger r.holds(i, x), r.holds(j, x)]
            r.holds(i, x) && r.holds(j, x) implies i == j by {
            assert(m.holds(i, x) || (i == ws && x == w));
            assert(m.holds(j, x) || (j == ws && x == w));
            if x == w {
                assert(!m.holds(i, w));
                assert(!m.holds(j, w));
            }
        }
        assert forall|i: int| 0 <= i < r.workspaces.len() implies (#[trigger] r.workspaces[i]).wf(
            r.separator_min,
            r.separator_max,
        ) by {
            assert(m.workspaces[i].wf(m.separator_min, m.separator_max));
            if i == ws {
                let t = s.with(w);
                assert(t.windows.no_duplicates()) by {
                    assert forall|a: int, b: int| 0 <= a < b < t.windows.len() implies t.windows[a]
                        != t.windows[b] by {
                        if b == s.windows.len() {
                            assert(s.windows.contains(s.windows[a]));
                        }
                    }
                }
                assert forall|x: Window| s.windows.to_set().contains(x) implies t.windows.to_set().contains(
                    x,
                ) by {
                    assert(m.holds(ws, x));
                    assert(r.holds(ws, x));
                }
            }
        }
        if m.contains(m.active.window) {
            let i = choose|i: int| m.holds(i, m.active.window);
            assert(r.holds(i, m.active.window));
        }
    } else if m.contains(w) {
    } else {
        assert(!r.contains(w));
    }
}

/// `remove_window` keeps the invariants, and the handle is gone.
pub proof fn lemma_remove_window_wf(m: Model, w: Window)
    requires
        m.wf(),
    ensures
        m.remove_window(w).wf(),
        !m.remove_window(w).contains(w),
        forall|i: int, x: Window| #[trigger] m.remove_window(w).holds(i, x) <==> m.holds(i, x) && x != w,
        !m.contains(w) && m.active.window != w ==> m.remove_window(w) == m,
{
    let r = m.remove_window(w);
    assert forall|i: int, x: Window| #[trigger] r.holds(i, x) <==> m.holds(i, x) && x != w by {
        if 0 <= i < m.workspaces.len() {
            lemma_strip(m.workspaces[i].windows, w);
        }
    }
    assert forall|i: int| 0 <= i < r.workspaces.len() implies (#[trigger] r.workspaces[i]).wf(
        r.separator_min,
        r.separator_max,
    ) by {
        let s = m.workspaces[i];
        assert(s.wf(m.separator_min, m.separator_max));
        lemma_strip(s.windows, w);
    }
    assert forall|i: int, j: int, x: Window|
        #![trigger r.holds(i, x), r.holds(j, x)]
        r.holds(i, x) && r.holds(j, x) implies i == j by {
        assert(m.holds(i, x) && m.holds(j, x));
    }
    if m.contains(r.active.window) && r.active.window != w {
        let i = choose|i: int| m.holds(i, r.active.window);
        assert(r.holds(i, r.active.window));
    }
    if !m.contains(w) && m.active.window != w {
        assert forall|i: int| 0 <= i < m.workspaces.len() implies m.workspaces[i].without(w)
            == m.workspaces[i] by {
            let s = m.workspaces[i];
            assert(!m.holds(i, w));
            lemma_strip(s.windows, w);
            assert(s.wf(m.separator_min, m.separator_max));
            match s.custom {
                Some(c) => {
                    assert(!c.floating_windows.contains(w)) by {
                        if c.floating_windows.contains(w) {
                            assert(s.windows.to_set().contains(w));
                        }
                    }
                    assert(!c.fullscreen_windows.contains(w)) by {
                        if c.fullscreen_windows.contains(w) {
                            assert(s.windows.to_set().contains(w));
                        }
                    }
                    assert(c.floating_windows.remove(w) =~= c.floating_windows);
                    assert(c.fullscreen_windows.remove(w) =~= c.fullscreen_windows);
                },
                None => {},
            }
        }
        assert(r.workspaces =~= m.workspaces);
    }
}

/// `move_window_to_workspace` keeps the invariants, and leaves no window
/// active where it moved the active one.
pub proof fn lemma_move_window_wf(m: Model, w: Window, target: int)
    requires
        m.wf(),
    ensures
        m.move_window_to_workspace(w, target).wf(),
        m.contains(w) && 0 <= target < m.workspaces.len() ==> m.move_window_to_workspace(w, target).holds(
            target,
            w,
        ),
        m.contains(w) && 0 <= target < m.workspaces.len() && m.active.window == w ==> m.move_window_to_workspace(
            w,
            target,
        ).active.window == NO_WINDOW,
{
    if m.contains(w) && 0 <= target < m.workspaces.len() {
        lemma_remove_window_wf(m, w);
        lemma_add_window_wf(m.remove_window(w), target, w);
        let r = m.remove_window(w);
        let s = r.workspaces[target];
        assert(s.windows.push(w)[s.windows.len() as int] == w);
    }
}

/// Moving the active window to a workspace leaves no window active.
pub proof fn moving_the_active_window_clears_focus(m: Model, target: int)
    requires
        m.wf(),
        m.contains(m.active.window),
        0 <= target < m.workspaces.len(),
    ensures
        m.move_window_to_workspace(m.active.window, target).active.window == NO_WINDOW,
        m.move_window_to_workspace(m.active.window, target).holds(target, m.active.window),
{
    lemma_move_window_wf(m, m.active.window, target);
}

/// `toggle_membership` keeps the invariants.
pub proof fn lemma_toggle_membership_wf(m: Model, w: Window, sel: Selector)
    requires
        m.wf(),
    ensures
        m.toggle_membership(w, sel).wf(),
{
    let r = m.toggle_membership(w, sel);
    assert forall|i: int, x: Window| #[trigger] r.holds(i, x) <==> m.holds(i, x) by {}
    assert forall|i: int| 0 <= i < r.workspaces.len() implies (#[trigger] r.workspaces[i]).wf(
        r.separator_min,
        r.separator_max,
    ) by {
        assert(m.workspaces[i].wf(m.separator_min, m.separator_max));
    }
    assert forall|i: int, j: int, x: Window|
        #![trigger r.holds(i, x), r.holds(j, x)]
        r.holds(i, x) && r.holds(j, x) implies i == j by {
        assert(m.holds(i, x) && m.holds(j, x));
    }
    if m.contains(m.active.window) {
        let i = choose|i: int| m.holds(i, m.active.window);
        assert(r.holds(i, m.active.window));
    }
}

/// Reversing the membership of a window in a set twice gives the state
/// back: the set holds what it held before.
pub proof fn toggle_twice_restores(m: Model, w: Window, sel: Selector)
    ensures
        m.toggle_membership(w, sel).toggle_membership(w, sel) == m,
{
    let r = m.toggle_membership(w, sel).toggle_membership(w, sel);
    assert forall|i: int| 0 <= i < m.workspaces.len() implies r.workspaces[i] == m.workspaces[i] by {
        let s = m.workspaces[i];
        match s.custom {
            Some(c) => {
                assert(flip(flip(c.floating_windows, w), w) =~= c.floating_windows);
                assert(flip(flip(c.fullscreen_windows, w), w) =~= c.fullscreen_windows);
            },
            None => {},
        }
    }
    assert(r.workspaces =~= m.workspaces);
}

/// One step of a history of the window model.
pub enum Change {
    Add { workspace: int, window: Window },
    Remove { window: Window },
    Move { window: Window, target: int },
}

impl Model {
    /// The state after one change.
    pub open spec fn after(self, c: Change) -> Model {
        match c {
            Change::Add { workspace, window } => self.add_window(workspace, window),
            Change::Remove { window } => self.remove_window(window),
            Change::Move { window, target } => self.move_window_to_workspace(window, target),
        }
    }

    /// The state after the changes `cs`, applied in order.
    pub open spec fn after_all(self, cs: Seq<Change>) -> Model
        decreases cs.len(),
    {
        if cs.len() == 0 {
            self
        } else {
            self.after_all(cs.drop_last()).after(cs.last())
        }
    }
}

/// Whatever windows are added, removed and moved, in whatever order, no
/// handle is ever listed twice: neither in two workspaces nor twice in one.
pub proof fn uniqueness_is_kept(m: Model, cs: Seq<Change>)
    requires
        m.wf(),
    ensures
        m.after_all(cs).wf(),
        forall|i: int, j: int, w: Window|
            m.after_all(cs).holds(i, w) && m.after_all(cs).holds(j, w) ==> i == j,
        forall|i: int|
            0 <= i < m.after_all(cs).workspaces.len() ==> (
            #[trigger] m.after_all(cs).workspaces[i]).windows.no_duplicates(),
    decreases cs.len(),
{
    if cs.len() > 0 {
        uniqueness_is_kept(m, cs.drop_last());
        let p = m.after_all(cs.drop_last());
        match cs.last() {
            Change::Add { workspace, window } => lemma_add_window_wf(p, workspace, window),
            Change::Remove { window } => lemma_remove_window_wf(p, window),
            Change::Move { window, target } => lemma_move_window_wf(p, window, target),
        }
    }
    let r = m.after_all(cs);
    assert forall|i: int| 0 <= i < r.workspaces.len() implies (#[trigger] r.workspaces[i]).windows.no_duplicates() by {
        assert(r.workspaces[i].wf(r.separator_min, r.separator_max));
    }
}

} // verus!
