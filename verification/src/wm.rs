//! The window model: which workspace lists which window, and how.

use vstd::prelude::*;
use std::collections::HashSet;
use crate::geometry::Window;
use crate::model::{
    keep_unless, lemma_add_window_wf, lemma_move_window_wf, lemma_remove_window_wf, lemma_toggle_membership_wf,
    strip, NO_WINDOW,
};
use crate::seqs::{lemma_flat_map_step, position};
use crate::state::{clamp, clamped, Active, CustomData, Selector, Space, State};
use crate::style::Style;

verus! {

broadcast use vstd::std_specs::hash::group_hash_axioms;

impl CustomData {
    /// Fresh parameters: nothing floats, nothing is dragged.
    pub fn new(separator: u32) -> (c: CustomData)
        ensures
            c.separator == separator,
            c.fullscreen_windows@ == Set::<Window>::empty(),
            c.floating_windows@ == Set::<Window>::empty(),
            c.rightclick_grab_origin == (0i32, 0i32),
            c.rightclick_grab_window == NO_WINDOW,
            !c.rightclick_grabbing,
            c.leftclick_d == (0i64, 0i64),
            c.leftclick_grab_window == NO_WINDOW,
            !c.leftclick_grabbing,
    {
        CustomData {
            separator,
            fullscreen_windows: HashSet::new(),
            floating_windows: HashSet::new(),
            rightclick_grab_origin: (0, 0),
            rightclick_grab_window: NO_WINDOW,
            rightclick_grabbing: false,
            leftclick_d: (0, 0),
            leftclick_grab_window: NO_WINDOW,
            leftclick_grabbing: false,
        }
    }
}

impl Space {
    /// The workspace is as `State::new` makes it: tagged `tag`, without
    /// windows, and with fresh layout parameters exactly if there is a
    /// `separator`, which they hold brought into `lo..=hi`.
    pub open spec fn is_fresh(&self, tag: String, separator: Option<u32>, lo: u32, hi: u32) -> bool {
        &&& self.tag == tag
        &&& self.windows@ == Seq::<Window>::empty()
        &&& match separator {
            Some(s) => self.custom.is_some() && self.custom.unwrap()@ == CustomData::fresh(clamped(s, lo, hi)),
            None => self.custom.is_none(),
        }
    }

    /// An empty workspace.
    pub fn new(tag: String, custom: Option<CustomData>) -> (s: Space)
        ensures
            s.tag == tag,
            s.windows@ == Seq::<Window>::empty(),
            s.custom == custom,
    {
        Space { tag, windows: Vec::new(), custom }
    }

    /// Takes `w` off the list and out of both sets.
    pub fn remove_window(&mut self, w: Window)
        ensures
            final(self)@ == old(self)@.without(w),
    {
        let mut kept: Vec<Window> = Vec::new();
        let mut i: usize = 0;
        while i < self.windows.len()
            invariant
                *self == *old(self),
                i <= self.windows.len(),
                kept@ == strip(self.windows@.take(i as int), w),
            decreases self.windows.len() - i,
        {
            proof {
                lemma_flat_map_step(self.windows@, keep_unless(w), i as int);
            }
            if self.windows[i] != w {
                kept.push(self.windows[i]);
            }
            i += 1;
        }
        assert(self.windows@.take(i as int) =~= self.windows@);
        self.windows = kept;
        match &mut self.custom {
            Some(c) => {
                c.fullscreen_windows.remove(&w);
                c.floating_windows.remove(&w);
            },
            None => {},
        }
    }

    /// Reverses the membership of `w` in the selected set, where `w` is a
    /// window of this workspace and the workspace has layout parameters.
    pub fn toggle_membership(&mut self, w: Window, sel: Selector)
        ensures
            final(self)@ == old(self)@.toggled(w, sel),
    {
        if position(&self.windows, w).is_none() {
            return ;
        }
        match &mut self.custom {
            Some(c) => {
                match sel {
                    Selector::Floating => {
                        if c.floating_windows.contains(&w) {
                            c.floating_windows.remove(&w);
                        } else {
                            c.floating_windows.insert(w);
                        }
                    },
                    Selector::Fullscreen => {
                        if c.fullscreen_windows.contains(&w) {
                            c.fullscreen_windows.remove(&w);
                        } else {
                            c.fullscreen_windows.insert(w);
                        }
                    },
                }
            },
            None => {},
        }
    }
}

impl State {
    /// A state with one empty workspace for each tag, workspace 0 active,
    /// no window active and focus free. With a `separator`, every workspace
    /// has layout parameters, with that split position brought into the
    /// range `separator_min..=separator_max`; without one, none has.
    pub fn new(
        root: Window,
        screen_width: u32,
        screen_height: u32,
        style: Style,
        separator_min: u32,
        separator_max: u32,
        separator: Option<u32>,
        tags: Vec<String>,
    ) -> (state: State)
        requires
            tags.len() > 0,
            separator_min <= separator_max,
        ensures
            state.wf(),
            state.root == root,
            state.screen_width == screen_width,
            state.screen_height == screen_height,
            state.style == style,
            state.separator_min == separator_min,
            state.separator_max == separator_max,
            state.active == (Active { workspace: 0, window: root, focus_locked: false }),
            state.workspaces.len() == tags.len(),
            forall|i: int|
                0 <= i < tags.len() ==> (#[trigger] state.workspaces[i]).is_fresh(
                    tags[i],
                    separator,
                    separator_min,
                    separator_max,
                ),
    {
        let mut workspaces: Vec<Space> = Vec::new();
        let mut i: usize = 0;
        while i < tags.len()
            invariant
                i <= tags.len(),
                workspaces.len() == i,
                separator_min <= separator_max,
                forall|k: int|
                    0 <= k < i ==> (#[trigger] workspaces[k]).is_fresh(
                        tags[k],
                        separator,
                        separator_min,
                        separator_max,
                    ),
            decreases tags.len() - i,
        {
            let custom = match separator {
                Some(s) => Some(CustomData::new(clamp(s, separator_min, separator_max))),
                None => None,
            };
            workspaces.push(Space::new(tags[i].clone(), custom));
            i += 1;
        }
        let state = State {
            root,
            screen_width,
            screen_height,
            style,
            separator_min,
            separator_max,
            workspaces,
            active: Active { workspace: 0, window: root, focus_locked: false },
        };
        proof {
            let m = state@;
            assert forall|i: int, w: Window| !m.holds(i, w) by {
                if 0 <= i < m.workspaces.len() {
                    assert(state.workspaces[i].is_fresh(tags[i], separator, separator_min, separator_max));
                    assert(m.workspaces[i].windows.len() == 0);
                }
            }
            assert forall|i: int| 0 <= i < m.workspaces.len() implies (#[trigger] m.workspaces[i]).wf(
                separator_min,
                separator_max,
            ) by {
                assert(state.workspaces[i].is_fresh(tags[i], separator, separator_min, separator_max));
            }
        }
        state
    }

    /// Whether some workspace lists `window`.
    pub fn window_exists(&self, window: Window) -> (found: bool)
        ensures
            found == self@.contains(window),
    {
        let mut i: usize = 0;
        while i < self.workspaces.len()
            invariant
                i <= self.workspaces.len(),
                forall|j: int| 0 <= j < i ==> !self@.holds(j, window),
            decreases self.workspaces.len() - i,
        {
            if position(&self.workspaces[i].windows, window).is_some() {
                assert(self@.holds(i as int, window));
                return true;
            }
            i += 1;
        }
        false
    }

    /// Appends `window` to workspace `workspace`. Nothing happens where the
    /// window is already managed, or where there is no such workspace.
    pub fn add_window(&mut self, workspace: usize, window: Window)
        requires
            old(self).wf(),
        ensures
            final(self).wf(),
            final(self)@ == old(self)@.add_window(workspace as int, window),
    {
        if workspace >= self.workspaces.len() || self.window_exists(window) {
            return ;
        }
        self.workspaces[workspace].windows.push(window);
        proof {
            lemma_add_window_wf(old(self)@, workspace as int, window);
            assert(self@.workspaces =~= old(self)@.add_window(workspace as int, window).workspaces);
        }
    }

    /// Takes `window` off whichever list holds it and out of the sets of
    /// that workspace. Where it was the active window, no window is active
    /// afterwards.
    pub fn remove_window(&mut self, window: Window)
        requires
            old(self).wf(),
        ensures
            final(self).wf(),
            final(self)@ == old(self)@.remove_window(window),
    {
        let n = self.workspaces.len();
        let mut i: usize = 0;
        while i < n
            invariant
                i <= n,
                n == self.workspaces.len(),
                n == old(self).workspaces.len(),
                self.same_setup(old(self)),
                self.active == old(self).active,
                forall|j: int| 0 <= j < i ==> (#[trigger] self.workspaces[j])@ == old(self).workspaces[j]@.without(window),
                forall|j: int| i <= j < n ==> (#[trigger] self.workspaces[j]) == old(self).workspaces[j],
            decreases n - i,
        {
            self.workspaces[i].remove_window(window);
            i += 1;
        }
        if self.active.window == window {
            self.active.window = NO_WINDOW;
        }
        proof {
            lemma_remove_window_wf(old(self)@, window);
            assert(self@.workspaces =~= old(self)@.remove_window(window).workspaces);
        }
    }

    /// Moves `window` to the end of workspace `target`. Where it was the
    /// active window, no window is active afterwards. Nothing happens where
    /// the window is not managed, or where there is no such workspace.
    pub fn move_window_to_workspace(&mut self, window: Window, target: usize)
        requires
            old(self).wf(),
        ensures
            final(self).wf(),
            final(self)@ == old(self)@.move_window_to_workspace(window, target as int),
            old(self)@.contains(window) && target < old(self).workspaces.len() && old(self).active.window
                == window ==> final(self).active.window == NO_WINDOW,
    {
        if target >= self.workspaces.len() || !self.window_exists(window) {
            return ;
        }
        proof {
            lemma_move_window_wf(old(self)@, window, target as int);
        }
        self.remove_window(window);
        self.add_window(target, window);
    }

    /// Reverses the membership of `window` in the selected set of the
    /// workspace that lists it. Nothing happens where no workspace lists
    /// it, or where that workspace has no layout parameters.
    pub fn toggle_membership(&mut self, window: Window, sel: Selector)
        requires
            old(self).wf(),
        ensures
            final(self).wf(),
            final(self)@ == old(self)@.toggle_membership(window, sel),
    {
        let n = self.workspaces.len();
        let mut i: usize = 0;
        while i < n
            invariant
                i <= n,
                n == self.workspaces.len(),
                n == old(self).workspaces.len(),
                self.same_setup(old(self)),
                self.active == old(self).active,
                forall|j: int| 0 <= j < i ==> (#[trigger] self.workspaces[j])@ == old(self).workspaces[j]@.toggled(window, sel),
                forall|j: int| i <= j < n ==> (#[trigger] self.workspaces[j]) == old(self).workspaces[j],
            decreases n - i,
        {
            self.workspaces[i].toggle_membership(window, sel);
            i += 1;
        }
        proof {
            lemma_toggle_membership_wf(old(self)@, window, sel);
            assert(self@.workspaces =~= old(self)@.toggle_membership(window, sel).workspaces);
        }
    }
}

} // verus!
