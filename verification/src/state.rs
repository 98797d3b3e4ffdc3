//! The engine's state: workspaces, focus, and the binding tables.

use vstd::prelude::*;
use std::collections::HashSet;
use crate::geometry::Window;
use crate::model::{CustomModel, Model, SpaceModel};
use crate::style::Style;

verus! {

/// The pointer shapes of the three pointer modes.
pub type Cursor = Cursor_<u64>;

/// One value for each pointer mode.
#[derive(Clone, Copy, Debug)]
pub struct Cursor_<T> {
    pub normal: T,
    pub resize: T,
    pub mov: T,
}

/// Which workspace and window are active, and whether focus is pinned.
#[derive(Clone, Copy, Debug, PartialEq, Eq, Structural)]
pub struct Active {
    pub workspace: usize,
    pub window: Window,
    pub focus_locked: bool,
}

/// One of the two sets that exempt a window from tiling.
#[derive(Clone, Copy, Debug, PartialEq, Eq, Structural)]
pub enum Selector {
    Floating,
    Fullscreen,
}

/// The layout parameters and drag state of a workspace.
#[derive(Debug)]
pub struct CustomData {
    /// The screen column between master and stack.
    pub separator: u32,
    pub fullscreen_windows: HashSet<Window>,
    pub floating_windows: HashSet<Window>,
    pub rightclick_grab_origin: (i32, i32),
    pub rightclick_grab_window: Window,
    pub rightclick_grabbing: bool,
    /// The pointer's offset from the corner of the window it grabbed.
    pub leftclick_d: (i64, i64),
    pub leftclick_grab_window: Window,
    pub leftclick_grabbing: bool,
}

impl View for CustomData {
    type V = CustomModel;

    open spec fn view(&self) -> CustomModel {
        CustomModel {
            separator: self.separator,
            fullscreen_windows: self.fullscreen_windows@,
            floating_windows: self.floating_windows@,
            rightclick_grab_origin: self.rightclick_grab_origin,
            rightclick_grab_window: self.rightclick_grab_window,
            rightclick_grabbing: self.rightclick_grabbing,
            leftclick_d: self.leftclick_d,
            leftclick_grab_window: self.leftclick_grab_window,
            leftclick_grabbing: self.leftclick_grabbing,
        }
    }
}

/// A workspace: a tag, the windows in master/stack order, and the layout
/// parameters, which a workspace may do without.
#[derive(Debug)]
pub struct Space {
    pub tag: String,
    pub windows: Vec<Window>,
    pub custom: Option<CustomData>,
}

impl View for Space {
    type V = SpaceModel;

    open spec fn view(&self) -> SpaceModel {
        SpaceModel {
            tag: self.tag@,
            windows: self.windows@,
            custom: match self.custom {
                Some(c) => Some(c@),
                None => None,
            },
        }
    }
}

/// The state of the engine.
#[derive(Debug)]
pub struct State {
    /// The root window, which no workspace lists.
    pub root: Window,
    pub screen_width: u32,
    pub screen_height: u32,
    pub style: Style,
    /// The least split position.
    pub separator_min: u32,
    /// The greatest split position.
    pub separator_max: u32,
    pub workspaces: Vec<Space>,
    pub active: Active,
}

impl View for State {
    type V = Model;

    open spec fn view(&self) -> Model {
        Model {
            root: self.root,
            screen_width: self.screen_width,
            screen_height: self.screen_height,
            style: self.style,
            separator_min: self.separator_min,
            separator_max: self.separator_max,
            workspaces: Seq::new(self.workspaces.len() as nat, |i: int| self.workspaces[i]@),
            active: self.active,
        }
    }
}

impl State {
    /// The invariants hold of this state.
    pub open spec fn wf(&self) -> bool {
        self@.wf()
    }

    /// The two states agree on what is fixed at start-up.
    pub open spec fn same_setup(&self, other: &State) -> bool {
        &&& self.root == other.root
        &&& self.screen_width == other.screen_width
        &&& self.screen_height == other.screen_height
        &&& self.style == other.style
        &&& self.separator_min == other.separator_min
        &&& self.separator_max == other.separator_max
    }
}

impl CustomData {
    /// The view of fresh parameters with split position `separator`.
    pub open spec fn fresh(separator: u32) -> CustomModel {
        CustomModel {
            separator,
            fullscreen_windows: Set::empty(),
            floating_windows: Set::empty(),
            rightclick_grab_origin: (0i32, 0i32),
            rightclick_grab_window: 0,
            rightclick_grabbing: false,
            leftclick_d: (0i64, 0i64),
            leftclick_grab_window: 0,
            leftclick_grabbing: false,
        }
    }
}

/// `v` brought into `lo..=hi`.
pub open spec fn clamped(v: u32, lo: u32, hi: u32) -> u32 {
    if v < lo {
        lo
    } else if v > hi {
        hi
    } else {
        v
    }
}

/// `v` brought into `lo..=hi`.
pub fn clamp(v: u32, lo: u32, hi: u32) -> (r: u32)
    requires
        lo <= hi,
    ensures
        r == clamped(v, lo, hi),
        lo <= r <= hi,
{
    if v < lo {
        lo
    } else if v > hi {
        hi
    } else {
        v
    }
}

} // verus!
