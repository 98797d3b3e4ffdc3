//! What the engine asks of the windowing server.

use vstd::prelude::*;
use crate::geometry::{Rect, Window};
use crate::widgets::Ctx;

verus! {

/// One request to the windowing server, or to the widgets.
#[derive(Clone, Copy, Debug, PartialEq, Eq, Structural)]
pub enum Command {
    /// Redraw the widgets.
    DrawWidgets(Ctx),
    /// Ask for the notifications about the window: the pointer entering
    /// and moving, and the window's own changes.
    Watch(Window),
    /// Put the window below the others.
    Lower(Window),
    /// Put the window above the others.
    Raise(Window),
    /// Hide the window.
    Unmap(Window),
    /// Give the window its border, move it to `rect` and show it; hand it
    /// the input focus where it is the selected one.
    Place { window: Window, rect: Rect, border_width: u32, selected: bool },
    /// As `Place`, at the rectangle that the window has now.
    Refresh { window: Window, border_width: u32, selected: bool },
    /// Close the window and end its client.
    Kill(Window),
    /// Start the program with this number in the configuration.
    Spawn(usize),
}

/// The commands of an optional command: one or none.
pub open spec fn seq_of(c: Option<Command>) -> Seq<Command> {
    match c {
        Some(c) => seq![c],
        None => Seq::empty(),
    }
}

} // verus!
