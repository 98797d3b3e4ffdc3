//! The status widgets, as far as the engine knows them: their kinds and the
//! occasion on which they are drawn.

use vstd::prelude::*;

verus! {

/// The occasion of a redraw.
#[derive(Clone, Copy, Debug, PartialEq, Eq, Structural)]
pub enum Ctx {
    Retile,
    Expose,
}

/// The bar of workspace tags.
#[derive(Clone, Copy, Debug)]
pub struct TopBar {}

/// The list of open windows.
#[derive(Clone, Copy, Debug)]
pub struct TaskList {}

/// Processor, clock and memory figures.
#[derive(Clone, Copy, Debug)]
pub struct Stats {}

} // verus!
