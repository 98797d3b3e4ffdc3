//! A tiling window manager's layout, focus and interaction engine.
//!
//! The engine owns the workspaces, the focus and the drag gestures, and
//! answers every notification with the list of commands that the windowing
//! server has to carry out. What it does is stated over a mathematical
//! model of its state (`model`), and every operation is proved to compute
//! what the model says.

pub mod audit;
pub mod command;
pub mod drag;
pub mod event;
pub mod focus;
pub mod geometry;
pub mod model;
pub mod retile;
pub mod seqs;
pub mod state;
pub mod style;
pub mod widgets;
pub mod wm;
