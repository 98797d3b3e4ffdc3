//! Decoration settings: colours, border, gap and screen paddings.

use vstd::prelude::*;

verus! {

/// Colours by name, as the configuration gives them.
pub type ColorSchemes = ColorSchemes_<&'static str>;

/// One colour scheme by name.
pub type ColorScheme = ColorScheme_<&'static str>;

/// The space at each screen edge that tiled windows leave free.
#[derive(Clone, Copy, Debug, PartialEq, Eq, Structural)]
pub struct Paddings {
    pub top: u32,
    pub bottom: u32,
    pub left: u32,
    pub right: u32,
}

/// Foreground, background and border colour.
#[derive(Clone, Copy, Debug)]
pub struct ColorScheme_<T> {
    pub fg: T,
    pub bg: T,
    pub border: T,
}

/// The scheme of ordinary windows and that of the selected one.
#[derive(Clone, Copy, Debug)]
pub struct ColorSchemes_<T> {
    pub normal: ColorScheme_<T>,
    pub selected: ColorScheme_<T>,
}

/// How windows are decorated and spaced.
#[derive(Clone, Copy, Debug)]
pub struct Style {
    pub colors: ColorSchemes,
    pub border_thickness: u32,
    pub useless_gap: u32,
    pub paddings: Paddings,
}

} // verus!
