//! Rectangles and the master/stack tiling of an ordered window list.

use vstd::prelude::*;

verus! {

/// A window handle, as the windowing server assigns it.
pub type Window = u64;

/// A rectangle on the screen: top-left corner and extent.
#[derive(Clone, Copy, Debug, PartialEq, Eq, Structural)]
pub struct Rect {
    pub x: i32,
    pub y: i32,
    pub width: u32,
    pub height: u32,
}

/// A window together with the rectangle it is to occupy.
#[derive(Clone, Copy, Debug, PartialEq, Eq, Structural)]
pub struct Placement {
    pub window: Window,
    pub rect: Rect,
}

/// A rectangle over the unbounded integers, before it is known to fit the
/// machine types of a `Rect`.
pub struct Cell {
    pub x: int,
    pub y: int,
    pub width: int,
    pub height: int,
}

impl Cell {
    /// The cell is representable as a `Rect`.
    pub open spec fn fits(self) -> bool {
        &&& i32::MIN <= self.x <= i32::MAX
        &&& i32::MIN <= self.y <= i32::MAX
        &&& 0 <= self.width <= u32::MAX
        &&& 0 <= self.height <= u32::MAX
    }

    /// The cell as a `Rect`; meant for a cell that fits.
    pub open spec fn rect(self) -> Rect
        recommends
            self.fits(),
    {
        Rect { x: self.x as i32, y: self.y as i32, width: self.width as u32, height: self.height as u32 }
    }
}

/// The space lost on one axis of a tile: gap and border on both sides.
pub open spec fn inset(gap: u32, border: u32) -> int {
    2 * gap + 2 * border
}

/// The share of the height that each stacked window gets when `n >= 2`
/// windows are tiled.
pub open spec fn stack_share(n: int, bounds: Rect) -> int
    recommends
        n >= 2,
{
    bounds.height as int / (n - 1)
}

/// The cell of the window at list position `k` among `n` tiled windows.
///
/// A single window fills the bounds. With more, the last window of the list
/// is the master, left of `split`; the others are stacked in list order
/// right of it, each with an equal share of the height.
pub open spec fn layout_cell(k: int, n: int, split: u32, bounds: Rect, gap: u32, border: u32) -> Cell
    recommends
        0 <= k < n,
{
    if n <= 1 {
        Cell {
            x: bounds.x + gap,
            y: bounds.y + gap,
            width: bounds.width - inset(gap, border),
            height: bounds.height - inset(gap, border),
        }
    } else if k == n - 1 {
        Cell {
            x: bounds.x + gap,
            y: bounds.y + gap,
            width: split - bounds.x - inset(gap, border),
            height: bounds.height - inset(gap, border),
        }
    } else {
        Cell {
            x: split + gap / 2,
            y: bounds.y + stack_share(n, bounds) * k + gap,
            width: bounds.x + bounds.width - split - inset(gap, border),
            height: stack_share(n, bounds) - inset(gap, border),
        }
    }
}

/// Every one of the `n` cells is representable.
pub open spec fn layout_fits_spec(n: int, split: u32, bounds: Rect, gap: u32, border: u32) -> bool {
    forall|k: int| 0 <= k < n ==> (#[trigger] layout_cell(k, n, split, bounds, gap, border)).fits()
}

/// The list position of the window that is placed `j`-th: the master first,
/// then the stack from the top.
pub open spec fn placed_index(j: int, n: int) -> int {
    if j == 0 {
        n - 1
    } else {
        j - 1
    }
}

/// The layout of `windows`, in the order in which the windows are placed:
/// the master first, then the stack from the top.
pub open spec fn layout_of(windows: Seq<Window>, split: u32, bounds: Rect, gap: u32, border: u32) -> Seq<
    Placement,
> {
    Seq::new(
        windows.len(),
        |j: int|
            Placement {
                window: windows[placed_index(j, windows.len() as int)],
                rect: layout_cell(
                    placed_index(j, windows.len() as int),
                    windows.len() as int,
                    split,
                    bounds,
                    gap,
                    border,
                ).rect(),
            },
    )
}

/// The cell at list position `k`, or `None` where it does not fit a `Rect`.
pub fn cell_at(k: usize, n: usize, split: u32, bounds: Rect, gap: u32, border: u32) -> (r: Option<Rect>)
    requires
        k < n,
    ensures
        r.is_some() == layout_cell(k as int, n as int, split, bounds, gap, border).fits(),
        r.is_some() ==> r.unwrap() == layout_cell(k as int, n as int, split, bounds, gap, border).rect(),
{
    let ins: i128 = 2 * (gap as i128) + 2 * (border as i128);
    let bx: i128 = bounds.x as i128;
    let by: i128 = bounds.y as i128;
    let bw: i128 = bounds.width as i128;
    let bh: i128 = bounds.height as i128;
    let g: i128 = gap as i128;
    let s: i128 = split as i128;
    let x: i128;
    let y: i128;
    let w: i128;
    let h: i128;
    if n <= 1 {
        x = bx + g;
        y = by + g;
        w = bw - ins;
        h = bh - ins;
    } else if k == n - 1 {
        x = bx + g;
        y = by + g;
        w = s - bx - ins;
        h = bh - ins;
    } else {
        let share: i128 = bh / ((n - 1) as i128);
        assert(0 <= share <= u32::MAX) by (nonlinear_arith)
            requires
                share == bh / ((n - 1) as i128),
                0 <= bh <= u32::MAX,
                n - 1 >= 1,
        ;
        assert(0 <= share * (k as i128) <= 0xffff_ffff * 0xffff_ffff_ffff_ffff) by (nonlinear_arith)
            requires
                0 <= share <= 0xffff_ffff,
                0 <= k <= 0xffff_ffff_ffff_ffff,
        ;
        x = s + g / 2;
        y = by + share * (k as i128) + g;
        w = bx + bw - s - ins;
        h = share - ins;
    }
    if -2147483648 <= x && x <= 2147483647 && -2147483648 <= y && y <= 2147483647 && 0 <= w && w
        <= 4294967295 && 0 <= h && h <= 4294967295 {
        Some(Rect { x: x as i32, y: y as i32, width: w as u32, height: h as u32 })
    } else {
        None
    }
}

/// Whether the layout of `n` windows is representable: the test that stands
/// before a call of `compute_layout`.
pub fn layout_fits(n: usize, split: u32, bounds: Rect, gap: u32, border: u32) -> (ok: bool)
    ensures
        ok == layout_fits_spec(n as int, split, bounds, gap, border),
{
    let mut k: usize = 0;
    while k < n
        invariant
            k <= n,
            forall|i: int|
                0 <= i < k ==> (#[trigger] layout_cell(i, n as int, split, bounds, gap, border)).fits(),
        decreases n - k,
    {
        if cell_at(k, n, split, bounds, gap, border).is_none() {
            return false;
        }
        k += 1;
    }
    true
}

/// The master/stack layout of `windows`, in the order in which the windows
/// are placed: the master (the last window of the list) first, then the
/// stack from the top.
///
/// The result depends on the arguments alone, so that two calls with the
/// same arguments give the same rectangles.
pub fn compute_layout(windows: &Vec<Window>, split: u32, bounds: Rect, gap: u32, border: u32) -> (out:
    Vec<Placement>)
    requires
        layout_fits_spec(windows.len() as int, split, bounds, gap, border),
    ensures
        out@ == layout_of(windows@, split, bounds, gap, border),
{
    let n = windows.len();
    let mut out: Vec<Placement> = Vec::new();
    let mut j: usize = 0;
    while j < n
        invariant
            n == windows.len(),
            j <= n,
            layout_fits_spec(n as int, split, bounds, gap, border),
            out.len() == j,
            forall|i: int|
                0 <= i < j ==> (#[trigger] out[i]) == layout_of(windows@, split, bounds, gap, border)[i],
        decreases n - j,
    {
        let k: usize = if j == 0 {
            n - 1
        } else {
            j - 1
        };
        let r = cell_at(k, n, split, bounds, gap, border);
        assert(layout_cell(k as int, n as int, split, bounds, gap, border).fits());
        out.push(Placement { window: windows[k], rect: r.unwrap() });
        j += 1;
    }
    assert(out@ =~= layout_of(windows@, split, bounds, gap, border));
    out
}

/// Two layouts of the same windows with the same parameters are the same,
/// rectangle for rectangle.
pub proof fn layout_is_repeatable(
    first: Seq<Placement>,
    second: Seq<Placement>,
    windows: Seq<Window>,
    split: u32,
    bounds: Rect,
    gap: u32,
    border: u32,
)
    requires
        first == layout_of(windows, split, bounds, gap, border),
        second == layout_of(windows, split, bounds, gap, border),
    ensures
        first == second,
        first.len() == windows.len(),
{
}

/// A single window gets the bounds, less gap and border on every side, with
/// its corner one gap inside the bounds' corner.
pub proof fn single_window_layout(w: Window, split: u32, bounds: Rect, gap: u32, border: u32)
    requires
        layout_fits_spec(1, split, bounds, gap, border),
    ensures
        layout_of(seq![w], split, bounds, gap, border).len() == 1,
        layout_of(seq![w], split, bounds, gap, border)[0].window == w,
        layout_of(seq![w], split, bounds, gap, border)[0].rect.x == bounds.x + gap,
        layout_of(seq![w], split, bounds, gap, border)[0].rect.y == bounds.y + gap,
        layout_of(seq![w], split, bounds, gap, border)[0].rect.width == bounds.width - 2 * gap - 2 * border,
        layout_of(seq![w], split, bounds, gap, border)[0].rect.height == bounds.height - 2 * gap - 2
            * border,
{
    assert(layout_cell(0, 1, split, bounds, gap, border).fits());
}

/// Of two windows on bounds that start at the origin, the second is the
/// master, as wide as the split position less gap and border on both sides;
/// the first gets the rest of the width and the whole height, each less gap
/// and border on both sides.
pub proof fn two_window_split(
    w1: Window,
    w2: Window,
    split: u32,
    width: u32,
    height: u32,
    gap: u32,
    border: u32,
)
    requires
        layout_fits_spec(2, split, Rect { x: 0, y: 0, width, height }, gap, border),
    ensures
        ({
            let out = layout_of(seq![w1, w2], split, Rect { x: 0, y: 0, width, height }, gap, border);
            &&& out.len() == 2
            &&& out[0].window == w2
            &&& out[0].rect.width == split - 2 * gap - 2 * border
            &&& out[1].window == w1
            &&& out[1].rect.width == (width - split) - 2 * gap - 2 * border
            &&& out[1].rect.height == height - 2 * gap - 2 * border
        }),
{
    let bounds = Rect { x: 0, y: 0, width, height };
    assert(layout_cell(0, 2, split, bounds, gap, border).fits());
    assert(layout_cell(1, 2, split, bounds, gap, border).fits());
}

} // verus!
