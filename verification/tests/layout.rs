use xroagwem::geometry::{cell_at, compute_layout, layout_fits, Placement, Rect};

fn screen() -> Rect {
    Rect { x: 0, y: 0, width: 1920, height: 1080 }
}

fn placed(window: u64, x: i32, y: i32, width: u32, height: u32) -> Placement {
    Placement { window, rect: Rect { x, y, width, height } }
}

#[test]
fn no_window_gives_an_empty_layout() {
    assert!(layout_fits(0, 960, screen(), 5, 5));
    assert_eq!(compute_layout(&vec![], 960, screen(), 5, 5), vec![]);
}

#[test]
fn single_window_fills_the_bounds() {
    assert!(layout_fits(1, 960, screen(), 5, 5));
    let out = compute_layout(&vec![7], 960, screen(), 5, 5);
    assert_eq!(out, vec![placed(7, 5, 5, 1900, 1060)]);
}

#[test]
fn single_window_starts_one_gap_inside_the_bounds() {
    let bounds = Rect { x: 30, y: 20, width: 800, height: 600 };
    let out = compute_layout(&vec![1], 0, bounds, 4, 3);
    assert_eq!(out, vec![placed(1, 34, 24, 800 - 8 - 6, 600 - 8 - 6)]);
}

#[test]
fn single_window_ignores_the_split_position() {
    let a = compute_layout(&vec![1], 100, screen(), 5, 5);
    let b = compute_layout(&vec![1], 1800, screen(), 5, 5);
    assert_eq!(a, b);
}

#[test]
fn two_windows_split_at_the_split_position() {
    let out = compute_layout(&vec![1, 2], 700, screen(), 5, 2);
    assert_eq!(out.len(), 2);
    // The last window is the master and comes first.
    assert_eq!(out[0], placed(2, 5, 5, 700 - 10 - 4, 1080 - 10 - 4));
    assert_eq!(out[1], placed(1, 702, 5, (1920 - 700) - 10 - 4, 1080 - 10 - 4));
}

#[test]
fn three_windows_share_the_stack() {
    let out = compute_layout(&vec![10, 20, 30], 960, Rect { x: 0, y: 20, width: 1920, height: 1060 }, 5, 5);
    assert_eq!(
        out,
        vec![placed(30, 5, 25, 940, 1040), placed(10, 962, 25, 940, 510), placed(20, 962, 555, 940, 510)]
    );
}

#[test]
fn stack_share_is_rounded_down() {
    let out = compute_layout(&vec![1, 2, 3, 4], 500, Rect { x: 0, y: 0, width: 1000, height: 1000 }, 0, 0);
    assert_eq!(
        out,
        vec![
            placed(4, 0, 0, 500, 1000),
            placed(1, 500, 0, 500, 333),
            placed(2, 500, 333, 500, 333),
            placed(3, 500, 666, 500, 333),
        ]
    );
}

#[test]
fn layout_is_the_same_on_a_second_call() {
    let windows = vec![3, 1, 4, 1, 5];
    let first = compute_layout(&windows, 960, screen(), 5, 5);
    let second = compute_layout(&windows, 960, screen(), 5, 5);
    assert_eq!(first, second);
}

#[test]
fn layout_does_not_fit_a_screen_smaller_than_the_insets() {
    let tiny = Rect { x: 0, y: 0, width: 15, height: 1080 };
    assert!(!layout_fits(1, 960, tiny, 5, 5));
    assert_eq!(cell_at(0, 1, 960, tiny, 5, 5), None);
}

#[test]
fn layout_does_not_fit_a_split_left_of_the_insets() {
    assert!(!layout_fits(2, 19, screen(), 5, 5));
    assert!(layout_fits(2, 20, screen(), 5, 5));
    assert_eq!(compute_layout(&vec![1, 2], 20, screen(), 5, 5)[0], placed(2, 5, 5, 0, 1060));
}

#[test]
fn layout_does_not_fit_a_split_beyond_the_screen() {
    assert!(!layout_fits(2, 1901, screen(), 5, 5));
    assert!(layout_fits(2, 1900, screen(), 5, 5));
}

#[test]
fn layout_does_not_fit_too_many_stacked_windows() {
    // 1080 / 54 = 20 rows are just as high as the insets; 1080 / 55 = 19 are not.
    assert!(layout_fits(55, 960, screen(), 5, 5));
    assert!(!layout_fits(56, 960, screen(), 5, 5));
}

#[test]
fn cell_at_gives_each_position_its_rectangle() {
    assert_eq!(cell_at(2, 3, 960, screen(), 5, 5), Some(Rect { x: 5, y: 5, width: 940, height: 1060 }));
    assert_eq!(cell_at(1, 3, 960, screen(), 5, 5), Some(Rect { x: 962, y: 545, width: 940, height: 520 }));
}

#[test]
fn cell_at_refuses_what_no_rectangle_holds() {
    let far = Rect { x: i32::MAX, y: 0, width: 100, height: 100 };
    assert_eq!(cell_at(0, 1, 0, far, 1, 0), None);
    let wide = Rect { x: 0, y: 0, width: u32::MAX, height: u32::MAX };
    assert_eq!(
        cell_at(0, 1, 0, wide, 0, 0),
        Some(Rect { x: 0, y: 0, width: u32::MAX, height: u32::MAX })
    );
    assert_eq!(cell_at(0, 2, u32::MAX, wide, 0, 0), None);
}
