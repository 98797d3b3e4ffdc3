use xroagwem::command::Command;
use xroagwem::drag::{distance, shift_clamped};
use xroagwem::event::{
    handle, Action, Event, Gesture, Keybinding, Mousemotion, MousemotionsType, Pointer, Rects, Subjects,
};
use xroagwem::geometry::Rect;
use xroagwem::state::{clamp, Selector, State};
use xroagwem::style::{ColorScheme_, ColorSchemes_, Paddings, Style};
use xroagwem::widgets::Ctx;

const ROOT: u64 = 1;
const MOD: u32 = 64;
const SHIFT: u32 = 1;

fn fresh() -> State {
    let style = Style {
        colors: ColorSchemes_ {
            normal: ColorScheme_ { fg: "#024442", bg: "#ffffff", border: "#8b9458" },
            selected: ColorScheme_ { fg: "#ffff00", bg: "#ffffff", border: "#ffff00" },
        },
        border_thickness: 5,
        useless_gap: 5,
        paddings: Paddings { top: 20, bottom: 0, left: 0, right: 0 },
    };
    let tags = vec!["a".to_string(), "b".to_string(), "c".to_string(), "d".to_string()];
    State::new(ROOT, 1920, 1080, style, 100, 1820, Some(960), tags)
}

fn with_windows(windows: &[u64]) -> State {
    let mut state = fresh();
    for w in windows {
        state.add_window(0, *w);
    }
    state
}

fn rect(x: i32, y: i32, width: u32, height: u32) -> Rect {
    Rect { x, y, width, height }
}

fn place(window: u64, x: i32, y: i32, width: u32, height: u32, selected: bool) -> Command {
    Command::Place { window, rect: rect(x, y, width, height), border_width: 5, selected }
}

fn zero() -> Rect {
    rect(0, 0, 0, 0)
}

fn rects(r: Rect) -> Rects {
    Rects { active: r, resized: r, moved: r }
}

fn separator(state: &State) -> u32 {
    state.workspaces[state.active.workspace].custom.as_ref().unwrap().separator
}

fn bindings() -> MousemotionsType {
    MousemotionsType {
        on_press: vec![
            Mousemotion { mdky: MOD, button: 3, callback: Gesture::RightclickGrab },
            Mousemotion { mdky: MOD, button: 1, callback: Gesture::LeftclickGrab },
        ],
        on_release: vec![
            Mousemotion { mdky: MOD, button: 3, callback: Gesture::RightclickRelease },
            Mousemotion { mdky: MOD, button: 1, callback: Gesture::LeftclickRelease },
        ],
        on_move: vec![Mousemotion { mdky: MOD, button: 0, callback: Gesture::MouseMove }],
        on_cross: vec![Mousemotion { mdky: MOD, button: 0, callback: Gesture::MouseCross }],
    }
}

fn keys() -> Vec<Keybinding> {
    vec![
        Keybinding { mdky: MOD, key: 0x6a, callback: Action::FocusNext },
        Keybinding { mdky: MOD, key: 0x6b, callback: Action::FocusPrevious },
        Keybinding { mdky: MOD, key: 0x6a, callback: Action::CloseActive },
        Keybinding { mdky: MOD | SHIFT, key: 0x31, callback: Action::SendToWorkspace(0) },
        Keybinding { mdky: MOD, key: 0x31, callback: Action::GotoWorkspace(0) },
        Keybinding { mdky: MOD, key: 0xff0d, callback: Action::Spawn(2) },
    ]
}

#[test]
fn clamp_brings_a_value_into_the_range() {
    assert_eq!(clamp(5, 10, 20), 10);
    assert_eq!(clamp(15, 10, 20), 15);
    assert_eq!(clamp(25, 10, 20), 20);
    assert_eq!(shift_clamped(15, -10, 10, 20), 10);
    assert_eq!(shift_clamped(15, 3, 10, 20), 18);
    assert_eq!(shift_clamped(u32::MAX, i32::MAX, 0, u32::MAX), u32::MAX);
    assert_eq!(shift_clamped(0, i32::MIN, 7, 9), 7);
}

#[test]
fn distance_is_the_absolute_difference() {
    assert_eq!(distance(3, 10), 7);
    assert_eq!(distance(10, 3), 7);
    assert_eq!(distance(i32::MIN, i32::MAX), u32::MAX);
}

#[test]
fn separator_moves_by_the_increment_and_retiles() {
    let mut state = with_windows(&[10, 20]);
    let cmds = state.separator_modify(40);
    assert_eq!(separator(&state), 1000);
    assert_eq!(
        cmds,
        vec![
            Command::DrawWidgets(Ctx::Retile),
            Command::Lower(10),
            Command::Lower(20),
            place(20, 5, 25, 980, 1040, false),
            place(10, 1002, 25, 900, 1040, false),
        ]
    );
}

#[test]
fn separator_stays_within_its_range() {
    let mut state = fresh();
    for _ in 0..40 {
        state.separator_modify(40);
    }
    assert_eq!(separator(&state), 1820);
    for _ in 0..80 {
        state.separator_modify(-40);
    }
    assert_eq!(separator(&state), 100);
    state.separator_modify(i32::MIN);
    assert_eq!(separator(&state), 100);
    state.separator_modify(i32::MAX);
    assert_eq!(separator(&state), 1820);
}

#[test]
fn floating_window_is_nudged() {
    let mut state = with_windows(&[10]);
    state.focus(10);
    state.toggle_membership(10, Selector::Floating);
    assert_eq!(
        state.active_floating_move(40, -40, rect(100, 100, 300, 200)),
        Some(place(10, 140, 60, 300, 200, true))
    );
    assert_eq!(state.active_floating_move(1, 0, rect(i32::MAX, 0, 300, 200)), None);
    assert_eq!(state.active_floating_move(0, -1, rect(0, i32::MIN, 300, 200)), None);
}

#[test]
fn tiled_window_is_neither_nudged_nor_resized() {
    let mut state = with_windows(&[10]);
    state.focus(10);
    assert_eq!(state.active_floating_move(40, 0, rect(100, 100, 300, 200)), None);
    assert_eq!(state.active_floating_resize(40, 40, rect(100, 100, 300, 200)), None);
}

#[test]
fn floating_window_is_resized_down_to_the_least_size() {
    let mut state = with_windows(&[10]);
    state.focus(10);
    state.toggle_membership(10, Selector::Floating);
    assert_eq!(
        state.active_floating_resize(40, 40, rect(7, 8, 300, 200)),
        Some(place(10, 7, 8, 340, 240, true))
    );
    assert_eq!(
        state.active_floating_resize(-40, -40, rect(7, 8, 120, 141)),
        Some(place(10, 7, 8, 100, 101, true))
    );
    assert_eq!(
        state.active_floating_resize(i32::MAX, 1, rect(7, 8, u32::MAX, 2147483647)),
        Some(place(10, 7, 8, 2147483647, 2147483647, true))
    );
}

#[test]
fn grab_records_the_window_and_pins_focus() {
    let mut state = with_windows(&[10, 20]);
    state.focus(20);
    state.rightclick_grab((300, 400));
    {
        let custom = state.workspaces[0].custom.as_ref().unwrap();
        assert_eq!(custom.rightclick_grab_origin, (300, 400));
        assert_eq!(custom.rightclick_grab_window, 20);
        assert!(custom.rightclick_grabbing);
    }
    assert!(state.active.focus_locked);
    state.rightclick_release((0, 0));
    {
        let custom = state.workspaces[0].custom.as_ref().unwrap();
        assert_eq!(custom.rightclick_grab_origin, (0, 0));
        assert_eq!(custom.rightclick_grab_window, 0);
        assert!(!custom.rightclick_grabbing);
    }
    assert!(!state.active.focus_locked);
}

#[test]
fn left_grab_records_the_offset_from_the_corner() {
    let mut state = with_windows(&[10]);
    state.focus(10);
    state.leftclick_grab((150, 160), rect(100, 90, 300, 200));
    {
        let custom = state.workspaces[0].custom.as_ref().unwrap();
        assert_eq!(custom.leftclick_d, (50, 70));
        assert_eq!(custom.leftclick_grab_window, 10);
        assert!(custom.leftclick_grabbing);
    }
    assert!(state.active.focus_locked);
    state.leftclick_grab((i32::MIN, i32::MAX), rect(i32::MAX, i32::MIN, 1, 1));
    assert_eq!(
        state.workspaces[0].custom.as_ref().unwrap().leftclick_d,
        (i32::MIN as i64 - i32::MAX as i64, i32::MAX as i64 - i32::MIN as i64)
    );
    state.leftclick_release((0, 0));
    let custom = state.workspaces[0].custom.as_ref().unwrap();
    assert_eq!(custom.leftclick_d, (0, 0));
    assert_eq!(custom.leftclick_grab_window, 0);
    assert!(!custom.leftclick_grabbing);
    assert!(!state.active.focus_locked);
}

#[test]
fn subjects_are_the_active_and_the_grabbed_windows() {
    let mut state = with_windows(&[10, 20]);
    state.focus(10);
    state.rightclick_grab((0, 0));
    state.focus(20);
    state.leftclick_grab((0, 0), zero());
    state.focus(10);
    assert_eq!(state.subjects(), Subjects { active: 10, resized: 10, moved: 20 });
    state.goto_workspace(1);
    assert_eq!(state.subjects(), Subjects { active: 10, resized: 0, moved: 0 });
}

#[test]
fn grabs_do_nothing_without_layout_parameters() {
    let style = fresh().style;
    let mut state = State::new(ROOT, 1920, 1080, style, 100, 1820, None, vec!["a".to_string()]);
    state.add_window(0, 10);
    state.focus(10);
    state.rightclick_grab((1, 1));
    state.leftclick_grab((1, 1), zero());
    assert!(!state.active.focus_locked);
    assert_eq!(state.mouse_move((500, 500), zero(), zero()), vec![]);
    assert_eq!(state.mouse_cross(10), vec![]);
    assert_eq!(state.separator_modify(40), vec![]);
}

#[test]
fn resize_drag_waits_for_the_threshold() {
    let mut state = with_windows(&[10]);
    state.focus(10);
    state.toggle_membership(10, Selector::Floating);
    state.rightclick_grab((500, 500));
    let r = rect(200, 300, 50, 50);
    for pt in [(520, 510), (550, 550), (450, 450), (500, 500), (550, 450)] {
        assert_eq!(state.mouse_move_rightclick(pt, r), vec![]);
        assert_eq!(state.workspaces[0].custom.as_ref().unwrap().rightclick_grab_origin, (500, 500));
    }
    assert_eq!(state.mouse_move_rightclick((551, 500), r), vec![place(10, 200, 300, 351, 200, true)]);
    assert_eq!(state.workspaces[0].custom.as_ref().unwrap().rightclick_grab_origin, (551, 500));
    assert_eq!(state.mouse_move_rightclick((560, 540), r), vec![]);
    assert_eq!(state.mouse_move_rightclick((560, 449), r), vec![place(10, 200, 300, 360, 149, true)]);
}

#[test]
fn split_drag_waits_for_the_threshold() {
    let mut state = with_windows(&[10, 20]);
    state.focus(20);
    state.rightclick_grab((960, 500));
    assert_eq!(state.mouse_move_rightclick((1000, 500), zero()), vec![]);
    assert_eq!(state.mouse_move_rightclick((960, 900), zero()), vec![]);
    assert_eq!(separator(&state), 960);
    let cmds = state.mouse_move_rightclick((1011, 700), zero());
    assert_eq!(separator(&state), 1011);
    assert_eq!(state.workspaces[0].custom.as_ref().unwrap().rightclick_grab_origin, (1011, 500));
    assert_eq!(
        cmds,
        vec![
            Command::DrawWidgets(Ctx::Retile),
            Command::Lower(10),
            Command::Lower(20),
            place(20, 5, 25, 991, 1040, true),
            place(10, 1013, 25, 889, 1040, false),
        ]
    );
}

#[test]
fn split_drag_keeps_the_split_in_its_range() {
    let mut state = with_windows(&[10, 20]);
    state.rightclick_grab((960, 500));
    state.mouse_move_rightclick((-5, 500), zero());
    assert_eq!(separator(&state), 100);
    state.mouse_move_rightclick((5000, 500), zero());
    assert_eq!(separator(&state), 1820);
}

#[test]
fn move_drag_follows_the_pointer_beyond_the_threshold() {
    let mut state = with_windows(&[10]);
    state.focus(10);
    state.toggle_membership(10, Selector::Floating);
    let r = rect(100, 100, 300, 200);
    state.leftclick_grab((150, 160), r);
    assert_eq!(state.mouse_move_leftclick((200, 160), r), None);
    assert_eq!(state.mouse_move_leftclick((150, 210), r), None);
    assert_eq!(state.mouse_move_leftclick((201, 160), r), Some(place(10, 151, 100, 300, 200, true)));
    assert_eq!(state.mouse_move_leftclick((150, 109), r), Some(place(10, 100, 49, 300, 200, true)));
}

#[test]
fn move_drag_leaves_a_tiled_window_alone() {
    let mut state = with_windows(&[10]);
    state.focus(10);
    let r = rect(100, 100, 300, 200);
    state.leftclick_grab((150, 160), r);
    assert_eq!(state.mouse_move_leftclick((900, 900), r), None);
    assert_eq!(state.mouse_move((900, 900), r, r), vec![]);
}

#[test]
fn move_drag_skips_a_corner_that_no_rectangle_holds() {
    let mut state = with_windows(&[10]);
    state.focus(10);
    state.toggle_membership(10, Selector::Floating);
    state.leftclick_grab((0, 0), rect(10, 10, 300, 200));
    assert_eq!(state.mouse_move_leftclick((i32::MAX, 0), rect(10, 10, 300, 200)), None);
}

#[test]
fn pointer_move_serves_the_gestures_in_progress() {
    let mut state = with_windows(&[10]);
    state.focus(10);
    state.toggle_membership(10, Selector::Floating);
    let r = rect(100, 100, 300, 200);
    assert_eq!(state.mouse_move((900, 900), r, r), vec![]);
    state.rightclick_grab((400, 300));
    state.leftclick_grab((150, 160), r);
    assert_eq!(
        state.mouse_move((500, 300), r, r),
        vec![place(10, 100, 100, 400, 200, true), place(10, 450, 240, 400, 200, true)]
    );
}

#[test]
fn crossing_a_tiled_window_while_moving_swaps_the_two() {
    let mut state = with_windows(&[10, 20, 30]);
    state.focus(30);
    state.leftclick_grab((10, 10), zero());
    let cmds = state.mouse_cross(10);
    assert_eq!(state.workspaces[0].windows, vec![30, 20, 10]);
    assert_eq!(
        cmds,
        vec![
            Command::DrawWidgets(Ctx::Retile),
            Command::Lower(30),
            Command::Lower(20),
            Command::Lower(10),
            place(10, 5, 25, 940, 1040, false),
            place(30, 962, 25, 940, 510, true),
            place(20, 962, 555, 940, 510, false),
        ]
    );
}

#[test]
fn crossing_does_not_reorder_without_a_move_gesture() {
    let mut state = with_windows(&[10, 20, 30]);
    state.focus(30);
    assert_eq!(state.mouse_cross(10), vec![]);
    assert_eq!(state.workspaces[0].windows, vec![10, 20, 30]);
}

#[test]
fn crossing_does_not_reorder_exempt_or_foreign_windows() {
    let mut state = with_windows(&[10, 20, 30]);
    state.add_window(1, 40);
    state.toggle_membership(10, Selector::Floating);
    state.toggle_membership(20, Selector::Fullscreen);
    state.focus(30);
    state.leftclick_grab((10, 10), zero());
    assert_eq!(state.mouse_cross(10), vec![]);
    assert_eq!(state.mouse_cross(20), vec![]);
    assert_eq!(state.mouse_cross(40), vec![]);
    assert_eq!(state.mouse_cross(99), vec![]);
    assert_eq!(state.workspaces[0].windows, vec![10, 20, 30]);
    // A floating window that is grabbed is moved, not reordered.
    state.leftclick_release((0, 0));
    state.focus(10);
    state.leftclick_grab((10, 10), zero());
    assert_eq!(state.mouse_cross(30), vec![]);
    assert_eq!(state.workspaces[0].windows, vec![10, 20, 30]);
}

#[test]
fn first_binding_for_a_key_wins() {
    let mut state = with_windows(&[10, 20, 30]);
    state.focus(30);
    state.key(&keys(), 0x6a, MOD, zero());
    assert_eq!(state.active.window, 10);
    assert_eq!(state.workspaces[0].windows, vec![10, 20, 30]);
}

#[test]
fn key_needs_exactly_its_modifiers() {
    let mut state = with_windows(&[10, 20, 30]);
    state.focus(30);
    assert_eq!(state.key(&keys(), 0x6a, MOD | SHIFT, zero()), vec![]);
    assert_eq!(state.key(&keys(), 0x6a, 0, zero()), vec![]);
    assert_eq!(state.key(&keys(), 0x7a, MOD, zero()), vec![]);
    assert_eq!(state.active.window, 30);
    state.goto_workspace(2);
    state.key(&keys(), 0x31, MOD | SHIFT, zero());
    assert_eq!(state.active.workspace, 2);
    assert_eq!(state.workspaces[0].windows, vec![10, 20, 30]);
    state.key(&keys(), 0x31, MOD, zero());
    assert_eq!(state.active.workspace, 0);
}

#[test]
fn spawn_is_handed_on() {
    let mut state = fresh();
    assert_eq!(state.key(&keys(), 0xff0d, MOD, zero()), vec![Command::Spawn(2)]);
    assert_eq!(state.run(Action::Spawn(0), zero()), vec![Command::Spawn(0)]);
}

#[test]
fn actions_do_what_their_operations_do() {
    let mut state = with_windows(&[10, 20]);
    state.focus(10);
    state.run(Action::ToggleFloating, zero());
    assert!(state.is_floating(10));
    assert_eq!(
        state.run(Action::FloatingMove(40, 0), rect(1, 2, 3, 4)),
        vec![place(10, 41, 2, 3, 4, true)]
    );
    assert_eq!(
        state.run(Action::FloatingResize(40, 40), rect(1, 2, 300, 400)),
        vec![place(10, 1, 2, 340, 440, true)]
    );
    state.run(Action::ToggleFullscreen, zero());
    assert!(state.is_fullscreen(10));
    state.run(Action::SeparatorModify(-40), zero());
    assert_eq!(separator(&state), 920);
    state.run(Action::FocusPrevious, zero());
    assert_eq!(state.active.window, 20);
    state.run(Action::FocusNext, zero());
    assert_eq!(state.active.window, 10);
    state.run(Action::SendToWorkspace(1), zero());
    assert_eq!(state.workspaces[1].windows, vec![10]);
    state.run(Action::NextWorkspace, zero());
    assert_eq!(state.active.workspace, 1);
    state.run(Action::PrevWorkspace, zero());
    assert_eq!(state.active.workspace, 0);
    state.run(Action::GotoWorkspace(3), zero());
    assert_eq!(state.active.workspace, 3);
    state.run(Action::GotoWorkspace(0), zero());
    state.focus(20);
    assert_eq!(
        state.run(Action::CloseActive, zero()),
        vec![Command::DrawWidgets(Ctx::Retile), Command::Kill(20)]
    );
}

#[test]
fn toggling_the_active_window_retiles() {
    let mut state = with_windows(&[10]);
    state.focus(10);
    assert_eq!(
        state.toggle_active(Selector::Fullscreen),
        vec![Command::DrawWidgets(Ctx::Retile), Command::Raise(10), place(10, 0, 0, 1920, 1080, true)]
    );
    assert_eq!(
        state.toggle_active(Selector::Fullscreen),
        vec![Command::DrawWidgets(Ctx::Retile), Command::Lower(10), place(10, 5, 25, 1900, 1040, true)]
    );
}

#[test]
fn button_binding_needs_its_button_and_a_modifier() {
    let b = Mousemotion { mdky: MOD, button: 3, callback: Gesture::RightclickGrab };
    let at = |button, state| Pointer { button, state, at: (0, 0), window: 0 };
    assert!(b.fires(at(Some(3), MOD)));
    assert!(b.fires(at(Some(3), MOD | SHIFT)));
    assert!(!b.fires(at(Some(1), MOD)));
    assert!(!b.fires(at(Some(3), SHIFT)));
    assert!(!b.fires(at(Some(3), 0)));
    assert!(b.fires(at(None, MOD)));
}

#[test]
fn press_move_release_make_a_gesture() {
    let mut state = with_windows(&[10]);
    state.focus(10);
    state.toggle_membership(10, Selector::Floating);
    let table = bindings();
    let r = rects(rect(100, 100, 300, 200));
    let press = Event::ButtonPress { button: 3, state: MOD, x_root: 400, y_root: 300 };
    assert_eq!(handle(&mut state, press, &keys(), &table, r), vec![]);
    assert!(state.active.focus_locked);
    let quiet = Event::MotionNotify { state: MOD, x_root: 420, y_root: 330 };
    assert_eq!(handle(&mut state, quiet, &keys(), &table, r), vec![]);
    let far = Event::MotionNotify { state: MOD, x_root: 451, y_root: 330 };
    assert_eq!(handle(&mut state, far, &keys(), &table, r), vec![place(10, 100, 100, 351, 230, true)]);
    let unbound = Event::MotionNotify { state: SHIFT, x_root: 900, y_root: 900 };
    assert_eq!(handle(&mut state, unbound, &keys(), &table, r), vec![]);
    let release = Event::ButtonRelease { button: 3, state: MOD, x_root: 451, y_root: 330 };
    assert_eq!(handle(&mut state, release, &keys(), &table, r), vec![]);
    assert!(!state.active.focus_locked);
    assert!(!state.workspaces[0].custom.as_ref().unwrap().rightclick_grabbing);
    let after = Event::MotionNotify { state: MOD, x_root: 900, y_root: 900 };
    assert_eq!(handle(&mut state, after, &keys(), &table, r), vec![]);
}

#[test]
fn every_binding_that_fires_is_served() {
    let mut state = with_windows(&[10]);
    state.focus(10);
    let both = vec![
        Mousemotion { mdky: MOD, button: 1, callback: Gesture::LeftclickGrab },
        Mousemotion { mdky: SHIFT, button: 1, callback: Gesture::RightclickGrab },
        Mousemotion { mdky: MOD, button: 2, callback: Gesture::LeftclickRelease },
    ];
    let p = Pointer { button: Some(1), state: MOD | SHIFT, at: (7, 8), window: 0 };
    assert_eq!(state.dispatch(&both, p, rects(zero())), vec![]);
    let custom = state.workspaces[0].custom.as_ref().unwrap();
    assert!(custom.leftclick_grabbing && custom.rightclick_grabbing);
    assert_eq!(custom.rightclick_grab_origin, (7, 8));
}

#[test]
fn map_request_adds_focuses_and_retiles() {
    let mut state = with_windows(&[10]);
    let ev = Event::MapRequest { window: 20, known: true };
    let cmds = handle(&mut state, ev, &keys(), &bindings(), rects(zero()));
    assert_eq!(state.workspaces[0].windows, vec![10, 20]);
    assert_eq!(state.active.window, 20);
    assert_eq!(
        cmds,
        vec![
            Command::Watch(20),
            Command::Raise(20),
            Command::DrawWidgets(Ctx::Retile),
            Command::Lower(10),
            Command::Lower(20),
            place(20, 5, 25, 940, 1040, true),
            place(10, 962, 25, 940, 1040, false),
        ]
    );
}

#[test]
fn map_request_of_a_window_the_server_lost_is_void() {
    let mut state = with_windows(&[10]);
    let ev = Event::MapRequest { window: 20, known: false };
    assert_eq!(handle(&mut state, ev, &keys(), &bindings(), rects(zero())), vec![]);
    assert_eq!(state.workspaces[0].windows, vec![10]);
    assert_eq!(state.active.window, ROOT);
}

#[test]
fn unmap_forgets_the_window_and_moves_the_focus() {
    let mut state = with_windows(&[10, 20, 30]);
    state.toggle_membership(20, Selector::Floating);
    state.focus(20);
    let cmds = handle(&mut state, Event::UnmapNotify { window: 20 }, &keys(), &bindings(), rects(zero()));
    assert_eq!(state.workspaces[0].windows, vec![10, 30]);
    assert!(state.workspaces[0].custom.as_ref().unwrap().floating_windows.is_empty());
    assert_eq!(state.active.window, 30);
    assert_eq!(
        cmds,
        vec![
            Command::DrawWidgets(Ctx::Retile),
            Command::Lower(10),
            Command::Lower(30),
            place(30, 5, 25, 940, 1040, true),
            place(10, 962, 25, 940, 1040, false),
        ]
    );
}

#[test]
fn unmap_of_another_window_keeps_the_focus() {
    let mut state = with_windows(&[10, 20, 30]);
    state.focus(20);
    state.unmap(10);
    assert_eq!(state.workspaces[0].windows, vec![20, 30]);
    assert_eq!(state.active.window, 20);
    assert_eq!(state.unmap(99), vec![]);
}

#[test]
fn a_window_of_another_workspace_is_forgotten_too() {
    let mut state = with_windows(&[10, 20, 30]);
    state.focus(20);
    state.goto_workspace(1);
    assert!(!state.shows(10));
    let cmds = handle(&mut state, Event::UnmapNotify { window: 10 }, &keys(), &bindings(), rects(zero()));
    assert_eq!(cmds, vec![Command::DrawWidgets(Ctx::Retile)]);
    assert_eq!(state.workspaces[0].windows, vec![20, 30]);
    assert_eq!(state.active.window, 20);
    let cmds = handle(&mut state, Event::DestroyNotify { window: 30 }, &keys(), &bindings(), rects(zero()));
    assert_eq!(cmds, vec![Command::DrawWidgets(Ctx::Retile)]);
    assert_eq!(state.workspaces[0].windows, vec![20]);
    state.goto_workspace(0);
    assert!(state.shows(20));
}

#[test]
fn forgetting_the_active_window_of_another_workspace_clears_the_focus() {
    let mut state = with_windows(&[10, 20]);
    state.focus(20);
    state.goto_workspace(1);
    state.unmap(20);
    assert_eq!(state.active.window, 0);
    assert_eq!(state.workspaces[0].windows, vec![10]);
}

#[test]
fn focus_follows_the_pointer() {
    let mut state = with_windows(&[10, 20]);
    state.focus(20);
    let ev = Event::EnterNotify { window: 10, state: 0, x_root: 5, y_root: 5 };
    let cmds = handle(&mut state, ev, &keys(), &bindings(), rects(zero()));
    assert_eq!(state.active.window, 10);
    assert_eq!(
        cmds,
        vec![
            Command::Raise(10),
            Command::DrawWidgets(Ctx::Retile),
            Command::Lower(10),
            Command::Lower(20),
            place(20, 5, 25, 940, 1040, false),
            place(10, 962, 25, 940, 1040, true),
        ]
    );
}

#[test]
fn focus_does_not_follow_the_pointer_during_a_drag() {
    let mut state = with_windows(&[10, 20]);
    state.toggle_membership(20, Selector::Floating);
    state.focus(20);
    state.rightclick_grab((0, 0));
    let ev = Event::EnterNotify { window: 10, state: MOD, x_root: 5, y_root: 5 };
    assert_eq!(handle(&mut state, ev, &keys(), &bindings(), rects(zero())), vec![]);
    assert_eq!(state.active.window, 20);
}

#[test]
fn focus_does_not_follow_the_pointer_to_the_root_or_a_stranger() {
    let mut state = with_windows(&[10, 20]);
    state.focus(20);
    for window in [ROOT, 99] {
        let ev = Event::EnterNotify { window, state: 0, x_root: 5, y_root: 5 };
        assert_eq!(handle(&mut state, ev, &keys(), &bindings(), rects(zero())), vec![]);
        assert_eq!(state.active.window, 20);
    }
}

#[test]
fn crossing_during_a_move_gesture_reorders_and_keeps_focus() {
    let mut state = with_windows(&[10, 20]);
    state.focus(20);
    state.leftclick_grab((0, 0), zero());
    let ev = Event::EnterNotify { window: 10, state: MOD, x_root: 5, y_root: 5 };
    let cmds = handle(&mut state, ev, &keys(), &bindings(), rects(zero()));
    assert_eq!(state.workspaces[0].windows, vec![20, 10]);
    assert_eq!(state.active.window, 20);
    assert_eq!(
        cmds,
        vec![
            Command::DrawWidgets(Ctx::Retile),
            Command::Lower(20),
            Command::Lower(10),
            place(10, 5, 25, 940, 1040, false),
            place(20, 962, 25, 940, 1040, true),
        ]
    );
}

#[test]
fn other_notifications_change_nothing() {
    let mut state = with_windows(&[10]);
    for ev in [Event::ConfigureNotify, Event::Expose, Event::Other] {
        assert_eq!(handle(&mut state, ev, &keys(), &bindings(), rects(zero())), vec![]);
    }
    assert_eq!(state.workspaces[0].windows, vec![10]);
    assert_eq!(state.active.window, ROOT);
}
