//! The dispatcher: from a notification of the windowing server to the
//! operation that it stands for.

use vstd::prelude::*;
use crate::command::{seq_of, Command};
use crate::geometry::{Rect, Window};
use crate::model::{lemma_add_window_wf, Model, NO_WINDOW};
use crate::retile::push_command;
use crate::state::{Selector, State};

verus! {

/// What a key can be bound to.
#[derive(Clone, Copy, Debug, PartialEq, Eq, Structural)]
pub enum Action {
    /// Start the program with this number in the configuration.
    Spawn(usize),
    FocusNext,
    FocusPrevious,
    ToggleFullscreen,
    ToggleFloating,
    /// Move the split position by so many columns.
    SeparatorModify(i32),
    NextWorkspace,
    PrevWorkspace,
    GotoWorkspace(usize),
    SendToWorkspace(usize),
    CloseActive,
    /// Nudge the active floating window.
    FloatingMove(i32, i32),
    /// Grow or shrink the active floating window.
    FloatingResize(i32, i32),
}

/// What a pointer notification can be bound to.
#[derive(Clone, Copy, Debug, PartialEq, Eq, Structural)]
pub enum Gesture {
    RightclickGrab,
    RightclickRelease,
    LeftclickGrab,
    LeftclickRelease,
    MouseMove,
    MouseCross,
}

/// A key with its modifiers, and what it does.
#[derive(Clone, Copy, Debug, PartialEq, Eq, Structural)]
pub struct Keybinding {
    pub mdky: u32,
    pub key: u32,
    pub callback: Action,
}

/// A pointer button with its modifiers, and what it does. Bindings of
/// moves and crossings have no button.
#[derive(Clone, Copy, Debug, PartialEq, Eq, Structural)]
pub struct Mousemotion {
    pub mdky: u32,
    pub button: u32,
    pub callback: Gesture,
}

/// The pointer bindings, by the phase in which they fire.
#[derive(Debug)]
pub struct MousemotionsType {
    pub on_press: Vec<Mousemotion>,
    pub on_release: Vec<Mousemotion>,
    pub on_move: Vec<Mousemotion>,
    pub on_cross: Vec<Mousemotion>,
}

/// The rectangles that the windowing server reports, at the time of a
/// notification, for the windows that an operation may read.
#[derive(Clone, Copy, Debug, PartialEq, Eq, Structural)]
pub struct Rects {
    /// That of the active window.
    pub active: Rect,
    /// That of the window grabbed with the right button.
    pub resized: Rect,
    /// That of the window grabbed with the left button.
    pub moved: Rect,
}

/// The windows whose rectangles an operation may read.
#[derive(Clone, Copy, Debug, PartialEq, Eq, Structural)]
pub struct Subjects {
    /// The active window.
    pub active: Window,
    /// The window grabbed with the right button.
    pub resized: Window,
    /// The window grabbed with the left button.
    pub moved: Window,
}

/// A pointer notification: the button, if it is about one, the modifier
/// state, the pointer's position on the screen, and the window, if it is
/// about one.
#[derive(Clone, Copy, Debug)]
pub struct Pointer {
    pub button: Option<u32>,
    pub state: u32,
    pub at: (i32, i32),
    pub window: Window,
}

/// A notification of the windowing server, with what had to be asked of
/// the server to handle it.
#[derive(Clone, Copy, Debug, PartialEq, Eq, Structural)]
pub enum Event {
    /// A window wants to appear; `known` says whether the server could
    /// give its attributes.
    MapRequest { window: Window, known: bool },
    /// A key was pressed; `keysym` is the symbol of the key.
    KeyPress { keysym: u32, state: u32 },
    /// The window is gone for good.
    DestroyNotify { window: Window },
    /// The pointer entered the window.
    EnterNotify { window: Window, state: u32, x_root: i32, y_root: i32 },
    ButtonPress { button: u32, state: u32, x_root: i32, y_root: i32 },
    ButtonRelease { button: u32, state: u32, x_root: i32, y_root: i32 },
    MotionNotify { state: u32, x_root: i32, y_root: i32 },
    /// The window is no longer shown.
    UnmapNotify { window: Window },
    ConfigureNotify,
    Expose,
    Other,
}

/// The action of the first binding at or after `from` for exactly this
/// key and these modifiers.
pub open spec fn binding_for(bindings: Seq<Keybinding>, keysym: u32, state: u32, from: int) -> Option<Action>
    decreases bindings.len() - from,
{
    if from < 0 || from >= bindings.len() {
        None
    } else if bindings[from].key == keysym && bindings[from].mdky == state {
        Some(bindings[from].callback)
    } else {
        binding_for(bindings, keysym, state, from + 1)
    }
}

impl Mousemotion {
    /// Whether the binding fires on `p`: it shares a modifier with the
    /// notification and, where the notification is about a button, it is
    /// bound to that button.
    pub open spec fn fires_spec(self, p: Pointer) -> bool {
        &&& match p.button {
            Some(b) => self.button == b,
            None => true,
        }
        &&& (self.mdky & p.state) != 0
    }

    /// Whether the binding fires on `p`.
    pub fn fires(&self, p: Pointer) -> (r: bool)
        ensures
            r == self.fires_spec(p),
    {
        let button_fits = match p.button {
            Some(b) => self.button == b,
            None => true,
        };
        button_fits && (self.mdky & p.state) != 0
    }
}

impl Model {
    /// The state after `action`.
    pub open spec fn run(self, action: Action) -> Model {
        match action {
            Action::Spawn(_) => self,
            Action::FocusNext => self.focus_next(),
            Action::FocusPrevious => self.focus_previous(),
            Action::ToggleFullscreen => self.toggle_membership(self.active.window, Selector::Fullscreen),
            Action::ToggleFloating => self.toggle_membership(self.active.window, Selector::Floating),
            Action::SeparatorModify(by) => self.separator_modify(by),
            Action::NextWorkspace => self.set_workspace(self.next_workspace_index()),
            Action::PrevWorkspace => self.set_workspace(self.prev_workspace_index()),
            Action::GotoWorkspace(no) => self.goto_workspace(no),
            Action::SendToWorkspace(no) => self.send_active_window_to_workspace(no),
            Action::CloseActive => self.close_active(),
            Action::FloatingMove(_, _) => self,
            Action::FloatingResize(_, _) => self,
        }
    }

    /// The commands of `action`; `rect` is the rectangle of the active
    /// window.
    pub open spec fn run_commands(self, action: Action, rect: Rect) -> Seq<Command> {
        match action {
            Action::Spawn(program) => seq![Command::Spawn(program)],
            Action::FocusNext => self.refocus_commands(self.focus_next()),
            Action::FocusPrevious => self.refocus_commands(self.focus_previous()),
            Action::ToggleFullscreen => self.custom_commands(self.run(action)),
            Action::ToggleFloating => self.custom_commands(self.run(action)),
            Action::SeparatorModify(by) => self.custom_commands(self.separator_modify(by)),
            Action::NextWorkspace => self.set_workspace_commands(self.next_workspace_index()),
            Action::PrevWorkspace => self.set_workspace_commands(self.prev_workspace_index()),
            Action::GotoWorkspace(no) => self.goto_workspace_commands(no),
            Action::SendToWorkspace(no) => self.send_commands(no),
            Action::CloseActive => self.close_commands(),
            Action::FloatingMove(dx, dy) => seq_of(self.active_floating_move(dx, dy, rect)),
            Action::FloatingResize(dw, dh) => seq_of(self.active_floating_resize(dw, dh, rect)),
        }
    }

    /// The state after a key press: that after the action of the first
    /// binding for the key, if there is one.
    pub open spec fn key(self, bindings: Seq<Keybinding>, keysym: u32, state: u32) -> Model {
        match binding_for(bindings, keysym, state, 0) {
            Some(action) => self.run(action),
            None => self,
        }
    }

    /// The commands of a key press.
    pub open spec fn key_commands(self, bindings: Seq<Keybinding>, keysym: u32, state: u32, rect: Rect) -> Seq<
        Command,
    > {
        match binding_for(bindings, keysym, state, 0) {
            Some(action) => self.run_commands(action, rect),
            None => Seq::empty(),
        }
    }

    /// The state after `gesture`.
    pub open spec fn gesture(self, gesture: Gesture, p: Pointer, rects: Rects) -> Model {
        match gesture {
            Gesture::RightclickGrab => self.rightclick_grab(p.at),
            Gesture::RightclickRelease => self.rightclick_release(),
            Gesture::LeftclickGrab => self.leftclick_grab(p.at, rects.active),
            Gesture::LeftclickRelease => self.leftclick_release(),
            Gesture::MouseMove => self.mouse_move(p.at),
            Gesture::MouseCross => self.mouse_cross(p.window),
        }
    }

    /// The commands of `gesture`.
    pub open spec fn gesture_commands(self, gesture: Gesture, p: Pointer, rects: Rects) -> Seq<Command> {
        match gesture {
            Gesture::MouseMove => self.mouse_move_commands(p.at, rects.resized, rects.moved),
            Gesture::MouseCross => self.mouse_cross_commands(p.window),
            _ => Seq::empty(),
        }
    }

    /// The state and the commands after every binding of `bindings` that
    /// fires on `p` has done its gesture, in the order of the list.
    pub open spec fn dispatch(self, bindings: Seq<Mousemotion>, p: Pointer, rects: Rects) -> (Model, Seq<Command>)
        decreases bindings.len(),
    {
        if bindings.len() == 0 {
            (self, Seq::empty())
        } else {
            let (m, cmds) = self.dispatch(bindings.drop_last(), p, rects);
            let b = bindings.last();
            if b.fires_spec(p) {
                (m.gesture(b.callback, p, rects), cmds + m.gesture_commands(b.callback, p, rects))
            } else {
                (m, cmds)
            }
        }
    }

    /// Whether the pointer's entering `window` moves the focus there, in
    /// a state in which the bindings have fired: the window is managed
    /// and not the root, and focus is not pinned.
    pub open spec fn follows_pointer(self, window: Window) -> bool {
        window != self.root && !self.active.focus_locked && self.contains(window)
    }

    /// The state after the pointer entered `p.window`: the bindings for
    /// crossings fire, then the focus follows the pointer.
    pub open spec fn crossing(self, bindings: Seq<Mousemotion>, p: Pointer, rects: Rects) -> Model {
        let m = self.dispatch(bindings, p, rects).0;
        if m.follows_pointer(p.window) {
            m.focus(p.window)
        } else {
            m
        }
    }

    /// The commands after the pointer entered `p.window`: those of the
    /// bindings; then, where the focus follows, the window is raised and
    /// the workspace retiled.
    pub open spec fn crossing_commands(self, bindings: Seq<Mousemotion>, p: Pointer, rects: Rects) -> Seq<
        Command,
    > {
        let (m, cmds) = self.dispatch(bindings, p, rects);
        if m.follows_pointer(p.window) {
            cmds + m.focus_commands(p.window) + m.focus(p.window).retile()
        } else {
            cmds
        }
    }

    /// The state after a window asked to appear: where the server knows
    /// it, it is at the end of the active workspace, unless it was managed
    /// already, and active.
    pub open spec fn map_request(self, window: Window, known: bool) -> Model {
        if known {
            self.add_window(self.active.workspace as int, window).focus(window)
        } else {
            self
        }
    }

    /// The commands after a window asked to appear: it is watched and
    /// raised and the workspace retiled, if the server knows it.
    pub open spec fn map_request_commands(self, window: Window, known: bool) -> Seq<Command> {
        if known {
            seq![Command::Watch(window), Command::Raise(window)] + self.map_request(window, known).retile()
        } else {
            Seq::empty()
        }
    }

    /// The state after a managed window went away.
    pub open spec fn unmap(self, window: Window) -> Model {
        if self.contains(window) {
            self.forget(window)
        } else {
            self
        }
    }

    /// The commands after a managed window went away: a retile.
    pub open spec fn unmap_commands(self, window: Window) -> Seq<Command> {
        if self.contains(window) {
            self.forget(window).retile()
        } else {
            Seq::empty()
        }
    }

    /// Whether the active workspace shows `window`. The engine hides the
    /// windows of the other workspaces itself.
    pub open spec fn shows(self, window: Window) -> bool {
        self.space().windows.contains(window)
    }

    /// The windows whose rectangles the handling of a notification may
    /// read: the active one and the two that are grabbed, or none for
    /// these where the active workspace has no layout parameters.
    pub open spec fn subjects(self) -> Subjects {
        Subjects {
            active: self.active.window,
            resized: match self.space().custom {
                Some(c) => c.rightclick_grab_window,
                None => NO_WINDOW,
            },
            moved: match self.space().custom {
                Some(c) => c.leftclick_grab_window,
                None => NO_WINDOW,
            },
        }
    }

    /// The position of a pointer notification.
    pub open spec fn pointer(button: Option<u32>, state: u32, x_root: i32, y_root: i32, window: Window) -> Pointer {
        Pointer { button, state, at: (x_root, y_root), window }
    }

    /// The state after `ev`.
    pub open spec fn handle(
        self,
        ev: Event,
        keys: Seq<Keybinding>,
        press: Seq<Mousemotion>,
        release: Seq<Mousemotion>,
        moves: Seq<Mousemotion>,
        cross: Seq<Mousemotion>,
        rects: Rects,
    ) -> Model {
        match ev {
            Event::MapRequest { window, known } => self.map_request(window, known),
            Event::KeyPress { keysym, state } => self.key(keys, keysym, state),
            Event::DestroyNotify { window } => self.unmap(window),
            Event::EnterNotify { window, state, x_root, y_root } => self.crossing(
                cross,
                Self::pointer(None, state, x_root, y_root, window),
                rects,
            ),
            Event::ButtonPress { button, state, x_root, y_root } => self.dispatch(
                press,
                Self::pointer(Some(button), state, x_root, y_root, 0),
                rects,
            ).0,
            Event::ButtonRelease { button, state, x_root, y_root } => self.dispatch(
                release,
                Self::pointer(Some(button), state, x_root, y_root, 0),
                rects,
            ).0,
            Event::MotionNotify { state, x_root, y_root } => self.dispatch(
                moves,
                Self::pointer(None, state, x_root, y_root, 0),
                rects,
            ).0,
            Event::UnmapNotify { window } => self.unmap(window),
            _ => self,
        }
    }

    /// The commands after `ev`.
    pub open spec fn handle_commands(
        self,
        ev: Event,
        keys: Seq<Keybinding>,
        press: Seq<Mousemotion>,
        release: Seq<Mousemotion>,
        moves: Seq<Mousemotion>,
        cross: Seq<Mousemotion>,
        rects: Rects,
    ) -> Seq<Command> {
        match ev {
            Event::MapRequest { window, known } => self.map_request_commands(window, known),
            Event::KeyPress { keysym, state } => self.key_commands(keys, keysym, state, rects.active),
            Event::DestroyNotify { window } => self.unmap_commands(window),
            Event::EnterNotify { window, state, x_root, y_root } => self.crossing_commands(
                cross,
                Self::pointer(None, state, x_root, y_root, window),
                rects,
            ),
            Event::ButtonPress { button, state, x_root, y_root } => self.dispatch(
                press,
                Self::pointer(Some(button), state, x_root, y_root, 0),
                rects,
            ).1,
            Event::ButtonRelease { button, state, x_root, y_root } => self.dispatch(
                release,
                Self::pointer(Some(button), state, x_root, y_root, 0),
                rects,
            ).1,
            Event::MotionNotify { state, x_root, y_root } => self.dispatch(
                moves,
                Self::pointer(None, state, x_root, y_root, 0),
                rects,
            ).1,
            Event::UnmapNotify { window } => self.unmap_commands(window),
            _ => Seq::empty(),
        }
    }
}

impl State {
    /// Does what `action` stands for; `rect` is the rectangle that the
    /// active window has now.
    pub fn run(&mut self, action: Action, rect: Rect) -> (cmds: Vec<Command>)
        requires
            old(self).wf(),
        ensures
            final(self).wf(),
            final(self)@ == old(self)@.run(action),
            cmds@ == old(self)@.run_commands(action, rect),
    {
        match action {
            Action::Spawn(program) => {
                let mut out: Vec<Command> = Vec::new();
                out.push(Command::Spawn(program));
                assert(out@ =~= seq![Command::Spawn(program)]);
                out
            },
            Action::FocusNext => self.focus_next(),
            Action::FocusPrevious => self.focus_previous(),
            Action::ToggleFullscreen => self.toggle_active(Selector::Fullscreen),
            Action::ToggleFloating => self.toggle_active(Selector::Floating),
            Action::SeparatorModify(by) => self.separator_modify(by),
            Action::NextWorkspace => self.next_workspace(),
            Action::PrevWorkspace => self.prev_workspace(),
            Action::GotoWorkspace(no) => self.goto_workspace(no),
            Action::SendToWorkspace(no) => self.send_active_window_to_workspace(no),
            Action::CloseActive => self.close_active(),
            Action::FloatingMove(dx, dy) => {
                let mut out: Vec<Command> = Vec::new();
                let c = self.active_floating_move(dx, dy, rect);
                push_command(&mut out, c);
                assert(out@ =~= seq_of(c));
                out
            },
            Action::FloatingResize(dw, dh) => {
                let mut out: Vec<Command> = Vec::new();
                let c = self.active_floating_resize(dw, dh, rect);
                push_command(&mut out, c);
                assert(out@ =~= seq_of(c));
                out
            },
        }
    }

    /// Reverses the membership of the active window in the selected set,
    /// and retiles if the active workspace has layout parameters.
    pub fn toggle_active(&mut self, sel: Selector) -> (cmds: Vec<Command>)
        requires
            old(self).wf(),
        ensures
            final(self).wf(),
            final(self)@ == old(self)@.toggle_membership(old(self).active.window, sel),
            cmds@ == old(self)@.custom_commands(final(self)@),
    {
        let window = self.active.window;
        self.toggle_membership(window, sel);
        assert(self.workspaces[self.active.workspace as int]@ == self@.space());
        if self.workspaces[self.active.workspace].custom.is_some() {
            self.retile()
        } else {
            Vec::new()
        }
    }

    /// A key was pressed: the first binding for exactly this key and
    /// these modifiers does its action. `rect` is the rectangle that the
    /// active window has now.
    pub fn key(&mut self, bindings: &Vec<Keybinding>, keysym: u32, state: u32, rect: Rect) -> (cmds: Vec<
        Command,
    >)
        requires
            old(self).wf(),
        ensures
            final(self).wf(),
            final(self)@ == old(self)@.key(bindings@, keysym, state),
            cmds@ == old(self)@.key_commands(bindings@, keysym, state, rect),
    {
        let mut i: usize = 0;
        while i < bindings.len()
            invariant
                *self == *old(self),
                self.wf(),
                i <= bindings.len(),
                binding_for(bindings@, keysym, state, 0) == binding_for(bindings@, keysym, state, i as int),
            decreases bindings.len() - i,
        {
            if bindings[i].key == keysym && bindings[i].mdky == state {
                return self.run(bindings[i].callback, rect);
            }
            i += 1;
        }
        Vec::new()
    }

    /// Does what `gesture` stands for.
    pub fn gesture(&mut self, gesture: Gesture, p: Pointer, rects: Rects) -> (cmds: Vec<Command>)
        requires
            old(self).wf(),
        ensures
            final(self).wf(),
            final(self)@ == old(self)@.gesture(gesture, p, rects),
            cmds@ == old(self)@.gesture_commands(gesture, p, rects),
    {
        match gesture {
            Gesture::RightclickGrab => {
                self.rightclick_grab(p.at);
                Vec::new()
            },
            Gesture::RightclickRelease => {
                self.rightclick_release(p.at);
                Vec::new()
            },
            Gesture::LeftclickGrab => {
                self.leftclick_grab(p.at, rects.active);
                Vec::new()
            },
            Gesture::LeftclickRelease => {
                self.leftclick_release(p.at);
                Vec::new()
            },
            Gesture::MouseMove => self.mouse_move(p.at, rects.resized, rects.moved),
            Gesture::MouseCross => self.mouse_cross(p.window),
        }
    }

    /// Lets every binding of `bindings` that fires on `p` do its gesture,
    /// in the order of the list.
    pub fn dispatch(&mut self, bindings: &Vec<Mousemotion>, p: Pointer, rects: Rects) -> (cmds: Vec<Command>)
        requires
            old(self).wf(),
        ensures
            final(self).wf(),
            final(self)@ == old(self)@.dispatch(bindings@, p, rects).0,
            cmds@ == old(self)@.dispatch(bindings@, p, rects).1,
    {
        let mut out: Vec<Command> = Vec::new();
        let mut i: usize = 0;
        while i < bindings.len()
            invariant
                self.wf(),
                i <= bindings.len(),
                self@ == old(self)@.dispatch(bindings@.take(i as int), p, rects).0,
                out@ == old(self)@.dispatch(bindings@.take(i as int), p, rects).1,
            decreases bindings.len() - i,
        {
            assert(bindings@.take(i + 1).drop_last() =~= bindings@.take(i as int));
            if bindings[i].fires(p) {
                let mut more = self.gesture(bindings[i].callback, p, rects);
                out.append(&mut more);
            }
            i += 1;
        }
        assert(bindings@.take(i as int) =~= bindings@);
        out
    }

    /// The pointer entered `p.window`: the bindings for crossings fire;
    /// then the focus follows the pointer to a managed window, unless
    /// focus is pinned.
    pub fn crossing(&mut self, bindings: &Vec<Mousemotion>, p: Pointer, rects: Rects) -> (cmds: Vec<Command>)
        requires
            old(self).wf(),
        ensures
            final(self).wf(),
            final(self)@ == old(self)@.crossing(bindings@, p, rects),
            cmds@ == old(self)@.crossing_commands(bindings@, p, rects),
    {
        let mut out = self.dispatch(bindings, p, rects);
        if p.window == self.root || self.active.focus_locked || !self.window_exists(p.window) {
            return out;
        }
        let mut raised = self.focus(p.window);
        out.append(&mut raised);
        let mut tiles = self.retile();
        out.append(&mut tiles);
        out
    }

    /// A window asked to appear. Where the server could not give its
    /// attributes (`known` is false), nothing happens. Else the window
    /// joins the active workspace, unless it is managed already, becomes
    /// the active window, and the workspace is retiled.
    pub fn map_request(&mut self, window: Window, known: bool) -> (cmds: Vec<Command>)
        requires
            old(self).wf(),
        ensures
            final(self).wf(),
            final(self)@ == old(self)@.map_request(window, known),
            cmds@ == old(self)@.map_request_commands(window, known),
    {
        if !known {
            return Vec::new();
        }
        let workspace = self.active.workspace;
        proof {
            lemma_add_window_wf(self@, workspace as int, window);
        }
        self.add_window(workspace, window);
        let mut out: Vec<Command> = Vec::new();
        out.push(Command::Watch(window));
        let mut raised = self.focus(window);
        out.append(&mut raised);
        assert(out@ =~= seq![Command::Watch(window), Command::Raise(window)]);
        let mut tiles = self.retile();
        out.append(&mut tiles);
        out
    }

    /// A window went away: it leaves the model; where it was the active
    /// window the focus moves on; the workspace is retiled. Nothing
    /// happens for a window that is not managed.
    pub fn unmap(&mut self, window: Window) -> (cmds: Vec<Command>)
        requires
            old(self).wf(),
        ensures
            final(self).wf(),
            final(self)@ == old(self)@.unmap(window),
            cmds@ == old(self)@.unmap_commands(window),
    {
        if !self.window_exists(window) {
            return Vec::new();
        }
        self.forget(window);
        self.retile()
    }

    /// The windows whose rectangles are to be had from the server before
    /// a notification is handled.
    pub fn subjects(&self) -> (s: Subjects)
        requires
            self.wf(),
        ensures
            s == self@.subjects(),
    {
        assert(self.workspaces[self.active.workspace as int]@ == self@.space());
        match &self.workspaces[self.active.workspace].custom {
            Some(c) => Subjects {
                active: self.active.window,
                resized: c.rightclick_grab_window,
                moved: c.leftclick_grab_window,
            },
            None => Subjects { active: self.active.window, resized: NO_WINDOW, moved: NO_WINDOW },
        }
    }

    /// Whether the active workspace lists `window`: whether the engine
    /// has it shown.
    pub fn shows(&self, window: Window) -> (r: bool)
        requires
            self.wf(),
        ensures
            r == self@.shows(window),
    {
        assert(self.workspaces[self.active.workspace as int]@ == self@.space());
        crate::seqs::position(&self.workspaces[self.active.workspace].windows, window).is_some()
    }
}

/// Handles one notification: changes the state as the notification asks
/// and returns the commands for the windowing server, in the order in
/// which they are to be carried out.
///
/// A window that was unmapped or destroyed is forgotten wherever it is
/// listed. The engine hides windows itself, when it switches the
/// workspace or sends a window away; what the server then reports of a
/// window that the active workspace does not show (see `State::shows`) is
/// the echo of that, and is not meant to be handed in here.
pub fn handle(
    state: &mut State,
    ev: Event,
    keybindings: &Vec<Keybinding>,
    mousemotions: &MousemotionsType,
    rects: Rects,
) -> (cmds: Vec<Command>)
    requires
        old(state).wf(),
    ensures
        final(state).wf(),
        final(state)@ == old(state)@.handle(
            ev,
            keybindings@,
            mousemotions.on_press@,
            mousemotions.on_release@,
            mousemotions.on_move@,
            mousemotions.on_cross@,
            rects,
        ),
        cmds@ == old(state)@.handle_commands(
            ev,
            keybindings@,
            mousemotions.on_press@,
            mousemotions.on_release@,
            mousemotions.on_move@,
            mousemotions.on_cross@,
            rects,
        ),
{
    match ev {
        Event::MapRequest { window, known } => state.map_request(window, known),
        Event::KeyPress { keysym, state: modifiers } => state.key(keybindings, keysym, modifiers, rects.active),
        Event::DestroyNotify { window } => state.unmap(window),
        Event::EnterNotify { window, state: modifiers, x_root, y_root } => state.crossing(
            &mousemotions.on_cross,
            Pointer { button: None, state: modifiers, at: (x_root, y_root), window },
            rects,
        ),
        Event::ButtonPress { button, state: modifiers, x_root, y_root } => state.dispatch(
            &mousemotions.on_press,
            Pointer { button: Some(button), state: modifiers, at: (x_root, y_root), window: 0 },
            rects,
        ),
        Event::ButtonRelease { button, state: modifiers, x_root, y_root } => state.dispatch(
            &mousemotions.on_release,
            Pointer { button: Some(button), state: modifiers, at: (x_root, y_root), window: 0 },
            rects,
        ),
        Event::MotionNotify { state: modifiers, x_root, y_root } => state.dispatch(
            &mousemotions.on_move,
            Pointer { button: None, state: modifiers, at: (x_root, y_root), window: 0 },
            rects,
        ),
        Event::UnmapNotify { window } => state.unmap(window),
        _ => Vec::new(),
    }
}

} // verus!
