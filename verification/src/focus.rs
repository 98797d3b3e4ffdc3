//! The focus tracker: the active window and the active workspace.

use vstd::prelude::*;
use crate::command::Command;
use crate::geometry::Window;
use crate::model::{lemma_remove_window_wf, Model, NO_WINDOW};
use crate::seqs::{first_index, flat_map, lemma_first_index, lemma_flat_map_step, position};
use crate::state::{Active, State};

verus! {

impl Model {
    /// `focus`: the handle becomes the active window, if it is a managed
    /// window or stands for none; any other handle changes nothing.
    pub open spec fn focus(self, w: Window) -> Model {
        if self.contains(w) || self.no_window(w) {
            self.with_window(w)
        } else {
            self
        }
    }

    /// The commands of `focus`: the window is raised, if it is managed.
    pub open spec fn focus_commands(self, w: Window) -> Seq<Command> {
        if self.contains(w) {
            seq![Command::Raise(w)]
        } else {
            Seq::empty()
        }
    }

    /// The window after the active one in the list of the active
    /// workspace, the first after the last; the last one where the active
    /// window is not in the list.
    pub open spec fn next_window(self) -> Window
        recommends
            self.space().windows.len() > 0,
    {
        let s = self.space().windows;
        let ix = first_index(s, self.active.window, 0);
        if ix < s.len() {
            s[(ix + 1) % (s.len() as int)]
        } else {
            s[s.len() - 1]
        }
    }

    /// The window before the active one in the list of the active
    /// workspace, the last before the first; the first one where the
    /// active window is not in the list.
    pub open spec fn previous_window(self) -> Window
        recommends
            self.space().windows.len() > 0,
    {
        let s = self.space().windows;
        let ix = first_index(s, self.active.window, 0);
        if ix < s.len() {
            if ix == 0 {
                s[s.len() - 1]
            } else {
                s[ix - 1]
            }
        } else {
            s[0]
        }
    }

    /// `focus_next`: the next window is active; nothing changes in an
    /// empty workspace.
    pub open spec fn focus_next(self) -> Model {
        if self.space().windows.len() == 0 {
            self
        } else {
            self.with_window(self.next_window())
        }
    }

    /// `focus_previous`: the previous window is active; nothing changes
    /// in an empty workspace.
    pub open spec fn focus_previous(self) -> Model {
        if self.space().windows.len() == 0 {
            self
        } else {
            self.with_window(self.previous_window())
        }
    }

    /// The commands of a focus change within the workspace, `after` being
    /// the state that it led to: a retile, unless the workspace is empty.
    pub open spec fn refocus_commands(self, after: Model) -> Seq<Command> {
        if self.space().windows.len() == 0 {
            Seq::empty()
        } else {
            after.retile()
        }
    }

    /// The state with workspace `no` active.
    pub open spec fn set_workspace(self, no: usize) -> Model {
        Model { active: Active { workspace: no, ..self.active }, ..self }
    }

    /// The commands of a switch to workspace `no`: every window of the
    /// workspace that was active is hidden, then the new one is retiled.
    pub open spec fn set_workspace_commands(self, no: usize) -> Seq<Command> {
        flat_map(self.space().windows, Self::hiding()) + self.set_workspace(no).retile()
    }

    /// The workspace after the active one, the first after the last.
    pub open spec fn next_workspace_index(self) -> usize {
        ((self.active.workspace + 1) % (self.workspaces.len() as int)) as usize
    }

    /// The workspace before the active one, the last before the first.
    pub open spec fn prev_workspace_index(self) -> usize {
        if self.active.workspace != 0 {
            (self.active.workspace - 1) as usize
        } else {
            (self.workspaces.len() - 1) as usize
        }
    }

    /// `goto_workspace`: workspace `no` is active, if there is one.
    pub open spec fn goto_workspace(self, no: usize) -> Model {
        if no < self.workspaces.len() {
            self.set_workspace(no)
        } else {
            self
        }
    }

    /// The commands of `goto_workspace`.
    pub open spec fn goto_workspace_commands(self, no: usize) -> Seq<Command> {
        if no < self.workspaces.len() {
            self.set_workspace_commands(no)
        } else {
            Seq::empty()
        }
    }

    /// Whether the active window can be sent to workspace `no`: it is a
    /// managed window and there is such a workspace.
    pub open spec fn can_send(self, no: usize) -> bool {
        no < self.workspaces.len() && self.contains(self.active.window)
    }

    /// `send_active_window_to_workspace`: the active window moves to the
    /// end of workspace `no`, and no window is active.
    pub open spec fn send_active_window_to_workspace(self, no: usize) -> Model {
        self.move_window_to_workspace(self.active.window, no as int)
    }

    /// The commands of `send_active_window_to_workspace`: the window is
    /// hidden and the active workspace retiled.
    pub open spec fn send_commands(self, no: usize) -> Seq<Command> {
        if self.can_send(no) {
            seq![Command::Unmap(self.active.window)] + self.send_active_window_to_workspace(no).retile()
        } else {
            Seq::empty()
        }
    }

    /// The state after `w` is gone: off every list and out of every set;
    /// where it was the active window, the focus moves on from no window
    /// as `focus_next` moves it.
    pub open spec fn forget(self, w: Window) -> Model {
        if self.active.window == w {
            self.remove_window(w).focus_next()
        } else {
            self.remove_window(w)
        }
    }

    /// `close_active`: the active window is forgotten, if it is a managed
    /// one.
    pub open spec fn close_active(self) -> Model {
        if self.contains(self.active.window) {
            self.forget(self.active.window)
        } else {
            self
        }
    }

    /// The commands of `close_active`: a retile without the window, then
    /// the end of its client.
    pub open spec fn close_commands(self) -> Seq<Command> {
        if self.contains(self.active.window) {
            self.close_active().retile() + seq![Command::Kill(self.active.window)]
        } else {
            Seq::empty()
        }
    }
}

/// Making a window of the active workspace the active window keeps the
/// invariants.
pub proof fn lemma_with_window_wf(m: Model, w: Window)
    requires
        m.wf(),
        m.contains(w) || m.no_window(w),
    ensures
        m.with_window(w).wf(),
{
    let r = m.with_window(w);
    assert forall|i: int, x: Window| #[trigger] r.holds(i, x) <==> m.holds(i, x) by {}
    assert forall|i: int, j: int, x: Window|
        #![trigger r.holds(i, x), r.holds(j, x)]
        r.holds(i, x) && r.holds(j, x) implies i == j by {
        assert(m.holds(i, x) && m.holds(j, x));
    }
    if m.contains(w) {
        let i = choose|i: int| m.holds(i, w);
        assert(r.holds(i, w));
    }
}

/// Cycling the focus keeps the invariants, and the window it leads to is
/// one of the active workspace.
pub proof fn lemma_cycle_wf(m: Model)
    requires
        m.wf(),
    ensures
        m.focus_next().wf(),
        m.focus_previous().wf(),
        m.space().windows.len() > 0 ==> m.space().windows.contains(m.next_window()) && m.space().windows.contains(
            m.previous_window(),
        ),
{
    let s = m.space().windows;
    if s.len() > 0 {
        lemma_first_index(s, m.active.window, 0);
        let a = m.next_window();
        let b = m.previous_window();
        let ix = first_index(s, m.active.window, 0);
        if ix < s.len() {
            assert(s[(ix + 1) % (s.len() as int)] == a);
        }
        assert(s.contains(a));
        assert(s.contains(b));
        assert(m.holds(m.active.workspace as int, a));
        assert(m.holds(m.active.workspace as int, b));
        lemma_with_window_wf(m, a);
        lemma_with_window_wf(m, b);
    }
}

/// Switching the workspace keeps the invariants.
pub proof fn lemma_set_workspace_wf(m: Model, no: usize)
    requires
        m.wf(),
        no < m.workspaces.len(),
    ensures
        m.set_workspace(no).wf(),
{
    let r = m.set_workspace(no);
    assert forall|i: int, x: Window| #[trigger] r.holds(i, x) <==> m.holds(i, x) by {}
    assert forall|i: int, j: int, x: Window|
        #![trigger r.holds(i, x), r.holds(j, x)]
        r.holds(i, x) && r.holds(j, x) implies i == j by {
        assert(m.holds(i, x) && m.holds(j, x));
    }
    if m.contains(m.active.window) {
        let i = choose|i: int| m.holds(i, m.active.window);
        assert(r.holds(i, m.active.window));
    }
}

/// Forgetting a window keeps the invariants, and the window is gone.
pub proof fn lemma_forget_wf(m: Model, w: Window)
    requires
        m.wf(),
    ensures
        m.forget(w).wf(),
        !m.forget(w).contains(w),
{
    lemma_remove_window_wf(m, w);
    let r = m.remove_window(w);
    lemma_cycle_wf(r);
    assert forall|i: int, x: Window| #[trigger] r.focus_next().holds(i, x) <==> r.holds(i, x) by {}
}

/// When the active window is forgotten, the last window of the active
/// workspace becomes the active one, or none if the workspace is then
/// empty; given that the null handle is not itself listed there.
pub proof fn forgetting_the_active_window_focuses_the_last(m: Model, w: Window)
    requires
        m.wf(),
        m.active.window == w,
        !m.space().windows.contains(NO_WINDOW),
    ensures
        m.remove_window(w).space().windows.len() == 0 ==> m.forget(w).active.window == NO_WINDOW,
        m.remove_window(w).space().windows.len() > 0 ==> m.forget(w).active.window == m.remove_window(
            w,
        ).space().windows.last(),
{
    let r = m.remove_window(w);
    lemma_remove_window_wf(m, w);
    let s = r.space().windows;
    if s.len() > 0 {
        lemma_first_index(s, NO_WINDOW, 0);
        if first_index(s, NO_WINDOW, 0) < s.len() {
            assert(r.holds(m.active.workspace as int, NO_WINDOW));
            assert(m.holds(m.active.workspace as int, NO_WINDOW));
        }
    }
}

/// From the last of three windows the focus goes on to the first, and
/// from the first back to the last.
pub proof fn focus_cycle_wraps(m: Model, a: Window, b: Window, c: Window)
    requires
        m.wf(),
        m.space().windows == seq![a, b, c],
    ensures
        m.active.window == c ==> m.focus_next().active.window == a,
        m.active.window == a ==> m.focus_previous().active.window == c,
{
    let s = m.space().windows;
    assert(s.no_duplicates()) by {
        assert(m.workspaces[m.active.workspace as int].wf(m.separator_min, m.separator_max));
    }
    assert(s[0] == a && s[1] == b && s[2] == c);
    lemma_first_index(s, m.active.window, 0);
    if m.active.window == c {
        reveal_with_fuel(first_index, 4);
        assert(first_index(s, c, 0) == 2);
    }
    if m.active.window == a {
        assert(first_index(s, a, 0) == 0);
    }
}

impl State {
    /// Makes `window` the active window, and raises it if it is a managed
    /// one. A handle that is neither managed nor stands for no window
    /// changes nothing.
    pub fn focus(&mut self, window: Window) -> (cmds: Vec<Command>)
        requires
            old(self).wf(),
        ensures
            final(self).wf(),
            final(self)@ == old(self)@.focus(window),
            cmds@ == old(self)@.focus_commands(window),
    {
        let mut out: Vec<Command> = Vec::new();
        if self.window_exists(window) {
            proof {
                lemma_with_window_wf(self@, window);
            }
            self.active.window = window;
            out.push(Command::Raise(window));
            assert(out@ =~= seq![Command::Raise(window)]);
        } else if window == NO_WINDOW || window == self.root {
            proof {
                lemma_with_window_wf(self@, window);
            }
            self.active.window = window;
        }
        out
    }

    /// Moves the focus to the next window of the active workspace and
    /// retiles.
    pub fn focus_next(&mut self) -> (cmds: Vec<Command>)
        requires
            old(self).wf(),
        ensures
            final(self).wf(),
            final(self)@ == old(self)@.focus_next(),
            cmds@ == old(self)@.refocus_commands(final(self)@),
    {
        let len = self.workspaces[self.active.workspace].windows.len();
        assert(self.workspaces[self.active.workspace as int]@ == self@.space());
        if len == 0 {
            return Vec::new();
        }
        proof {
            lemma_cycle_wf(self@);
        }
        let next = match position(&self.workspaces[self.active.workspace].windows, self.active.window) {
            Some(ix) => self.workspaces[self.active.workspace].windows[(ix + 1) % len],
            None => self.workspaces[self.active.workspace].windows[len - 1],
        };
        self.active.window = next;
        assert(self@.workspaces =~= old(self)@.workspaces);
        self.retile()
    }

    /// Moves the focus to the previous window of the active workspace and
    /// retiles.
    pub fn focus_previous(&mut self) -> (cmds: Vec<Command>)
        requires
            old(self).wf(),
        ensures
            final(self).wf(),
            final(self)@ == old(self)@.focus_previous(),
            cmds@ == old(self)@.refocus_commands(final(self)@),
    {
        let len = self.workspaces[self.active.workspace].windows.len();
        assert(self.workspaces[self.active.workspace as int]@ == self@.space());
        if len == 0 {
            return Vec::new();
        }
        proof {
            lemma_cycle_wf(self@);
        }
        let previous = match position(&self.workspaces[self.active.workspace].windows, self.active.window) {
            Some(ix) => {
                if ix != 0 {
                    self.workspaces[self.active.workspace].windows[ix - 1]
                } else {
                    self.workspaces[self.active.workspace].windows[len - 1]
                }
            },
            None => self.workspaces[self.active.workspace].windows[0],
        };
        self.active.window = previous;
        assert(self@.workspaces =~= old(self)@.workspaces);
        self.retile()
    }

    /// Hides the windows of the active workspace, makes workspace `no` the
    /// active one and retiles. The active window stays as it is.
    pub fn set_workspace(&mut self, no: usize) -> (cmds: Vec<Command>)
        requires
            old(self).wf(),
            no < old(self).workspaces.len(),
        ensures
            final(self).wf(),
            final(self)@ == old(self)@.set_workspace(no),
            cmds@ == old(self)@.set_workspace_commands(no),
    {
        let mut out: Vec<Command> = Vec::new();
        let mut i: usize = 0;
        assert(self.workspaces[self.active.workspace as int]@ == self@.space());
        while i < self.workspaces[self.active.workspace].windows.len()
            invariant
                *self == *old(self),
                self.wf(),
                i <= self.workspaces[self.active.workspace as int].windows.len(),
                out@ == flat_map(
                    self.workspaces[self.active.workspace as int].windows@.take(i as int),
                    Model::hiding(),
                ),
            decreases self.workspaces[self.active.workspace as int].windows.len() - i,
        {
            proof {
                lemma_flat_map_step(
                    self.workspaces[self.active.workspace as int].windows@,
                    Model::hiding(),
                    i as int,
                );
            }
            out.push(Command::Unmap(self.workspaces[self.active.workspace].windows[i]));
            i += 1;
        }
        assert(self.workspaces[self.active.workspace as int].windows@.take(i as int)
            =~= self.workspaces[self.active.workspace as int].windows@);
        proof {
            lemma_set_workspace_wf(self@, no);
        }
        self.active.workspace = no;
        assert(self@.workspaces =~= old(self)@.workspaces);
        let mut tiles = self.retile();
        out.append(&mut tiles);
        out
    }

    /// Switches to the workspace after the active one.
    pub fn next_workspace(&mut self) -> (cmds: Vec<Command>)
        requires
            old(self).wf(),
        ensures
            final(self).wf(),
            final(self)@ == old(self)@.set_workspace(old(self)@.next_workspace_index()),
            cmds@ == old(self)@.set_workspace_commands(old(self)@.next_workspace_index()),
    {
        let no = (self.active.workspace + 1) % self.workspaces.len();
        self.set_workspace(no)
    }

    /// Switches to the workspace before the active one.
    pub fn prev_workspace(&mut self) -> (cmds: Vec<Command>)
        requires
            old(self).wf(),
        ensures
            final(self).wf(),
            final(self)@ == old(self)@.set_workspace(old(self)@.prev_workspace_index()),
            cmds@ == old(self)@.set_workspace_commands(old(self)@.prev_workspace_index()),
    {
        let mut new_no: usize = self.workspaces.len() - 1;
        if self.active.workspace != 0 {
            new_no = self.active.workspace - 1;
        }
        self.set_workspace(new_no)
    }

    /// Switches to workspace `workspace_no`; nothing happens where there
    /// is none.
    pub fn goto_workspace(&mut self, workspace_no: usize) -> (cmds: Vec<Command>)
        requires
            old(self).wf(),
        ensures
            final(self).wf(),
            final(self)@ == old(self)@.goto_workspace(workspace_no),
            cmds@ == old(self)@.goto_workspace_commands(workspace_no),
    {
        if workspace_no >= self.workspaces.len() {
            return Vec::new();
        }
        self.set_workspace(workspace_no)
    }

    /// Sends the active window to workspace `workspace_no`, leaves no
    /// window active, and retiles. Nothing happens where there is no
    /// such workspace or no managed window is active.
    pub fn send_active_window_to_workspace(&mut self, workspace_no: usize) -> (cmds: Vec<Command>)
        requires
            old(self).wf(),
        ensures
            final(self).wf(),
            final(self)@ == old(self)@.send_active_window_to_workspace(workspace_no),
            cmds@ == old(self)@.send_commands(workspace_no),
            old(self)@.can_send(workspace_no) ==> final(self).active.window == NO_WINDOW,
    {
        let window = self.active.window;
        if workspace_no >= self.workspaces.len() || !self.window_exists(window) {
            return Vec::new();
        }
        self.move_window_to_workspace(window, workspace_no);
        let mut out: Vec<Command> = Vec::new();
        out.push(Command::Unmap(window));
        assert(out@ =~= seq![Command::Unmap(window)]);
        let mut tiles = self.retile();
        out.append(&mut tiles);
        out
    }

    /// Forgets `window`: takes it off the model and, where it was the
    /// active window, moves the focus on as `focus_next` does from no
    /// window.
    pub fn forget(&mut self, window: Window)
        requires
            old(self).wf(),
        ensures
            final(self).wf(),
            final(self)@ == old(self)@.forget(window),
    {
        let was_active = self.active.window == window;
        proof {
            lemma_forget_wf(self@, window);
        }
        self.remove_window(window);
        if was_active {
            let ghost mid = self@;
            let len = self.workspaces[self.active.workspace].windows.len();
            assert(self.workspaces[self.active.workspace as int]@ == self@.space());
            if len > 0 {
                let found = position(&self.workspaces[self.active.workspace].windows, self.active.window);
                let next = match found {
                    Some(ix) => self.workspaces[self.active.workspace].windows[(ix + 1) % len],
                    None => self.workspaces[self.active.workspace].windows[len - 1],
                };
                self.active.window = next;
                assert(self@.workspaces =~= mid.workspaces);
            }
        }
    }

    /// Closes the active window: forgets it, retiles, and ends its
    /// client. Nothing happens where no managed window is active.
    pub fn close_active(&mut self) -> (cmds: Vec<Command>)
        requires
            old(self).wf(),
        ensures
            final(self).wf(),
            final(self)@ == old(self)@.close_active(),
            cmds@ == old(self)@.close_commands(),
    {
        let window = self.active.window;
        if !self.window_exists(window) {
            return Vec::new();
        }
        self.forget(window);
        let mut out = self.retile();
        out.push(Command::Kill(window));
        out
    }
}

} // verus!
