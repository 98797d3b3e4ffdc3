//! The invariants, tested at run time: for a state that was put together
//! by hand rather than by the engine's own operations.

use vstd::prelude::*;
use std::collections::HashSet;
use vstd::std_specs::hash::spec_hash_keys_iter;
use vstd::std_specs::iter::IteratorSpec;
use crate::geometry::Window;
use crate::model::{Model, NO_WINDOW};
use crate::seqs::{first_index, lemma_first_index, position};
use crate::state::{Space, State};

verus! {

broadcast use vstd::std_specs::hash::group_hash_axioms;

/// What a hash set holds is finite.
pub proof fn lemma_view_finite(set: &HashSet<Window>)
    ensures
        set@.finite(),
{
    let keys = spec_hash_keys_iter(set).remaining();
    vstd::seq_lib::seq_to_set_is_finite(keys.unref());
}

/// Whether no handle stands twice in `v`.
pub fn no_duplicates(v: &Vec<Window>) -> (ok: bool)
    ensures
        ok == v@.no_duplicates(),
{
    let mut i: usize = 0;
    while i < v.len()
        invariant
            i <= v.len(),
            forall|a: int, b: int| 0 <= a < b < i ==> v[a] != v[b],
        decreases v.len() - i,
    {
        let first = position(v, v[i]);
        proof {
            lemma_first_index(v@, v@[i as int], 0);
            assert(v@.contains(v@[i as int]));
        }
        let alone = match first {
            Some(k) => k == i,
            None => false,
        };
        if !alone {
            assert(v@[first.unwrap() as int] == v@[i as int]);
            return false;
        }
        i += 1;
    }
    true
}

/// Whether every handle of `set` stands in `v`, a list without
/// duplicates.
pub fn within(set: &HashSet<Window>, v: &Vec<Window>) -> (ok: bool)
    requires
        v@.no_duplicates(),
    ensures
        ok == set@.subset_of(v@.to_set()),
{
    proof {
        lemma_view_finite(set);
    }
    let mut count: usize = 0;
    let ghost mut seen: Set<Window> = Set::empty();
    let mut i: usize = 0;
    while i < v.len()
        invariant
            i <= v.len(),
            count <= i,
            v@.no_duplicates(),
            seen.finite(),
            seen.len() == count,
            forall|x: Window| seen.contains(x) <==> set@.contains(x) && v@.take(i as int).contains(x),
        decreases v.len() - i,
    {
        let w = v[i];
        proof {
            let before = v@.take(i as int);
            let after = v@.take(i + 1);
            assert(!before.contains(w)) by {
                if before.contains(w) {
                    let k = choose|k: int| 0 <= k < before.len() && before[k] == w;
                    assert(v@[k] == v@[i as int]);
                }
            }
            assert forall|x: Window| after.contains(x) <==> before.contains(x) || x == w by {
                if after.contains(x) {
                    let k = choose|k: int| 0 <= k < after.len() && after[k] == x;
                    if k < i {
                        assert(before[k] == x);
                    }
                }
                if before.contains(x) {
                    let k = choose|k: int| 0 <= k < before.len() && before[k] == x;
                    assert(after[k] == x);
                }
                if x == w {
                    assert(after[i as int] == x);
                }
            }
        }
        if set.contains(&w) {
            proof {
                seen = seen.insert(w);
            }
            count += 1;
        }
        i += 1;
    }
    assert(v@.take(i as int) =~= v@);
    let ok = count == set.len();
    proof {
        assert(seen.subset_of(set@));
        if ok {
            vstd::set_lib::lemma_subset_equality(seen, set@);
            assert forall|x: Window| set@.contains(x) implies v@.to_set().contains(x) by {
                assert(seen.contains(x));
            }
        } else if set@.subset_of(v@.to_set()) {
            assert(seen =~= set@);
        }
    }
    ok
}

impl Space {
    /// Whether the workspace is well formed for the range `lo..=hi` of
    /// split positions.
    pub fn audit(&self, lo: u32, hi: u32) -> (ok: bool)
        ensures
            ok == self@.wf(lo, hi),
    {
        if !no_duplicates(&self.windows) {
            return false;
        }
        match &self.custom {
            Some(c) => lo <= c.separator && c.separator <= hi && within(&c.floating_windows, &self.windows)
                && within(&c.fullscreen_windows, &self.windows),
            None => true,
        }
    }
}

impl Model {
    /// The first workspace at or after `from` that lists `w`, or the
    /// number of workspaces where there is none.
    pub open spec fn owner(self, w: Window, from: int) -> int
        decreases self.workspaces.len() - from,
    {
        if from < 0 || from >= self.workspaces.len() {
            self.workspaces.len() as int
        } else if self.workspaces[from].windows.contains(w) {
            from
        } else {
            self.owner(w, from + 1)
        }
    }
}

/// What `owner` finds is the first workspace that lists the window, and
/// it finds one wherever there is one.
pub proof fn lemma_owner(m: Model, w: Window, from: int)
    requires
        0 <= from <= m.workspaces.len(),
    ensures
        from <= m.owner(w, from) <= m.workspaces.len(),
        m.owner(w, from) < m.workspaces.len() ==> m.holds(m.owner(w, from), w),
        forall|j: int| from <= j < m.owner(w, from) ==> !m.holds(j, w),
    decreases m.workspaces.len() - from,
{
    if from < m.workspaces.len() && !m.workspaces[from].windows.contains(w) {
        lemma_owner(m, w, from + 1);
    }
}

impl State {
    /// The first workspace that lists `window`, if there is one.
    pub fn owner(&self, window: Window) -> (r: Option<usize>)
        ensures
            match r {
                Some(i) => i < self.workspaces.len() && i == self@.owner(window, 0),
                None => self@.owner(window, 0) == self.workspaces.len(),
            },
    {
        let mut i: usize = 0;
        while i < self.workspaces.len()
            invariant
                i <= self.workspaces.len(),
                self@.owner(window, 0) == self@.owner(window, i as int),
            decreases self.workspaces.len() - i,
        {
            if position(&self.workspaces[i].windows, window).is_some() {
                return Some(i);
            }
            i += 1;
        }
        None
    }

    /// Whether the invariants hold of this state. They hold of every
    /// state that `State::new` made and the engine's operations changed;
    /// this is the test for any other.
    pub fn audit(&self) -> (ok: bool)
        ensures
            ok == self.wf(),
    {
        let n = self.workspaces.len();
        if n == 0 || self.active.workspace >= n || self.separator_min > self.separator_max {
            return false;
        }
        let mut i: usize = 0;
        while i < n
            invariant
                i <= n,
                n == self.workspaces.len(),
                forall|p: int| 0 <= p < i ==> (#[trigger] self@.workspaces[p]).wf(self.separator_min, self.separator_max),
                forall|p: int, w: Window| 0 <= p < i && #[trigger] self@.holds(p, w) ==> self@.owner(w, 0) == p,
            decreases n - i,
        {
            if !self.workspaces[i].audit(self.separator_min, self.separator_max) {
                assert(!self@.workspaces[i as int].wf(self.separator_min, self.separator_max));
                return false;
            }
            let mut a: usize = 0;
            while a < self.workspaces[i].windows.len()
                invariant
                    i < n,
                    n == self.workspaces.len(),
                    a <= self.workspaces[i as int].windows.len(),
                    forall|k: int| 0 <= k < a ==> self@.owner(#[trigger] self.workspaces[i as int].windows[k], 0) == i,
                decreases self.workspaces[i as int].windows.len() - a,
            {
                let w = self.workspaces[i].windows[a];
                let first = self.owner(w);
                proof {
                    lemma_owner(self@, w, 0);
                    assert(self@.workspaces[i as int].windows[a as int] == w);
                    assert(self@.holds(i as int, w));
                }
                let here = match first {
                    Some(k) => k == i,
                    None => false,
                };
                if !here {
                    assert(self@.holds(self@.owner(w, 0), w));
                    return false;
                }
                a += 1;
            }
            assert forall|w: Window| #[trigger] self@.holds(i as int, w) implies self@.owner(w, 0) == i by {
                let s = self.workspaces[i as int].windows@;
                let k = choose|k: int| 0 <= k < s.len() && s[k] == w;
                assert(self@.owner(self.workspaces[i as int].windows[k], 0) == i);
            }
            i += 1;
        }
        let focused = self.active.window == NO_WINDOW || self.active.window == self.root || self.window_exists(
            self.active.window,
        );
        proof {
            assert forall|p: int, q: int, w: Window|
                #![trigger self@.holds(p, w), self@.holds(q, w)]
                self@.holds(p, w) && self@.holds(q, w) implies p == q by {
                assert(self@.owner(w, 0) == p);
                assert(self@.owner(w, 0) == q);
            }
        }
        focused
    }
}

} // verus!
