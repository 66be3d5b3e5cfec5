//! The scrollable list model: the candidate sequence, the selection index,
//! the scroll offset, and the active-item marker.
//!
//! The navigation arithmetic is abstracted into a ghost `NavState`, so that
//! the scrolling invariants can be stated and proved once, over the pure
//! model, and then carried by every executable mutation.

use vstd::prelude::*;
use crate::MAX_BRANCHES;
use crate::NO_OF_VISIBLE_BRANCHES;

verus! {

/// The pure navigation state: list length, window size, selection index and
/// scroll offset, with the strings abstracted away.
pub ghost struct NavState {
    pub len: int,
    pub window: int,
    pub sel: int,
    pub off: int,
}

/// The scrolling invariants: the selection is in bounds, and the visible
/// window `[off, off + window)` contains the selection and stays inside the
/// list whenever the list is at least one window long; a shorter list is
/// shown whole, with the offset pinned at zero.
pub open spec fn nav_wf(s: NavState) -> bool {
    &&& 1 <= s.window
    &&& 1 <= s.len <= MAX_BRANCHES
    &&& 0 <= s.sel < s.len
    &&& if s.len >= s.window {
        &&& 0 <= s.off <= s.sel
        &&& s.sel < s.off + s.window
        &&& s.off + s.window <= s.len
    } else {
        s.off == 0
    }
}

/// One step up: the selection moves up by one, clamped at the top; the
/// window follows when the selection would leave it.
pub open spec fn nav_up(s: NavState) -> NavState {
    let sel2 = if s.sel > 0 { s.sel - 1 } else { s.sel };
    let off2 = if s.off > sel2 { s.off - 1 } else { s.off };
    NavState { sel: sel2, off: off2, ..s }
}

/// One step down: the selection moves down by one, clamped at the bottom;
/// the window follows when the selection would leave it.
pub open spec fn nav_down(s: NavState) -> NavState {
    let sel2 = if s.sel + 1 < s.len { s.sel + 1 } else { s.sel };
    let off2 = if s.off + s.window <= sel2 { s.off + 1 } else { s.off };
    NavState { sel: sel2, off: off2, ..s }
}

pub proof fn lemma_nav_up_wf(s: NavState)
    requires
        nav_wf(s),
    ensures
        nav_wf(nav_up(s)),
{
}

pub proof fn lemma_nav_down_wf(s: NavState)
    requires
        nav_wf(s),
    ensures
        nav_wf(nav_down(s)),
{
}

/// A single move, `true` for down and `false` for up.
pub open spec fn nav_step(s: NavState, down: bool) -> NavState {
    if down {
        nav_down(s)
    } else {
        nav_up(s)
    }
}

/// A whole sequence of moves, applied in order.
pub open spec fn nav_run(s: NavState, moves: Seq<bool>) -> NavState
    decreases moves.len(),
{
    if moves.len() == 0 {
        s
    } else {
        nav_run(nav_step(s, moves[0]), moves.drop_first())
    }
}

/// Law: the scrolling invariants hold after every sequence of navigation
/// moves, for any list length and any window size the invariants admit.
/// Since every intermediate state is `nav_run` of a prefix, the invariants
/// hold after every single event as well.
pub proof fn lemma_nav_run_wf(s: NavState, moves: Seq<bool>)
    requires
        nav_wf(s),
    ensures
        nav_wf(nav_run(s, moves)),
    decreases moves.len(),
{
    if moves.len() > 0 {
        if moves[0] {
            lemma_nav_down_wf(s);
        } else {
            lemma_nav_up_wf(s);
        }
        lemma_nav_run_wf(nav_step(s, moves[0]), moves.drop_first());
    }
}

/// Law: a move up while the first item is selected changes nothing.
pub proof fn lemma_up_at_top_is_noop(s: NavState)
    requires
        nav_wf(s),
        s.sel == 0,
    ensures
        nav_up(s) == s,
{
}

/// Law: a move down while the last item is selected changes nothing.
pub proof fn lemma_down_at_bottom_is_noop(s: NavState)
    requires
        nav_wf(s),
        s.sel == s.len - 1,
    ensures
        nav_down(s) == s,
{
}

/// The list model: candidate names, the active-item marker, the selection
/// index, the scroll offset, and the window size.
pub struct App {
    pub branches: Vec<String>,
    pub current_branch: String,
    pub selected: usize,
    pub offset: usize,
    pub window: usize,
}

impl App {
    /// The navigation abstraction of this model.
    pub open spec fn nav(self) -> NavState {
        NavState {
            len: self.branches@.len() as int,
            window: self.window as int,
            sel: self.selected as int,
            off: self.offset as int,
        }
    }

    /// Well-formedness: the scrolling invariants of `nav_wf`.
    pub open spec fn wf(self) -> bool {
        nav_wf(self.nav())
    }

    /// First index past the visible window, clipped to the list's end.
    pub open spec fn window_end(self) -> int {
        if self.offset + self.window <= self.branches@.len() {
            self.offset + self.window
        } else {
            self.branches@.len() as int
        }
    }

    /// Builds a model over a non-empty candidate list, selecting the first
    /// item, with the window size fixed by configuration.
    pub fn new(branches: Vec<String>, current_branch: String) -> (app: App)
        requires
            1 <= branches@.len() <= MAX_BRANCHES,
        ensures
            app.branches@ == branches@,
            app.current_branch == current_branch,
            app.selected == 0,
            app.offset == 0,
            app.window == NO_OF_VISIBLE_BRANCHES,
            app.wf(),
    {
        App { branches, current_branch, selected: 0, offset: 0, window: NO_OF_VISIBLE_BRANCHES }
    }

    /// Builds a model as `new` does, but over a caller-chosen window size.
    pub fn with_window(branches: Vec<String>, current_branch: String, window: usize) -> (app: App)
        requires
            1 <= branches@.len() <= MAX_BRANCHES,
            window >= 1,
        ensures
            app.branches@ == branches@,
            app.current_branch == current_branch,
            app.selected == 0,
            app.offset == 0,
            app.window == window,
            app.wf(),
    {
        App { branches, current_branch, selected: 0, offset: 0, window }
    }

    /// Moves the selection one item up, clamped at the top; scrolls the
    /// window up when the selection would leave it.
    pub fn handle_up(&mut self)
        requires
            old(self).wf(),
        ensures
            final(self).wf(),
            final(self).nav() == nav_up(old(self).nav()),
            final(self).branches@ == old(self).branches@,
            final(self).current_branch == old(self).current_branch,
            final(self).window == old(self).window,
    {
        if self.selected > 0 {
            self.selected = self.selected - 1;
        }
        if self.offset > self.selected {
            self.offset = self.offset - 1;
        }
    }

    /// Moves the selection one item down, clamped at the bottom; scrolls the
    /// window down when the selection would leave it.
    pub fn handle_down(&mut self)
        requires
            old(self).wf(),
        ensures
            final(self).wf(),
            final(self).nav() == nav_down(old(self).nav()),
            final(self).branches@ == old(self).branches@,
            final(self).current_branch == old(self).current_branch,
            final(self).window == old(self).window,
    {
        if self.selected + 1 < self.branches.len() {
            self.selected = self.selected + 1;
        }
        if self.offset + self.window - 1 < self.selected {
            self.offset = self.offset + 1;
        }
    }

    /// True exactly when items are scrolled off above the window.
    pub fn has_more_above(&self) -> (r: bool)
        requires
            self.wf(),
        ensures
            r == (self.offset > 0),
    {
        self.offset > 0
    }

    /// True exactly when items are scrolled off below the window.
    pub fn has_more_below(&self) -> (r: bool)
        requires
            self.wf(),
        ensures
            r == (self.offset + self.window < self.branches@.len()),
    {
        self.offset + self.window < self.branches.len()
    }

    /// The candidates inside the visible window, in list order.
    pub fn visible_slice(&self) -> (vis: Vec<String>)
        requires
            self.wf(),
        ensures
            vis@.len() == self.window_end() - self.offset,
            forall|i: int| 0 <= i < vis@.len() ==> vis@[i] == self.branches@[self.offset + i],
    {
        let end: usize = if self.offset + self.window <= self.branches.len() {
            self.offset + self.window
        } else {
            self.branches.len()
        };
        let mut vis: Vec<String> = Vec::new();
        let mut i: usize = self.offset;
        while i < end
            invariant
                self.offset <= i <= end,
                end == self.window_end(),
                end <= self.branches@.len(),
                vis@.len() == i - self.offset,
                forall|j: int| 0 <= j < vis@.len() ==> vis@[j] == self.branches@[self.offset + j],
            decreases end - i,
        {
            vis.push(self.branches[i].clone());
            i = i + 1;
        }
        vis
    }

    /// The candidate the selection rests on.
    pub fn selected_branch(&self) -> (b: String)
        requires
            self.wf(),
        ensures
            b == self.branches@[self.selected as int],
    {
        self.branches[self.selected].clone()
    }
}

} // verus!
