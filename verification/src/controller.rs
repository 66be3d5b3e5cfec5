//! The selection state machine: applies decoded key events to the list
//! model, reports whether the interaction is still running, confirmed or
//! cancelled, and records the outcome of the external commit action.

use vstd::prelude::*;
use crate::keys::KeyEvent;
use crate::model::App;
use crate::model::nav_up;
use crate::model::nav_down;

verus! {

/// The controller's phase after an event has been applied.
#[derive(Clone, Copy, Debug, PartialEq, Eq, Structural)]
pub enum Phase {
    Running,
    Confirmed,
    Cancelled,
}

/// The candidate sequence after a successful commit: the chosen item moved
/// to the front, every other item kept in order.
pub open spec fn front_moved(pre: Seq<String>, sel: int) -> Seq<String> {
    pre.remove(sel).insert(0, pre[sel])
}

impl App {
    /// Applies one decoded key event. Navigation events move the selection
    /// and keep the interaction running; `Confirm` and `Cancel` end it, and
    /// neither they nor `Ignore` touch the model.
    pub fn handle_event(&mut self, ev: KeyEvent) -> (ph: Phase)
        requires
            old(self).wf(),
        ensures
            final(self).wf(),
            final(self).branches@ == old(self).branches@,
            final(self).current_branch == old(self).current_branch,
            final(self).window == old(self).window,
            ev == KeyEvent::NavigateUp ==> final(self).nav() == nav_up(old(self).nav())
                && ph == Phase::Running,
            ev == KeyEvent::NavigateDown ==> final(self).nav() == nav_down(old(self).nav())
                && ph == Phase::Running,
            ev == KeyEvent::Confirm ==> *final(self) == *old(self) && ph == Phase::Confirmed,
            ev == KeyEvent::Cancel ==> *final(self) == *old(self) && ph == Phase::Cancelled,
            ev == KeyEvent::Ignore ==> *final(self) == *old(self) && ph == Phase::Running,
    {
        match ev {
            KeyEvent::NavigateUp => {
                self.handle_up();
                Phase::Running
            },
            KeyEvent::NavigateDown => {
                self.handle_down();
                Phase::Running
            },
            KeyEvent::Confirm => Phase::Confirmed,
            KeyEvent::Cancel => Phase::Cancelled,
            KeyEvent::Ignore => Phase::Running,
        }
    }

    /// Records the outcome of the external commit action on the confirmed
    /// selection. On success the chosen item moves to the front of the list
    /// (most-recently-used order) and the selection returns to the top; on
    /// failure the model is left exactly as it was.
    pub fn commit_result(&mut self, success: bool)
        requires
            old(self).wf(),
        ensures
            final(self).wf(),
            !success ==> *final(self) == *old(self),
            success ==> final(self).branches@ == front_moved(
                old(self).branches@,
                old(self).selected as int,
            ),
            success ==> final(self).current_branch == old(self).current_branch
                && final(self).window == old(self).window
                && final(self).selected == 0
                && final(self).offset == 0,
    {
        if success {
            let chosen = self.branches.remove(self.selected);
            self.branches.insert(0, chosen);
            self.selected = 0;
            self.offset = 0;
        }
    }
}

} // verus!
