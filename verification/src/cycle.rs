//! The orchestrator's run cycle: one `Pending` update, then the build,
//! then exactly one terminal update.
//!
//! The cycle hands updates out; pushing them to the remote host is I/O and
//! stays with the caller. The phase, the two counters and the ghost history
//! of pushed states make the cycle's guarantee checkable: a cycle that has
//! not opened cannot close, an open cycle cannot open again, and a closed
//! cycle can do nothing further.

use vstd::prelude::*;
use crate::config::GlobalConfig;
use crate::config::LocalConfig;
use crate::runner::RunRecord;
use crate::status::CiError;
use crate::status::CiState;
use crate::status::StatusUpdate;
use crate::status::build_ci_status;
use crate::status::pending_update;
use crate::status::terminal_update_spec;

verus! {

/// Where one run cycle stands.
#[derive(PartialEq, Eq, Structural, Clone, Copy, Debug)]
pub enum CyclePhase {
    /// Nothing has been handed out yet.
    Ready,
    /// The `Pending` update is out; the build may run.
    Building,
    /// The terminal update is out; the cycle is over.
    Done,
}

/// One run cycle. The counters record how many updates of each kind the
/// cycle has handed out for pushing; the ghost history records their
/// states, in the order they left.
pub struct Cycle {
    pub phase: CyclePhase,
    pub pending_pushes: u64,
    pub terminal_pushes: u64,
    pub pushed: Ghost<Seq<CiState>>,
}

impl Cycle {
    /// The counters and the history follow the phase: the one `Pending`
    /// update is out from the build onwards, the one terminal update
    /// exactly when the cycle is done, and nothing else ever leaves.
    pub open spec fn wf(self) -> bool {
        &&& self.pending_pushes == (if self.phase == CyclePhase::Ready {
            0int
        } else {
            1int
        })
        &&& self.terminal_pushes == (if self.phase == CyclePhase::Done {
            1int
        } else {
            0int
        })
        &&& match self.phase {
            CyclePhase::Ready => self.pushed@ == Seq::<CiState>::empty(),
            CyclePhase::Building => self.pushed@ == seq![CiState::Pending],
            CyclePhase::Done => {
                &&& self.pushed@.len() == 2
                &&& self.pushed@[0] == CiState::Pending
                &&& self.pushed@[1].is_terminal()
            },
        }
    }

    /// A fresh cycle: nothing pushed.
    pub fn new() -> (c: Cycle)
        ensures
            c.wf(),
            c.phase == CyclePhase::Ready,
    {
        Cycle {
            phase: CyclePhase::Ready,
            pending_pushes: 0,
            terminal_pushes: 0,
            pushed: Ghost(Seq::empty()),
        }
    }

    /// Open the cycle: hand out its one `Pending` update. Only a cycle
    /// that has pushed nothing yet can open, so the `Pending` update leaves
    /// once, and before any terminal one.
    pub fn begin(&mut self) -> (u: StatusUpdate)
        requires
            old(self).wf(),
            old(self).phase == CyclePhase::Ready,
        ensures
            final(self).wf(),
            final(self).phase == CyclePhase::Building,
            final(self).pending_pushes == 1,
            final(self).terminal_pushes == 0,
            final(self).pushed@ == old(self).pushed@ + seq![u.state],
            u.state == CiState::Pending,
            u.description@ == "Running build"@,
            u.target_url is None,
    {
        self.phase = CyclePhase::Building;
        self.pending_pushes = 1;
        let u = pending_update();
        proof {
            self.pushed@ = self.pushed@ + seq![u.state];
            assert(self.pushed@ =~= seq![CiState::Pending]);
        }
        u
    }

    /// Close the cycle on the build's outcome: hand out its one terminal
    /// update. Only a cycle whose `Pending` update is out can close, and a
    /// closed cycle cannot close again.
    pub fn finish(
        &mut self,
        gconfig: &GlobalConfig,
        lconfig: &LocalConfig,
        outcome: &Result<RunRecord, CiError>,
    ) -> (u: StatusUpdate)
        requires
            old(self).wf(),
            old(self).phase == CyclePhase::Building,
        ensures
            final(self).wf(),
            final(self).phase == CyclePhase::Done,
            final(self).pending_pushes == 1,
            final(self).terminal_pushes == 1,
            final(self).pushed@ == old(self).pushed@ + seq![u.state],
            terminal_update_spec(*gconfig, *lconfig, *outcome, u),
            u.state.is_terminal(),
    {
        self.phase = CyclePhase::Done;
        self.terminal_pushes = 1;
        let u = build_ci_status(gconfig, lconfig, outcome);
        proof {
            self.pushed@ = self.pushed@ + seq![u.state];
        }
        u
    }
}

/// A completed cycle's push history is exactly one `Pending` followed by
/// exactly one terminal update: never zero and never two of either, and
/// never in the other order.
pub proof fn lemma_one_pending_one_terminal(c: Cycle)
    requires
        c.wf(),
        c.phase == CyclePhase::Done,
    ensures
        c.pending_pushes == 1,
        c.terminal_pushes == 1,
        c.pushed@.len() == 2,
        c.pushed@[0] == CiState::Pending,
        c.pushed@[1].is_terminal(),
{
}

} // verus!
