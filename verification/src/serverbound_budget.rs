//! Per-connection serverbound packet budget: the tally of frames over budget and
//! the disconnection they bring.

use crate::outbound::saturating_successor;
use vstd::prelude::*;

verus! {

/// Why a session is ended by the server.
#[derive(Clone, Copy, Debug, PartialEq, Eq, Structural)]
pub enum DisconnectReason {
    /// The peer sent more frames than its budget allows.
    BudgetExceeded,
    /// A mandatory packet could not be queued.
    OutboundOverflow,
}

/// A per-connection tally of serverbound frames over budget.
///
/// Whether a frame is within budget is a matter of the clock and of the bucket that
/// it is charged to; the tally takes that verdict.
#[derive(Clone, Copy, Debug, PartialEq, Eq, Structural)]
pub struct ServerboundBudget {
    /// Frames found over budget; stays at the largest number.
    pub over_budget: u64,
}

impl ServerboundBudget {
    /// A tally of no frames.
    pub fn new() -> (r: ServerboundBudget)
        ensures
            r.over_budget == 0,
    {
        ServerboundBudget { over_budget: 0 }
    }

    /// Admits a frame found within budget; a frame over budget is tallied and ends
    /// the session.
    pub fn admit_frame(&mut self, within_budget: bool) -> (r: Result<(), DisconnectReason>)
        ensures
            r == if within_budget {
                Ok::<(), DisconnectReason>(())
            } else {
                Err(DisconnectReason::BudgetExceeded)
            },
            final(self).over_budget == if within_budget {
                old(self).over_budget
            } else {
                saturating_successor(old(self).over_budget)
            },
    {
        if within_budget {
            Ok(())
        } else {
            self.over_budget = self.over_budget.saturating_add(1);
            Err(DisconnectReason::BudgetExceeded)
        }
    }

    /// The number of serverbound frames found over budget.
    pub fn over_budget(&self) -> (r: u64)
        ensures
            r == self.over_budget,
    {
        self.over_budget
    }
}

} // verus!
