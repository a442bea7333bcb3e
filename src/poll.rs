//! Polling for a broadcast transaction to land on chain.
use vstd::prelude::*;
use crate::text::{chars_of, contains, contains_chars};

verus! {

/// Seconds to wait after a "not found" answer before asking again.
pub const POLL_DELAY_SECONDS: u64 = 2;

/// The text by which some nodes report a missing transaction in place of a
/// not-found status.
pub open spec fn not_found_text() -> Seq<char> {
    "not found"@
}

/// An error means "not yet there" when its status says so, or when its
/// message holds "not found".
pub fn is_not_found(status_is_not_found: bool, message: &str) -> (r: bool)
    ensures
        r == (status_is_not_found || contains(message@, not_found_text())),
{
    if status_is_not_found {
        return true;
    }
    let s = chars_of(message);
    let p = chars_of("not found");
    contains_chars(&s, &p)
}

/// What the poller does next.
#[derive(Clone, Copy, Debug, PartialEq, Eq, Structural)]
pub enum PollAction {
    /// Ask the node for the transaction now.
    Query,
    /// Wait `POLL_DELAY_SECONDS`, then ask again.
    SleepThenQuery,
    /// Every one of `attempts` queries found nothing.
    TimedOut { attempts: usize },
    /// The last error was not a "not found": give up with it.
    Fail,
}

/// Progress of the wait for one transaction.
#[derive(Clone, Copy, Debug)]
pub struct FinalityPoll {
    /// The query budget.
    pub attempts: usize,
    /// The queries made so far.
    pub made: usize,
}

impl FinalityPoll {
    pub open spec fn wf(self) -> bool {
        self.made <= self.attempts
    }

    /// Starts a wait with a budget of `attempts` queries: the first query
    /// goes out at once, unless the budget is zero.
    pub fn begin(attempts: usize) -> (r: (FinalityPoll, PollAction))
        ensures
            r.0.wf(),
            r.0.attempts == attempts,
            attempts == 0 ==> r.0.made == 0 && r.1 == (PollAction::TimedOut { attempts }),
            attempts > 0 ==> r.0.made == 1 && r.1 == PollAction::Query,
    {
        if attempts == 0 {
            (FinalityPoll { attempts, made: 0 }, PollAction::TimedOut { attempts })
        } else {
            (FinalityPoll { attempts, made: 1 }, PollAction::Query)
        }
    }

    /// The last query failed with an error whose status is or is not
    /// "not found", and whose message is `message`. A "not found" leads to
    /// another query after the delay while the budget lasts, and to a
    /// timeout once it is spent; any other error ends the wait.
    pub fn on_error(&mut self, status_is_not_found: bool, message: &str) -> (r: PollAction)
        requires
            old(self).wf(),
        ensures
            final(self).wf(),
            final(self).attempts == old(self).attempts,
            !(status_is_not_found || contains(message@, not_found_text())) ==> r == PollAction::Fail
                && final(self).made == old(self).made,
            (status_is_not_found || contains(message@, not_found_text())) && old(self).made < old(
                self,
            ).attempts ==> r == PollAction::SleepThenQuery && final(self).made == old(self).made + 1,
            (status_is_not_found || contains(message@, not_found_text())) && old(self).made == old(
                self,
            ).attempts ==> r == (PollAction::TimedOut { attempts: old(self).attempts })
                && final(self).made == old(self).made,
    {
        if !is_not_found(status_is_not_found, message) {
            return PollAction::Fail;
        }
        if self.made < self.attempts {
            self.made = self.made + 1;
            PollAction::SleepThenQuery
        } else {
            PollAction::TimedOut { attempts: self.attempts }
        }
    }
}

} // verus!
