//! The bookkeeping of outgoing messages.
//!
//! Each message is sent by a task of its own, at most once. The task reports
//! how it ended; a failure is told to the user, nothing is sent again.

use vstd::prelude::*;
use vstd::string::StringExecFns;
use crate::event::{DecodedEvent, EventView};

verus! {

/// How a send task ended.
#[derive(Debug, Clone, Copy, PartialEq, Eq)]
pub enum SendOutcome {
    /// The backend took the message.
    Published,
    /// The backend could not be reached or refused the message.
    Failed,
    /// The session was shut down before the message went out.
    Abandoned,
}

/// The feedback for a message that could not be published.
pub open spec fn send_failure_text(message: Seq<char>) -> Seq<char> {
    "Message not sent: "@ + message
}

/// What the user is told when a send task ends: of a failure, that the
/// message did not go out; otherwise nothing.
pub open spec fn outcome_event(message: Seq<char>, outcome: SendOutcome) -> Option<EventView> {
    match outcome {
        SendOutcome::Failed => Some(EventView::CommandFeedback(send_failure_text(message))),
        SendOutcome::Published => None,
        SendOutcome::Abandoned => None,
    }
}

/// The number of send tasks that are left once one more has ended.
pub open spec fn one_less(outstanding: nat) -> nat {
    if outstanding > 0 {
        (outstanding - 1) as nat
    } else {
        0
    }
}

/// Computes the event, if any, that reports how a send task ended.
pub fn outcome_feedback(message: &str, outcome: SendOutcome) -> (event: Option<DecodedEvent>)
    ensures
        match event {
            Some(e) => outcome_event(message@, outcome) == Some(e@),
            None => outcome_event(message@, outcome) is None,
        },
{
    match outcome {
        SendOutcome::Failed => {
            let text = "Message not sent: ".to_owned().concat(message);
            Some(DecodedEvent::CommandFeedback(text))
        },
        SendOutcome::Published => None,
        SendOutcome::Abandoned => None,
    }
}

/// Counts the send tasks that were started and have not ended yet.
pub struct Publisher {
    outstanding: u64,
}

impl Publisher {
    /// The number of send tasks that have not ended yet.
    pub closed spec fn outstanding(&self) -> nat {
        self.outstanding as nat
    }

    /// A publisher with no task under way.
    pub fn new() -> (publisher: Self)
        ensures
            publisher.outstanding() == 0,
    {
        Publisher { outstanding: 0 }
    }

    /// The number of send tasks that have not ended yet.
    pub fn in_flight(&self) -> (n: u64)
        ensures
            n == self.outstanding(),
    {
        self.outstanding
    }

    /// Records that a send task was started.
    pub fn begin(&mut self)
        requires
            old(self).outstanding() < u64::MAX,
        ensures
            final(self).outstanding() == old(self).outstanding() + 1,
    {
        self.outstanding = self.outstanding + 1;
    }

    /// Records that a send task ended, and returns what the user is to be
    /// told of it.
    pub fn finish(&mut self, message: &str, outcome: SendOutcome) -> (event: Option<DecodedEvent>)
        ensures
            final(self).outstanding() == one_less(old(self).outstanding()),
            match event {
                Some(e) => outcome_event(message@, outcome) == Some(e@),
                None => outcome_event(message@, outcome) is None,
            },
    {
        if self.outstanding > 0 {
            self.outstanding = self.outstanding - 1;
        }
        outcome_feedback(message, outcome)
    }
}

} // verus!
