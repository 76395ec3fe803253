//! The life of a URB between the calls that submit, reap and discard it.

use vstd::prelude::*;
use crate::error::errno_code;
use crate::error::errno_is_try_again;
use crate::error::errno_number;
use crate::error::errno_says_try_again;
use crate::error::errno_text;
use crate::error::Error;
use crate::error::Result;

verus! {

/// Where a URB stands.
///
/// While a URB is `Pending` the kernel owns the request, and may write into the
/// URB's buffer at any time: the buffer has to stay where it is.
#[derive(Clone, Copy, Debug, PartialEq, Eq, Structural)]
pub enum UrbState {
    /// Filled in, not yet handed to the kernel.
    Built,
    /// Handed to the kernel, not yet reaped.
    Pending,
    /// Reaped: the kernel has finished with the request.
    Completed,
    /// Discarded on request. What the buffer holds cannot be relied on.
    Discarded,
}

/// What a successful call on a URB reports.
#[derive(Clone, Copy, Debug, PartialEq, Eq, Structural)]
pub enum UrbEvent {
    /// The kernel took the request.
    Submitted,
    /// The kernel handed the finished request back.
    Reaped,
    /// A reap without delay found nothing ready.
    NotReady,
    /// The kernel took the request to discard.
    Discarded,
}

impl UrbState {
    /// The state after `event`, and nothing where the event cannot happen in this
    /// state.
    pub open spec fn spec_next(self, event: UrbEvent) -> Option<UrbState> {
        match (self, event) {
            (UrbState::Built, UrbEvent::Submitted) => Some(UrbState::Pending),
            (UrbState::Pending, UrbEvent::Reaped) => Some(UrbState::Completed),
            (UrbState::Pending, UrbEvent::NotReady) => Some(UrbState::Pending),
            (UrbState::Pending, UrbEvent::Discarded) => Some(UrbState::Discarded),
            _ => None,
        }
    }

    /// Whether the kernel owns the request.
    pub open spec fn spec_is_pending(self) -> bool {
        self == UrbState::Pending
    }

    /// Whether nothing more can happen to the URB.
    pub open spec fn spec_is_final(self) -> bool {
        self == UrbState::Completed || self == UrbState::Discarded
    }

    /// Creates the state of a URB that was not yet submitted.
    pub fn new() -> (state: Self)
        ensures
            state == UrbState::Built,
    {
        UrbState::Built
    }

    /// Gives the state after `event`, and nothing where the event cannot happen in
    /// this state.
    #[verifier::when_used_as_spec(spec_next)]
    pub fn next(self, event: UrbEvent) -> (state: Option<UrbState>)
        ensures
            state == self.spec_next(event),
    {
        match (self, event) {
            (UrbState::Built, UrbEvent::Submitted) => Some(UrbState::Pending),
            (UrbState::Pending, UrbEvent::Reaped) => Some(UrbState::Completed),
            (UrbState::Pending, UrbEvent::NotReady) => Some(UrbState::Pending),
            (UrbState::Pending, UrbEvent::Discarded) => Some(UrbState::Discarded),
            _ => None,
        }
    }

    /// Tells whether the kernel owns the request.
    #[verifier::when_used_as_spec(spec_is_pending)]
    pub fn is_pending(self) -> (pending: bool)
        ensures
            pending == self.spec_is_pending(),
    {
        match self {
            UrbState::Pending => true,
            _ => false,
        }
    }

    /// Tells whether nothing more can happen to the URB.
    #[verifier::when_used_as_spec(spec_is_final)]
    pub fn is_final(self) -> (done: bool)
        ensures
            done == self.spec_is_final(),
    {
        match self {
            UrbState::Completed => true,
            UrbState::Discarded => true,
            _ => false,
        }
    }

    /// Nothing happens to a URB in a final state, and something can happen in every
    /// other state.
    pub proof fn lemma_final_is_stuck(state: UrbState)
        ensures
            state.spec_is_final() <==> forall|event: UrbEvent| state.spec_next(event) is None,
    {
        if !state.spec_is_final() {
            if state == UrbState::Built {
                assert(state.spec_next(UrbEvent::Submitted) is Some);
            } else {
                assert(state.spec_next(UrbEvent::NotReady) is Some);
            }
        }
    }

    /// A reap that finds nothing ready changes nothing, and no other event leaves a
    /// state as it is.
    pub proof fn lemma_only_not_ready_stays(state: UrbState, event: UrbEvent)
        ensures
            state.spec_next(event) == Some(state) <==> state == UrbState::Pending && event
                == UrbEvent::NotReady,
    {
    }

    /// The kernel owns the request from a submit on, and until a reap or a discard
    /// succeeds.
    pub proof fn lemma_pending_window(state: UrbState, event: UrbEvent)
        ensures
            state.spec_next(event) == Some(UrbState::Pending) <==> (state == UrbState::Built
                && event == UrbEvent::Submitted) || (state == UrbState::Pending && event
                == UrbEvent::NotReady),
            state.spec_next(event) matches Some(after) && after.spec_is_final() ==> state
                == UrbState::Pending,
    {
    }
}

impl Default for UrbState {
    fn default() -> (state: Self)
        ensures
            state == UrbState::Built,
    {
        UrbState::Built
    }
}

/// The answer of a reap without delay, as plain values.
#[derive(Clone, Copy, Debug, PartialEq, Eq, Structural)]
pub enum ReapAnswer {
    /// The call succeeded.
    Reaped,
    /// The kernel said that nothing is ready yet.
    TryAgain,
    /// The call failed with this error number.
    Failed(i32),
}

/// Reads the answer of a reap without delay: a success, the kernel's "nothing is
/// ready yet", or a failure with its error number.
pub fn reap_answer(answer: std::result::Result<i32, nix::errno::Errno>) -> (read: ReapAnswer)
    ensures
        answer is Ok <==> read == ReapAnswer::Reaped,
        answer matches Err(err) ==> read == (if errno_says_try_again(err) {
            ReapAnswer::TryAgain
        } else {
            ReapAnswer::Failed(errno_number(err))
        }),
{
    match answer {
        Ok(_) => ReapAnswer::Reaped,
        Err(err) => {
            if errno_is_try_again(err) {
                ReapAnswer::TryAgain
            } else {
                ReapAnswer::Failed(errno_code(err))
            }
        },
    }
}

/// Gives the event that a reap without delay reports. That nothing is ready yet is
/// an event and no error: the caller asks again later.
pub fn reap_event(answer: ReapAnswer) -> (event: Result<UrbEvent>)
    ensures
        answer == ReapAnswer::Reaped ==> event == Ok::<UrbEvent, Error>(UrbEvent::Reaped),
        answer == ReapAnswer::TryAgain ==> event == Ok::<UrbEvent, Error>(UrbEvent::NotReady),
        answer matches ReapAnswer::Failed(code) ==> event matches Err(error) && error@
            == errno_text(code),
{
    match answer {
        ReapAnswer::Reaped => Ok(UrbEvent::Reaped),
        ReapAnswer::TryAgain => Ok(UrbEvent::NotReady),
        ReapAnswer::Failed(code) => Err(Error::from_errno_code(code)),
    }
}

} // verus!
