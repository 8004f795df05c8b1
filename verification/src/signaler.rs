//! The milestone signaler: a notification is registered in the event
//! group of a phase, fired at once, and released.

use crate::error::BootError;
use crate::platform::Phase;
use crate::platform::Reply;
use crate::platform::ReplyView;
use crate::platform::Request;
use crate::platform::RequestView;
use vstd::prelude::*;

verus! {

/// Where the signalling of one phase stands.
#[derive(Clone, Copy, Debug, PartialEq, Eq, Structural)]
pub enum SignalState {
    /// The registration is awaited.
    Creating,
    /// The firing is awaited.
    Firing,
    /// The release is awaited; `fired` says whether the firing
    /// succeeded.
    Closing { fired: bool },
}

/// One move of a signalling: the next state with the request that it
/// awaits the reply to, or the outcome.
#[derive(Debug, PartialEq, Eq)]
pub enum SignalStep {
    Ask(SignalState, Request),
    Finish(Result<(), BootError>),
}

/// `SignalStep` with the request as its view.
pub enum SignalStepView {
    Ask(SignalState, RequestView),
    Finish(Result<(), BootError>),
}

impl View for SignalStep {
    type V = SignalStepView;

    open spec fn view(&self) -> SignalStepView {
        match *self {
            SignalStep::Ask(state, request) => SignalStepView::Ask(state, request@),
            SignalStep::Finish(outcome) => SignalStepView::Finish(outcome),
        }
    }
}

/// The signalling of `phase` begins with its registration.
pub open spec fn start_spec(phase: Phase) -> (SignalState, RequestView) {
    (SignalState::Creating, RequestView::CreateNotification(phase))
}

/// The transition of the signalling of `phase`. Without a registration
/// there is nothing to fire or to release. With one, it is fired and
/// then released whether or not the firing succeeded, and the phase
/// counts as signalled only if both did. Only `Done` is a success.
pub open spec fn step_spec(phase: Phase, state: SignalState, reply: ReplyView) -> SignalStepView {
    match state {
        SignalState::Creating => if reply is Done {
            SignalStepView::Ask(SignalState::Firing, RequestView::FireNotification(phase))
        } else {
            SignalStepView::Finish(Err(BootError::RegistrationFailed))
        },
        SignalState::Firing => SignalStepView::Ask(
            SignalState::Closing { fired: reply is Done },
            RequestView::CloseNotification(phase),
        ),
        SignalState::Closing { fired } => if fired && reply is Done {
            SignalStepView::Finish(Ok(()))
        } else {
            SignalStepView::Finish(Err(BootError::SignalFailed))
        },
    }
}

/// Begins the signalling of `phase`.
pub fn start(phase: Phase) -> (begun: (SignalState, Request))
    ensures
        (begun.0, begun.1@) == start_spec(phase),
{
    (SignalState::Creating, Request::CreateNotification(phase))
}

/// Takes the platform's reply to the request at hand and says what
/// follows: the next request, or the outcome of the signalling.
pub fn step(phase: Phase, state: SignalState, reply: &Reply) -> (next: SignalStep)
    ensures
        next@ == step_spec(phase, state, reply@),
{
    let done = match reply {
        Reply::Done => true,
        _ => false,
    };
    match state {
        SignalState::Creating => {
            if done {
                SignalStep::Ask(SignalState::Firing, Request::FireNotification(phase))
            } else {
                SignalStep::Finish(Err(BootError::RegistrationFailed))
            }
        },
        SignalState::Firing => SignalStep::Ask(
            SignalState::Closing { fired: done },
            Request::CloseNotification(phase),
        ),
        SignalState::Closing { fired } => {
            if fired && done {
                SignalStep::Finish(Ok(()))
            } else {
                SignalStep::Finish(Err(BootError::SignalFailed))
            }
        },
    }
}

/// The signalling of a phase, from its start to its outcome: the
/// notification is registered, fired and released, in that order. It
/// is released whether or not the firing succeeded. The phase counts
/// as signalled exactly when all three succeeded; a registration that
/// fails is reported as that, with nothing fired or released, and a
/// firing or release that fails as a failure to signal.
pub proof fn theorem_signal_fires_then_releases(
    phase: Phase,
    created: ReplyView,
    fired: ReplyView,
    released: ReplyView,
)
    ensures
        start_spec(phase) == (SignalState::Creating, RequestView::CreateNotification(phase)),
        !(created is Done) ==> step_spec(phase, SignalState::Creating, created)
            == SignalStepView::Finish(Err(BootError::RegistrationFailed)),
        created is Done ==> step_spec(phase, SignalState::Creating, created) == SignalStepView::Ask(
            SignalState::Firing,
            RequestView::FireNotification(phase),
        ),
        step_spec(phase, SignalState::Firing, fired) == SignalStepView::Ask(
            SignalState::Closing { fired: fired is Done },
            RequestView::CloseNotification(phase),
        ),
        step_spec(phase, SignalState::Closing { fired: fired is Done }, released)
            == SignalStepView::Finish(
            if fired is Done && released is Done {
                Ok(())
            } else {
                Err(BootError::SignalFailed)
            },
        ),
{
}

} // verus!
