//! The orchestrator: the run from the first milestone to the hand-over,
//! one step after the other, ended by the first step that fails.

use crate::connector;
use crate::connector::ConnectStep;
use crate::connector::ConnectStepView;
use crate::connector::ConnectorState;
use crate::error::BootError;
use crate::locator;
use crate::locator::LocateStep;
use crate::locator::LocateStepView;
use crate::locator::LocatorState;
use crate::locator::LocatorView;
use crate::platform::Failure;
use crate::platform::ImageHandle;
use crate::platform::Phase;
use crate::platform::Reply;
use crate::platform::ReplyView;
use crate::platform::Request;
use crate::platform::RequestView;
use crate::platform::Step;
use crate::signaler;
use crate::signaler::SignalStep;
use crate::signaler::SignalState;
use crate::signaler::SignalStepView;
use vstd::prelude::*;

verus! {

/// How long the run lingers when the started image hands control
/// back, so that what was recorded can be read: ten seconds.
pub const LINGER_MICROSECONDS: u64 = 10_000_000;

/// How a run ended.
#[derive(Clone, Copy, Debug, PartialEq, Eq, Structural)]
pub enum Ending {
    /// A step failed.
    Aborted(Failure),
    /// The image was started and gave control back.
    Exited,
}

/// Where a run stands.
#[derive(Debug, PartialEq, Eq)]
pub enum RunState {
    /// The platform helpers are being set up.
    Initializing,
    /// A phase is being signalled.
    Signalling { phase: Phase, signal: SignalState },
    /// Drivers are being connected.
    Connecting(ConnectorState),
    /// The boot image is being searched for.
    Locating(LocatorState),
    /// The image has been handed control.
    Starting(ImageHandle),
    /// The image gave control back; the run lingers.
    Lingering,
    /// The run is over.
    Ended(Ending),
}

/// `RunState` with each device path as its bytes.
pub enum RunView {
    Initializing,
    Signalling { phase: Phase, signal: SignalState },
    Connecting(ConnectorState),
    Locating(LocatorView),
    Starting(ImageHandle),
    Lingering,
    Ended(Ending),
}

impl View for RunState {
    type V = RunView;

    open spec fn view(&self) -> RunView {
        match *self {
            RunState::Initializing => RunView::Initializing,
            RunState::Signalling { phase, signal } => RunView::Signalling { phase, signal },
            RunState::Connecting(state) => RunView::Connecting(state),
            RunState::Locating(state) => RunView::Locating(state@),
            RunState::Starting(image) => RunView::Starting(image),
            RunState::Lingering => RunView::Lingering,
            RunState::Ended(ending) => RunView::Ended(ending),
        }
    }
}

/// A run begins by setting up the platform helpers.
pub open spec fn start_spec() -> (RunView, RequestView) {
    (RunView::Initializing, RequestView::InitHelpers)
}

/// The run ends on the failure of a step.
pub open spec fn abort_spec(step: Step, error: BootError) -> (RunView, RequestView) {
    (
        RunView::Ended(Ending::Aborted(Failure { step, error })),
        RequestView::Abort(Failure { step, error }),
    )
}

/// The signalling of `phase` begins.
pub open spec fn signal_spec(phase: Phase) -> (RunView, RequestView) {
    (
        RunView::Signalling { phase, signal: signaler::start_spec(phase).0 },
        signaler::start_spec(phase).1,
    )
}

/// What follows the signalling of `phase`: drivers are connected once
/// peripherals were told to show themselves, the end of early
/// initialisation is signalled once the boot attempt was announced, and
/// only then is the boot image searched for.
pub open spec fn after_signal_spec(phase: Phase) -> (RunView, RequestView) {
    match phase {
        Phase::PeripheralDetect => (
            RunView::Connecting(connector::start_spec().0),
            connector::start_spec().1,
        ),
        Phase::ReadyToBoot => signal_spec(Phase::EndOfEarlyInit),
        Phase::EndOfEarlyInit => (
            RunView::Locating(locator::start_spec().0),
            locator::start_spec().1,
        ),
    }
}

/// The transition of a run. Each step must succeed for the next to
/// begin; the first failure ends the run, and so does a search that
/// finds no boot file. An image that gives control back is followed by
/// a pause and the end of the process. A run that has ended repeats its
/// last request.
pub open spec fn step_spec(state: RunView, reply: ReplyView) -> (RunView, RequestView) {
    match state {
        RunView::Initializing => if reply is Done {
            signal_spec(Phase::PeripheralDetect)
        } else {
            abort_spec(Step::InitPlatform, BootError::PlatformInitFailed)
        },
        RunView::Signalling { phase, signal } => match signaler::step_spec(phase, signal, reply) {
            SignalStepView::Ask(signal, request) => (RunView::Signalling { phase, signal }, request),
            SignalStepView::Finish(Ok(_)) => after_signal_spec(phase),
            SignalStepView::Finish(Err(error)) => abort_spec(Step::Signal(phase), error),
        },
        RunView::Connecting(state) => match connector::step_spec(state, reply) {
            ConnectStepView::Ask(state, request) => (RunView::Connecting(state), request),
            ConnectStepView::Finish(Ok(_)) => signal_spec(Phase::ReadyToBoot),
            ConnectStepView::Finish(Err(error)) => abort_spec(Step::ConnectDrivers, error),
        },
        RunView::Locating(state) => match locator::step_spec(state, reply) {
            LocateStepView::Ask(state, request) => (RunView::Locating(state), request),
            LocateStepView::Finish(Ok(Some(image))) => (
                RunView::Starting(image),
                RequestView::StartImage(image),
            ),
            LocateStepView::Finish(Ok(None)) => abort_spec(
                Step::LocateImage,
                BootError::BootFileNotFound,
            ),
            LocateStepView::Finish(Err(error)) => abort_spec(Step::LocateImage, error),
        },
        RunView::Starting(_) => if reply is Done {
            (RunView::Lingering, RequestView::Stall { microseconds: LINGER_MICROSECONDS })
        } else {
            abort_spec(Step::StartImage, BootError::ImageStartFailed)
        },
        RunView::Lingering => (RunView::Ended(Ending::Exited), RequestView::ExitNotFound),
        RunView::Ended(Ending::Exited) => (RunView::Ended(Ending::Exited), RequestView::ExitNotFound),
        RunView::Ended(Ending::Aborted(failure)) => abort_spec(failure.step, failure.error),
    }
}

/// Begins a run.
pub fn start() -> (begun: (RunState, Request))
    ensures
        (begun.0@, begun.1@) == start_spec(),
{
    (RunState::Initializing, Request::InitHelpers)
}

fn abort(step: Step, error: BootError) -> (next: (RunState, Request))
    ensures
        (next.0@, next.1@) == abort_spec(step, error),
{
    let failure = Failure { step, error };
    (RunState::Ended(Ending::Aborted(failure)), Request::Abort(failure))
}

fn signal(phase: Phase) -> (next: (RunState, Request))
    ensures
        (next.0@, next.1@) == signal_spec(phase),
{
    let (signal, request) = signaler::start(phase);
    (RunState::Signalling { phase, signal }, request)
}

fn after_signal(phase: Phase) -> (next: (RunState, Request))
    ensures
        (next.0@, next.1@) == after_signal_spec(phase),
{
    match phase {
        Phase::PeripheralDetect => {
            let (state, request) = connector::start();
            (RunState::Connecting(state), request)
        },
        Phase::ReadyToBoot => signal(Phase::EndOfEarlyInit),
        Phase::EndOfEarlyInit => {
            let (state, request) = locator::start();
            (RunState::Locating(state), request)
        },
    }
}

/// Takes the platform's reply to the request at hand and says what to
/// ask next.
pub fn step(state: RunState, reply: Reply) -> (next: (RunState, Request))
    ensures
        (next.0@, next.1@) == step_spec(state@, reply@),
{
    match state {
        RunState::Initializing => match reply {
            Reply::Done => signal(Phase::PeripheralDetect),
            _ => abort(Step::InitPlatform, BootError::PlatformInitFailed),
        },
        RunState::Signalling { phase, signal } => match signaler::step(phase, signal, &reply) {
            SignalStep::Ask(signal, request) => (RunState::Signalling { phase, signal }, request),
            SignalStep::Finish(Ok(_)) => after_signal(phase),
            SignalStep::Finish(Err(error)) => abort(Step::Signal(phase), error),
        },
        RunState::Connecting(state) => match connector::step(state, &reply) {
            ConnectStep::Ask(state, request) => (RunState::Connecting(state), request),
            ConnectStep::Finish(Ok(_)) => signal(Phase::ReadyToBoot),
            ConnectStep::Finish(Err(error)) => abort(Step::ConnectDrivers, error),
        },
        RunState::Locating(state) => match locator::step(state, reply) {
            LocateStep::Ask(state, request) => (RunState::Locating(state), request),
            LocateStep::Finish(Ok(Some(image))) => (
                RunState::Starting(image),
                Request::StartImage(image),
            ),
            LocateStep::Finish(Ok(None)) => abort(Step::LocateImage, BootError::BootFileNotFound),
            LocateStep::Finish(Err(error)) => abort(Step::LocateImage, error),
        },
        RunState::Starting(_) => match reply {
            Reply::Done => (
                RunState::Lingering,
                Request::Stall { microseconds: LINGER_MICROSECONDS },
            ),
            _ => abort(Step::StartImage, BootError::ImageStartFailed),
        },
        RunState::Lingering => (RunState::Ended(Ending::Exited), Request::ExitNotFound),
        RunState::Ended(Ending::Exited) => (RunState::Ended(Ending::Exited), Request::ExitNotFound),
        RunState::Ended(Ending::Aborted(failure)) => abort(failure.step, failure.error),
    }
}

} // verus!
