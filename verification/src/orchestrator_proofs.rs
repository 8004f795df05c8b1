//! What holds of every run, whatever the platform answers: the order
//! of its requests.

use crate::orchestrator::start_spec;
use crate::orchestrator::step_spec;
use crate::orchestrator::Ending;
use crate::orchestrator::RunView;
use crate::orchestrator::LINGER_MICROSECONDS;
use crate::platform::ImageHandle;
use crate::platform::Phase;
use crate::platform::ReplyView;
use crate::platform::RequestView;
use crate::signaler::SignalState;
use vstd::prelude::*;

verus! {

/// The requests that a run at `state` makes as the platform answers
/// with `replies`, one reply to each request.
pub open spec fn requests(state: RunView, replies: Seq<ReplyView>) -> Seq<RequestView>
    decreases replies.len(),
{
    if replies.len() == 0 {
        Seq::empty()
    } else {
        seq![step_spec(state, replies[0]).1] + requests(
            step_spec(state, replies[0]).0,
            replies.drop_first(),
        )
    }
}

/// Every request of a run from its start: the first, and those that
/// follow as the platform answers with `replies`.
pub open spec fn run(replies: Seq<ReplyView>) -> Seq<RequestView> {
    seq![start_spec().1] + requests(start_spec().0, replies)
}

/// The stage at which the signalling of a phase begins.
pub open spec fn phase_stage(phase: Phase) -> nat {
    match phase {
        Phase::PeripheralDetect => 1,
        Phase::ReadyToBoot => 5,
        Phase::EndOfEarlyInit => 8,
    }
}

/// The stage of a run at which a request is made. The stages are
/// numbered in the order in which a run passes through them.
pub open spec fn request_stage(request: RequestView) -> nat {
    match request {
        RequestView::InitHelpers => 0,
        RequestView::CreateNotification(phase) => phase_stage(phase),
        RequestView::FireNotification(phase) => phase_stage(phase) + 1,
        RequestView::CloseNotification(phase) => phase_stage(phase) + 2,
        RequestView::EnumerateHandles => 4,
        RequestView::ConnectController { .. } => 4,
        RequestView::EnumerateFilesystems => 11,
        RequestView::AcquireDevicePath { .. } => 11,
        RequestView::AcquireFilesystem { .. } => 11,
        RequestView::OpenVolume { .. } => 11,
        RequestView::OpenBootFile { .. } => 11,
        RequestView::Report { .. } => 11,
        RequestView::Release { .. } => 11,
        RequestView::LoadImage { .. } => 11,
        RequestView::StartImage(_) => 12,
        RequestView::Stall { .. } => 13,
        RequestView::ExitNotFound => 14,
        RequestView::Abort(_) => 14,
    }
}

/// The stage of the request that a run at `state` awaits the reply to.
pub open spec fn state_stage(state: RunView) -> nat {
    match state {
        RunView::Initializing => 0,
        RunView::Signalling { phase, signal } => phase_stage(phase) + match signal {
            SignalState::Creating => 0nat,
            SignalState::Firing => 1nat,
            SignalState::Closing { .. } => 2nat,
        },
        RunView::Connecting(_) => 4,
        RunView::Locating(_) => 11,
        RunView::Starting(_) => 12,
        RunView::Lingering => 13,
        RunView::Ended(_) => 14,
    }
}

/// A stage at which a run may make more than one request.
pub open spec fn dwells(stage: nat) -> bool {
    stage == 4 || stage == 11 || stage == 14
}

/// One step takes a run to the stage of the request that it makes:
/// never back, on from any stage that makes one request only, and to
/// the next stage or to the end.
proof fn lemma_step_stage(state: RunView, reply: ReplyView)
    ensures
        request_stage(step_spec(state, reply).1) == state_stage(step_spec(state, reply).0),
        state_stage(state) <= state_stage(step_spec(state, reply).0),
        !dwells(state_stage(state)) ==> state_stage(state) < state_stage(
            step_spec(state, reply).0,
        ),
        state_stage(step_spec(state, reply).0) <= state_stage(state) + 1 || state_stage(
            step_spec(state, reply).0,
        ) == 14,
{
}

proof fn lemma_requests_len(state: RunView, replies: Seq<ReplyView>)
    ensures
        requests(state, replies).len() == replies.len(),
    decreases replies.len(),
{
    if replies.len() > 0 {
        lemma_requests_len(step_spec(state, replies[0]).0, replies.drop_first());
    }
}

/// No request is made at a stage before that of the state, and none
/// at that stage itself unless the run dwells there.
proof fn lemma_requests_follow(state: RunView, replies: Seq<ReplyView>, at: int)
    requires
        0 <= at < replies.len(),
    ensures
        state_stage(state) <= request_stage(requests(state, replies)[at]),
        !dwells(state_stage(state)) ==> state_stage(state) < request_stage(
            requests(state, replies)[at],
        ),
    decreases at,
{
    let next = step_spec(state, replies[0]).0;
    lemma_step_stage(state, replies[0]);
    lemma_requests_len(next, replies.drop_first());
    if at > 0 {
        lemma_requests_follow(next, replies.drop_first(), at - 1);
    }
}

/// The requests of a run come in the order of their stages.
proof fn lemma_requests_ordered(state: RunView, replies: Seq<ReplyView>, first: int, second: int)
    requires
        0 <= first < second < replies.len(),
    ensures
        request_stage(requests(state, replies)[first]) <= request_stage(
            requests(state, replies)[second],
        ),
        !dwells(request_stage(requests(state, replies)[first])) ==> request_stage(
            requests(state, replies)[first],
        ) < request_stage(requests(state, replies)[second]),
    decreases first,
{
    let next = step_spec(state, replies[0]).0;
    lemma_step_stage(state, replies[0]);
    lemma_requests_len(next, replies.drop_first());
    if first == 0 {
        lemma_requests_follow(next, replies.drop_first(), second - 1);
    } else {
        lemma_requests_ordered(next, replies.drop_first(), first - 1, second - 1);
    }
}

/// A run that makes a request at a stage before its end has made one
/// at every stage between its state and that stage.
proof fn lemma_requests_reach(
    state: RunView,
    replies: Seq<ReplyView>,
    at: int,
    stage: nat,
) -> (earlier: int)
    requires
        0 <= at < replies.len(),
        state_stage(state) < stage <= request_stage(requests(state, replies)[at]),
        request_stage(requests(state, replies)[at]) < 14,
    ensures
        0 <= earlier <= at,
        request_stage(requests(state, replies)[earlier]) == stage,
    decreases at,
{
    let next = step_spec(state, replies[0]).0;
    lemma_step_stage(state, replies[0]);
    lemma_requests_len(next, replies.drop_first());
    if at > 0 {
        lemma_requests_follow(next, replies.drop_first(), at - 1);
    }
    if state_stage(next) == stage {
        0
    } else {
        lemma_requests_reach(next, replies.drop_first(), at - 1, stage) + 1
    }
}

/// In every run the requests come in the order of their stages, and a
/// stage that makes one request makes it once.
pub proof fn theorem_run_is_ordered(replies: Seq<ReplyView>, first: int, second: int)
    requires
        0 <= first < second <= replies.len(),
    ensures
        request_stage(run(replies)[first]) <= request_stage(run(replies)[second]),
        !dwells(request_stage(run(replies)[first])) ==> request_stage(run(replies)[first])
            < request_stage(run(replies)[second]),
{
    lemma_requests_len(start_spec().0, replies);
    if first == 0 {
        lemma_requests_follow(start_spec().0, replies, second - 1);
    } else {
        lemma_requests_ordered(start_spec().0, replies, first - 1, second - 1);
    }
}

/// Each phase is fired at most once, and the phases are fired in one
/// order: peripheral detection, ready to boot, end of early
/// initialisation.
pub proof fn theorem_phases_fire_once_in_order(
    replies: Seq<ReplyView>,
    first: int,
    second: int,
    earlier: Phase,
    later: Phase,
)
    requires
        0 <= first < second <= replies.len(),
        run(replies)[first] == RequestView::FireNotification(earlier),
        run(replies)[second] == RequestView::FireNotification(later),
    ensures
        earlier.rank() < later.rank(),
{
    theorem_run_is_ordered(replies, first, second);
}

/// The image is handed control at most once in a run.
pub proof fn theorem_image_starts_once(replies: Seq<ReplyView>, first: int, second: int)
    requires
        0 <= first < second <= replies.len(),
    ensures
        !(run(replies)[first] is StartImage && run(replies)[second] is StartImage),
{
    theorem_run_is_ordered(replies, first, second);
}

/// Nothing is asked for the search of the boot image before each of
/// the three phases has been fired, and no phase is fired after.
pub proof fn theorem_phases_fire_before_search(
    replies: Seq<ReplyView>,
    at: int,
    phase: Phase,
) -> (fired: int)
    requires
        0 <= at <= replies.len(),
        request_stage(run(replies)[at]) == 11,
    ensures
        0 <= fired < at,
        run(replies)[fired] == RequestView::FireNotification(phase),
        forall|after: int|
            at < after <= replies.len() ==> !(#[trigger] run(replies)[after]
                is FireNotification),
{
    lemma_requests_len(start_spec().0, replies);
    assert forall|after: int| at < after <= replies.len() implies !(#[trigger] run(
        replies,
    )[after] is FireNotification) by {
        theorem_run_is_ordered(replies, at, after);
    }
    let found = lemma_requests_reach(
        start_spec().0,
        replies,
        at - 1,
        (phase_stage(phase) + 1) as nat,
    );
    found + 1
}

/// An image that gives control back does not hang the run: a pause of
/// ten seconds follows, then the end of the process, and the run stays
/// ended.
pub proof fn theorem_returned_image_ends_run(
    image: ImageHandle,
    after_pause: ReplyView,
    later: ReplyView,
)
    ensures
        step_spec(RunView::Starting(image), ReplyView::Done) == (
            RunView::Lingering,
            RequestView::Stall { microseconds: LINGER_MICROSECONDS },
        ),
        LINGER_MICROSECONDS == 10_000_000,
        step_spec(RunView::Lingering, after_pause) == (
            RunView::Ended(Ending::Exited),
            RequestView::ExitNotFound,
        ),
        step_spec(RunView::Ended(Ending::Exited), later) == (
            RunView::Ended(Ending::Exited),
            RequestView::ExitNotFound,
        ),
{
}

} // verus!
