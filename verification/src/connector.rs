//! The driver connector: every handle that the platform knows is
//! offered to the drivers, whatever became of the handles before it.

use crate::error::BootError;
use crate::platform::Reply;
use crate::platform::ReplyView;
use crate::platform::Request;
use crate::platform::RequestView;
use vstd::prelude::*;

verus! {

/// Where the connecting stands.
#[derive(Clone, Copy, Debug, PartialEq, Eq, Structural)]
pub enum ConnectorState {
    /// The enumeration is awaited.
    Enumerating,
    /// The binding of `handle`, one of `count`, is awaited.
    Connecting { handle: usize, count: usize },
}

/// One move of the connecting: the next state with the request that it
/// awaits the reply to, or the outcome.
#[derive(Debug, PartialEq, Eq)]
pub enum ConnectStep {
    Ask(ConnectorState, Request),
    Finish(Result<(), BootError>),
}

/// `ConnectStep` with the request as its view.
pub enum ConnectStepView {
    Ask(ConnectorState, RequestView),
    Finish(Result<(), BootError>),
}

impl View for ConnectStep {
    type V = ConnectStepView;

    open spec fn view(&self) -> ConnectStepView {
        match *self {
            ConnectStep::Ask(state, request) => ConnectStepView::Ask(state, request@),
            ConnectStep::Finish(outcome) => ConnectStepView::Finish(outcome),
        }
    }
}

/// The connecting begins with the enumeration of every handle.
pub open spec fn start_spec() -> (ConnectorState, RequestView) {
    (ConnectorState::Enumerating, RequestView::EnumerateHandles)
}

/// The handle at `handle` is next, if there is one; else the
/// connecting is done.
pub open spec fn offer_spec(handle: int, count: usize) -> ConnectStepView {
    if handle < count {
        ConnectStepView::Ask(
            ConnectorState::Connecting { handle: handle as usize, count },
            RequestView::ConnectController { handle: handle as usize },
        )
    } else {
        ConnectStepView::Finish(Ok(()))
    }
}

/// The transition of the connecting. Only the enumeration can fail it:
/// what the platform says of one handle changes nothing for the next.
pub open spec fn step_spec(state: ConnectorState, reply: ReplyView) -> ConnectStepView {
    match state {
        ConnectorState::Enumerating => match reply {
            ReplyView::Handles(count) => offer_spec(0, count),
            _ => ConnectStepView::Finish(Err(BootError::EnumerationFailed)),
        },
        ConnectorState::Connecting { handle, count } => offer_spec(handle + 1, count),
    }
}

/// Begins the connecting.
pub fn start() -> (begun: (ConnectorState, Request))
    ensures
        (begun.0, begun.1@) == start_spec(),
{
    (ConnectorState::Enumerating, Request::EnumerateHandles)
}

/// Takes the platform's reply to the request at hand and says what
/// follows: the next request, or the outcome of the connecting.
pub fn step(state: ConnectorState, reply: &Reply) -> (next: ConnectStep)
    ensures
        next@ == step_spec(state, reply@),
{
    match state {
        ConnectorState::Enumerating => match reply {
            Reply::Handles(count) => {
                if *count > 0 {
                    ConnectStep::Ask(
                        ConnectorState::Connecting { handle: 0, count: *count },
                        Request::ConnectController { handle: 0 },
                    )
                } else {
                    ConnectStep::Finish(Ok(()))
                }
            },
            _ => ConnectStep::Finish(Err(BootError::EnumerationFailed)),
        },
        ConnectorState::Connecting { handle, count } => {
            if count > 0 && handle < count - 1 {
                ConnectStep::Ask(
                    ConnectorState::Connecting { handle: handle + 1, count },
                    Request::ConnectController { handle: handle + 1 },
                )
            } else {
                ConnectStep::Finish(Ok(()))
            }
        },
    }
}

/// The requests that the connecting at `state` makes as the platform
/// answers with `replies`, one reply to each request, up to its
/// outcome.
pub open spec fn requests(state: ConnectorState, replies: Seq<ReplyView>) -> Seq<RequestView>
    decreases replies.len(),
{
    if replies.len() == 0 {
        Seq::empty()
    } else {
        match step_spec(state, replies[0]) {
            ConnectStepView::Ask(next, request) => seq![request] + requests(
                next,
                replies.drop_first(),
            ),
            ConnectStepView::Finish(_) => Seq::empty(),
        }
    }
}

/// The outcome of the connecting at `state`, if `replies` take it
/// that far.
pub open spec fn outcome(state: ConnectorState, replies: Seq<ReplyView>) -> Option<
    Result<(), BootError>,
>
    decreases replies.len(),
{
    if replies.len() == 0 {
        None
    } else {
        match step_spec(state, replies[0]) {
            ConnectStepView::Ask(next, _) => outcome(next, replies.drop_first()),
            ConnectStepView::Finish(outcome) => Some(outcome),
        }
    }
}

proof fn lemma_offers_follow(handle: usize, count: usize, replies: Seq<ReplyView>)
    requires
        handle < count,
        replies.len() == count - handle,
    ensures
        requests(ConnectorState::Connecting { handle, count }, replies).len() == count - handle
            - 1,
        forall|k: int|
            0 <= k < count - handle - 1 ==> #[trigger] requests(
                ConnectorState::Connecting { handle, count },
                replies,
            )[k] == (RequestView::ConnectController { handle: (handle + 1 + k) as usize }),
        outcome(ConnectorState::Connecting { handle, count }, replies) == Some(
            Ok::<(), BootError>(()),
        ),
    decreases count - handle,
{
    let state = ConnectorState::Connecting { handle, count };
    if handle + 1 < count {
        let next = ConnectorState::Connecting { handle: (handle + 1) as usize, count };
        lemma_offers_follow((handle + 1) as usize, count, replies.drop_first());
        assert(step_spec(state, replies[0]) == ConnectStepView::Ask(
            next,
            RequestView::ConnectController { handle: (handle + 1) as usize },
        ));
        assert forall|k: int| 0 <= k < count - handle - 1 implies #[trigger] requests(
            state,
            replies,
        )[k] == (RequestView::ConnectController { handle: (handle + 1 + k) as usize }) by {
            if k > 0 {
                assert(requests(state, replies)[k] == requests(next, replies.drop_first())[k
                    - 1]);
            }
        }
    } else {
        assert(step_spec(state, replies[0]) == ConnectStepView::Finish(Ok(())));
    }
}

/// Once the platform has listed `count` handles, every one of them is
/// offered to the drivers, in the order of the listing, whatever the
/// platform answers for the handles before it; and the connecting then
/// succeeds.
pub proof fn theorem_every_handle_offered(count: usize, replies: Seq<ReplyView>)
    requires
        replies.len() == count,
    ensures
        requests(start_spec().0, seq![ReplyView::Handles(count)] + replies).len() == count,
        forall|handle: int|
            0 <= handle < count ==> #[trigger] requests(
                start_spec().0,
                seq![ReplyView::Handles(count)] + replies,
            )[handle] == (RequestView::ConnectController { handle: handle as usize }),
        outcome(start_spec().0, seq![ReplyView::Handles(count)] + replies) == Some(
            Ok::<(), BootError>(()),
        ),
{
    let all = seq![ReplyView::Handles(count)] + replies;
    assert(all.drop_first() =~= replies);
    assert(all[0] == ReplyView::Handles(count));
    if count > 0 {
        let first = ConnectorState::Connecting { handle: 0, count };
        lemma_offers_follow(0, count, replies);
        assert(step_spec(ConnectorState::Enumerating, all[0]) == ConnectStepView::Ask(
            first,
            RequestView::ConnectController { handle: 0 },
        ));
        assert forall|handle: int| 0 <= handle < count implies #[trigger] requests(
            start_spec().0,
            all,
        )[handle] == (RequestView::ConnectController { handle: handle as usize }) by {
            if handle > 0 {
                assert(requests(start_spec().0, all)[handle] == requests(first, replies)[handle
                    - 1]);
            }
        }
    } else {
        assert(step_spec(ConnectorState::Enumerating, all[0]) == ConnectStepView::Finish(Ok(())));
    }
}

/// Only the enumeration can fail the connecting.
pub proof fn theorem_only_enumeration_fails(state: ConnectorState, reply: ReplyView)
    ensures
        step_spec(state, reply) is Finish && step_spec(state, reply)->Finish_0 is Err ==> state
            is Enumerating && !(reply is Handles) && step_spec(state, reply)->Finish_0
            == Err::<(), BootError>(BootError::EnumerationFailed),
{
}

} // verus!
