//! The boot image locator: it asks for the handles that advertise a
//! filesystem, examines them in the order given, and has the boot file
//! of the first volume that holds it loaded as an image.

use crate::device_path::boot_path;
use crate::device_path::nodes_of;
use crate::device_path::DevicePath;
use crate::error::BootError;
use crate::platform::Diagnostic;
use crate::platform::ImageHandle;
use crate::platform::Reply;
use crate::platform::ReplyView;
use crate::platform::Request;
use crate::platform::RequestView;
use vstd::prelude::*;

verus! {

/// How a search ends: with the image loaded from the boot file, with
/// the news that no volume holds the boot file, or with a failure.
pub type Located = Result<Option<ImageHandle>, BootError>;

/// Where a search stands. `candidate` is the handle under examination
/// and `count` the number of handles that were enumerated.
#[derive(Debug, PartialEq, Eq)]
pub enum LocatorState {
    /// The enumeration is awaited.
    Enumerating,
    /// The candidate's device path is awaited.
    DevicePath { candidate: usize, count: usize },
    /// The candidate's filesystem is awaited.
    Filesystem { candidate: usize, count: usize, path: DevicePath },
    /// The root of the candidate's volume is awaited.
    Volume { candidate: usize, count: usize, path: DevicePath },
    /// The boot file on the candidate's volume is awaited.
    BootFile { candidate: usize, count: usize, path: DevicePath },
    /// The candidate is passed over; the diagnostic is being recorded.
    Reporting { candidate: usize, count: usize },
    /// The image is awaited.
    Loading { candidate: usize, count: usize },
    /// The search is done with the candidate; the release of what is
    /// held of it is awaited. With an `outcome` the search then ends;
    /// without, it moves on.
    Releasing { candidate: usize, count: usize, outcome: Option<Located> },
}

/// One move of a search: the next state with the request that it
/// awaits the reply to, or the outcome.
#[derive(Debug, PartialEq, Eq)]
pub enum LocateStep {
    Ask(LocatorState, Request),
    Finish(Located),
}

/// `LocatorState` with each device path as its bytes.
pub enum LocatorView {
    Enumerating,
    DevicePath { candidate: usize, count: usize },
    Filesystem { candidate: usize, count: usize, path: Seq<u8> },
    Volume { candidate: usize, count: usize, path: Seq<u8> },
    BootFile { candidate: usize, count: usize, path: Seq<u8> },
    Reporting { candidate: usize, count: usize },
    Loading { candidate: usize, count: usize },
    Releasing { candidate: usize, count: usize, outcome: Option<Located> },
}

/// `LocateStep` with each device path as its bytes.
pub enum LocateStepView {
    Ask(LocatorView, RequestView),
    Finish(Located),
}

impl View for LocateStep {
    type V = LocateStepView;

    open spec fn view(&self) -> LocateStepView {
        match *self {
            LocateStep::Ask(state, request) => LocateStepView::Ask(state@, request@),
            LocateStep::Finish(outcome) => LocateStepView::Finish(outcome),
        }
    }
}

impl View for LocatorState {
    type V = LocatorView;

    open spec fn view(&self) -> LocatorView {
        match *self {
            LocatorState::Enumerating => LocatorView::Enumerating,
            LocatorState::DevicePath { candidate, count } => LocatorView::DevicePath {
                candidate,
                count,
            },
            LocatorState::Filesystem { candidate, count, path } => LocatorView::Filesystem {
                candidate,
                count,
                path: path@,
            },
            LocatorState::Volume { candidate, count, path } => LocatorView::Volume {
                candidate,
                count,
                path: path@,
            },
            LocatorState::BootFile { candidate, count, path } => LocatorView::BootFile {
                candidate,
                count,
                path: path@,
            },
            LocatorState::Reporting { candidate, count } => LocatorView::Reporting {
                candidate,
                count,
            },
            LocatorState::Loading { candidate, count } => LocatorView::Loading {
                candidate,
                count,
            },
            LocatorState::Releasing { candidate, count, outcome } => LocatorView::Releasing {
                candidate,
                count,
                outcome,
            },
        }
    }
}

/// A search that has just begun, with its first request.
pub open spec fn start_spec() -> (LocatorView, RequestView) {
    (LocatorView::Enumerating, RequestView::EnumerateFilesystems)
}

/// The search moves on from `candidate`: to the next handle, or to
/// its end, where every handle has been examined and none holds the
/// boot file.
pub open spec fn advance_spec(candidate: usize, count: usize) -> LocateStepView {
    if candidate + 1 < count {
        LocateStepView::Ask(
            LocatorView::DevicePath { candidate: (candidate + 1) as usize, count },
            RequestView::AcquireDevicePath { candidate: (candidate + 1) as usize },
        )
    } else {
        LocateStepView::Finish(Ok(None))
    }
}

/// The candidate is passed over for want of a capability: the failure
/// is recorded before the search moves on.
pub open spec fn pass_over_spec(
    candidate: usize,
    count: usize,
    diagnostic: Diagnostic,
) -> LocateStepView {
    LocateStepView::Ask(
        LocatorView::Reporting { candidate, count },
        RequestView::Report { candidate, diagnostic },
    )
}

/// The search is done with the candidate: what is held of it is given
/// back before anything else happens.
pub open spec fn release_spec(
    candidate: usize,
    count: usize,
    outcome: Option<Located>,
) -> LocateStepView {
    LocateStepView::Ask(
        LocatorView::Releasing { candidate, count, outcome },
        RequestView::Release { candidate },
    )
}

/// The transition of a search: what follows when the platform answers
/// the request at hand with `reply`. A reply that does not answer that
/// request counts as its failure.
///
/// A candidate that does not grant its device path, its filesystem or
/// the root of its volume is passed over with a diagnostic, and so is
/// one whose device path does not split into nodes; one without the
/// boot file is passed over in silence. The first candidate with the
/// boot file ends the search: with the image loaded from its boot
/// path, or with a failure if there is no such path or it does not
/// load.
pub open spec fn step_spec(state: LocatorView, reply: ReplyView) -> LocateStepView {
    match state {
        LocatorView::Enumerating => match reply {
            ReplyView::Handles(count) => if count > 0 {
                LocateStepView::Ask(
                    LocatorView::DevicePath { candidate: 0, count },
                    RequestView::AcquireDevicePath { candidate: 0 },
                )
            } else {
                LocateStepView::Finish(Ok(None))
            },
            _ => LocateStepView::Finish(Err(BootError::EnumerationFailed)),
        },
        LocatorView::DevicePath { candidate, count } => match reply {
            ReplyView::DevicePath(bytes) => if nodes_of(bytes) is Some {
                LocateStepView::Ask(
                    LocatorView::Filesystem { candidate, count, path: bytes },
                    RequestView::AcquireFilesystem { candidate },
                )
            } else {
                pass_over_spec(candidate, count, Diagnostic::DevicePathUnavailable)
            },
            _ => pass_over_spec(candidate, count, Diagnostic::DevicePathUnavailable),
        },
        LocatorView::Filesystem { candidate, count, path } => match reply {
            ReplyView::Done => LocateStepView::Ask(
                LocatorView::Volume { candidate, count, path },
                RequestView::OpenVolume { candidate },
            ),
            _ => pass_over_spec(candidate, count, Diagnostic::FilesystemUnavailable),
        },
        LocatorView::Volume { candidate, count, path } => match reply {
            ReplyView::Done => LocateStepView::Ask(
                LocatorView::BootFile { candidate, count, path },
                RequestView::OpenBootFile { candidate },
            ),
            _ => pass_over_spec(candidate, count, Diagnostic::VolumeUnavailable),
        },
        LocatorView::BootFile { candidate, count, path } => match reply {
            ReplyView::Done => match boot_path(nodes_of(path).unwrap()) {
                Ok(boot) => LocateStepView::Ask(
                    LocatorView::Loading { candidate, count },
                    RequestView::LoadImage { path: boot },
                ),
                Err(_) => release_spec(candidate, count, Some(Err(BootError::ImageLoadFailed))),
            },
            _ => release_spec(candidate, count, None),
        },
        LocatorView::Reporting { candidate, count } => release_spec(candidate, count, None),
        LocatorView::Loading { candidate, count } => match reply {
            ReplyView::Image(image) => release_spec(candidate, count, Some(Ok(Some(image)))),
            _ => release_spec(candidate, count, Some(Err(BootError::ImageLoadFailed))),
        },
        LocatorView::Releasing { candidate, count, outcome } => match outcome {
            Some(outcome) => LocateStepView::Finish(outcome),
            None => advance_spec(candidate, count),
        },
    }
}

/// Begins a search.
pub fn start() -> (begun: (LocatorState, Request))
    ensures
        (begun.0@, begun.1@) == start_spec(),
{
    (LocatorState::Enumerating, Request::EnumerateFilesystems)
}

fn advance(candidate: usize, count: usize) -> (next: LocateStep)
    ensures
        next@ == advance_spec(candidate, count),
{
    if count > 0 && candidate < count - 1 {
        LocateStep::Ask(
            LocatorState::DevicePath { candidate: candidate + 1, count },
            Request::AcquireDevicePath { candidate: candidate + 1 },
        )
    } else {
        LocateStep::Finish(Ok(None))
    }
}

fn pass_over(candidate: usize, count: usize, diagnostic: Diagnostic) -> (next: LocateStep)
    ensures
        next@ == pass_over_spec(candidate, count, diagnostic),
{
    LocateStep::Ask(
        LocatorState::Reporting { candidate, count },
        Request::Report { candidate, diagnostic },
    )
}

fn release(candidate: usize, count: usize, outcome: Option<Located>) -> (next: LocateStep)
    ensures
        next@ == release_spec(candidate, count, outcome),
{
    LocateStep::Ask(
        LocatorState::Releasing { candidate, count, outcome },
        Request::Release { candidate },
    )
}

/// Takes the platform's reply to the request at hand and says what
/// follows: the next request, or the outcome of the search.
pub fn step(state: LocatorState, reply: Reply) -> (next: LocateStep)
    ensures
        next@ == step_spec(state@, reply@),
{
    match state {
        LocatorState::Enumerating => match reply {
            Reply::Handles(count) => {
                if count > 0 {
                    LocateStep::Ask(
                        LocatorState::DevicePath { candidate: 0, count },
                        Request::AcquireDevicePath { candidate: 0 },
                    )
                } else {
                    LocateStep::Finish(Ok(None))
                }
            },
            _ => LocateStep::Finish(Err(BootError::EnumerationFailed)),
        },
        LocatorState::DevicePath { candidate, count } => match reply {
            Reply::DevicePath(bytes) => match DevicePath::from_bytes(bytes) {
                Some(path) => LocateStep::Ask(
                    LocatorState::Filesystem { candidate, count, path },
                    Request::AcquireFilesystem { candidate },
                ),
                None => pass_over(candidate, count, Diagnostic::DevicePathUnavailable),
            },
            _ => pass_over(candidate, count, Diagnostic::DevicePathUnavailable),
        },
        LocatorState::Filesystem { candidate, count, path } => match reply {
            Reply::Done => LocateStep::Ask(
                LocatorState::Volume { candidate, count, path },
                Request::OpenVolume { candidate },
            ),
            _ => pass_over(candidate, count, Diagnostic::FilesystemUnavailable),
        },
        LocatorState::Volume { candidate, count, path } => match reply {
            Reply::Done => LocateStep::Ask(
                LocatorState::BootFile { candidate, count, path },
                Request::OpenBootFile { candidate },
            ),
            _ => pass_over(candidate, count, Diagnostic::VolumeUnavailable),
        },
        LocatorState::BootFile { candidate, count, path } => match reply {
            Reply::Done => match path.boot_image_path() {
                Ok(boot) => LocateStep::Ask(
                    LocatorState::Loading { candidate, count },
                    Request::LoadImage { path: boot.into_bytes() },
                ),
                Err(_) => release(candidate, count, Some(Err(BootError::ImageLoadFailed))),
            },
            _ => release(candidate, count, None),
        },
        LocatorState::Reporting { candidate, count } => release(candidate, count, None),
        LocatorState::Loading { candidate, count } => match reply {
            Reply::Image(image) => release(candidate, count, Some(Ok(Some(image)))),
            _ => release(candidate, count, Some(Err(BootError::ImageLoadFailed))),
        },
        LocatorState::Releasing { candidate, count, outcome } => match outcome {
            Some(outcome) => LocateStep::Finish(outcome),
            None => advance(candidate, count),
        },
    }
}

} // verus!
