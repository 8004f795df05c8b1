//! What a search comes to on a platform whose answers are known: the
//! first volume that holds the boot file decides, and no other.

use crate::device_path::boot_file_units;
use crate::device_path::boot_path;
use crate::device_path::file_path_node;
use crate::device_path::lemma_boot_path_nodes;
use crate::device_path::lemma_nodes_whole;
use crate::device_path::nodes_of;
use crate::error::BootError;
use crate::locator::advance_spec;
use crate::locator::pass_over_spec;
use crate::locator::release_spec;
use crate::locator::start_spec;
use crate::locator::step_spec;
use crate::locator::LocateStepView;
use crate::locator::Located;
use crate::locator::LocatorView;
use crate::platform::Diagnostic;
use crate::platform::ImageHandle;
use crate::platform::ReplyView;
use crate::platform::RequestView;
use vstd::prelude::*;

verus! {

/// How the platform answers for one handle that advertises a
/// filesystem.
pub struct Volume {
    /// The bytes of its device path, if that can be acquired.
    pub device_path: Option<Seq<u8>>,
    /// Whether its filesystem can be acquired.
    pub filesystem: bool,
    /// Whether the root of its volume opens.
    pub root: bool,
    /// Whether the boot file opens on it.
    pub boot_file: bool,
}

/// A platform, as far as a search can tell: the handles that advertise
/// a filesystem, in the order in which they are enumerated, and the
/// image that each device path loads, if any.
pub struct Platform {
    pub volumes: Seq<Volume>,
    pub images: Map<Seq<u8>, ImageHandle>,
}

/// The platform's reply to a request of a search.
pub open spec fn answer(platform: Platform, request: RequestView) -> ReplyView {
    match request {
        RequestView::EnumerateFilesystems => ReplyView::Handles(platform.volumes.len() as usize),
        RequestView::AcquireDevicePath { candidate } => if candidate < platform.volumes.len() {
            match platform.volumes[candidate as int].device_path {
                Some(bytes) => ReplyView::DevicePath(bytes),
                None => ReplyView::Failed,
            }
        } else {
            ReplyView::Failed
        },
        RequestView::AcquireFilesystem { candidate } => if candidate < platform.volumes.len()
            && platform.volumes[candidate as int].filesystem {
            ReplyView::Done
        } else {
            ReplyView::Failed
        },
        RequestView::OpenVolume { candidate } => if candidate < platform.volumes.len()
            && platform.volumes[candidate as int].root {
            ReplyView::Done
        } else {
            ReplyView::Failed
        },
        RequestView::OpenBootFile { candidate } => if candidate < platform.volumes.len()
            && platform.volumes[candidate as int].boot_file {
            ReplyView::Done
        } else {
            ReplyView::Failed
        },
        RequestView::Report { .. } => ReplyView::Done,
        RequestView::Release { .. } => ReplyView::Done,
        RequestView::LoadImage { path } => if platform.images.contains_key(path) {
            ReplyView::Image(platform.images[path])
        } else {
            ReplyView::Failed
        },
        _ => ReplyView::Failed,
    }
}

/// How many handles a search has yet to finish with.
pub open spec fn handles_left(state: LocatorView) -> int {
    match state {
        LocatorView::DevicePath { candidate, count } => if candidate < count {
            count - candidate
        } else {
            0
        },
        LocatorView::Filesystem { candidate, count, .. } => if candidate < count {
            count - candidate
        } else {
            0
        },
        LocatorView::Volume { candidate, count, .. } => if candidate < count {
            count - candidate
        } else {
            0
        },
        LocatorView::BootFile { candidate, count, .. } => if candidate < count {
            count - candidate
        } else {
            0
        },
        LocatorView::Reporting { candidate, count } => if candidate < count {
            count - candidate
        } else {
            0
        },
        LocatorView::Loading { candidate, count } => if candidate < count {
            count - candidate
        } else {
            0
        },
        LocatorView::Releasing { candidate, count, .. } => if candidate < count {
            count - candidate
        } else {
            0
        },
        LocatorView::Enumerating => 0,
    }
}

/// How many requests a search may yet make of the handle at hand.
pub open spec fn requests_left(state: LocatorView) -> int {
    match state {
        LocatorView::Enumerating => 0,
        LocatorView::DevicePath { .. } => 7,
        LocatorView::Filesystem { .. } => 6,
        LocatorView::Volume { .. } => 5,
        LocatorView::BootFile { .. } => 4,
        LocatorView::Reporting { .. } => 3,
        LocatorView::Loading { .. } => 2,
        LocatorView::Releasing { .. } => 1,
    }
}

/// The outcome of the search that stands at `state` and has asked
/// `request`, on `platform`.
pub open spec fn settle(platform: Platform, state: LocatorView, request: RequestView) -> Located
    decreases
        (if state is Enumerating {
            1int
        } else {
            0int
        }),
        handles_left(state),
        requests_left(state),
{
    match step_spec(state, answer(platform, request)) {
        LocateStepView::Finish(outcome) => outcome,
        LocateStepView::Ask(next, request) => settle(platform, next, request),
    }
}

/// The outcome of a whole search on `platform`.
pub open spec fn located(platform: Platform) -> Located {
    settle(platform, start_spec().0, start_spec().1)
}

/// The volume holds the boot file, and the platform lets a search see
/// that: each capability is granted, the device path splits into
/// nodes, the root opens and the boot file opens.
pub open spec fn holds_boot_file(volume: Volume) -> bool {
    &&& volume.device_path is Some
    &&& nodes_of(volume.device_path.unwrap()) is Some
    &&& volume.filesystem
    &&& volume.root
    &&& volume.boot_file
}

/// The outcome of loading the boot file from `volume`, which holds it.
pub open spec fn loaded_from(platform: Platform, volume: Volume) -> Located {
    match boot_path(nodes_of(volume.device_path.unwrap()).unwrap()) {
        Ok(path) => if platform.images.contains_key(path) {
            Ok(Some(platform.images[path]))
        } else {
            Err(BootError::ImageLoadFailed)
        },
        Err(_) => Err(BootError::ImageLoadFailed),
    }
}

/// The volume at `index` holds the boot file and none before it does.
pub open spec fn first_holder(volumes: Seq<Volume>, index: int) -> bool {
    &&& 0 <= index < volumes.len()
    &&& holds_boot_file(volumes[index])
    &&& forall|earlier: int| 0 <= earlier < index ==> !holds_boot_file(#[trigger] volumes[earlier])
}

/// The outcome that the handles from `from` on come to: that of the
/// first among them that holds the boot file.
pub open spec fn scan(platform: Platform, from: int) -> Located
    decreases platform.volumes.len() - from,
{
    if from < 0 || from >= platform.volumes.len() {
        Ok(None)
    } else if holds_boot_file(platform.volumes[from]) {
        loaded_from(platform, platform.volumes[from])
    } else {
        scan(platform, from + 1)
    }
}

/// What a search comes to once it is done with the candidate: its
/// outcome, if it has one, or what is to come of the handles after
/// the candidate.
proof fn lemma_release_settles(
    platform: Platform,
    candidate: usize,
    outcome: Option<Located>,
    rest: Located,
)
    requires
        platform.volumes.len() <= usize::MAX,
        candidate < platform.volumes.len(),
        candidate + 1 < platform.volumes.len() ==> settle(
            platform,
            LocatorView::DevicePath {
                candidate: (candidate + 1) as usize,
                count: platform.volumes.len() as usize,
            },
            RequestView::AcquireDevicePath { candidate: (candidate + 1) as usize },
        ) == rest,
        candidate + 1 >= platform.volumes.len() ==> rest == Ok::<Option<ImageHandle>, BootError>(
            None,
        ),
    ensures
        settle(
            platform,
            LocatorView::Releasing { candidate, count: platform.volumes.len() as usize, outcome },
            RequestView::Release { candidate },
        ) == match outcome {
            Some(outcome) => outcome,
            None => rest,
        },
{
    let count = platform.volumes.len() as usize;
    assert(step_spec(
        LocatorView::Releasing { candidate, count, outcome },
        answer(platform, RequestView::Release { candidate }),
    ) == match outcome {
        Some(outcome) => LocateStepView::Finish(outcome),
        None => advance_spec(candidate, count),
    });
}

/// What a search comes to once it has passed over the candidate: what
/// is to come of the handles after it.
proof fn lemma_pass_over_settles(
    platform: Platform,
    candidate: usize,
    diagnostic: Diagnostic,
    rest: Located,
)
    requires
        platform.volumes.len() <= usize::MAX,
        candidate < platform.volumes.len(),
        candidate + 1 < platform.volumes.len() ==> settle(
            platform,
            LocatorView::DevicePath {
                candidate: (candidate + 1) as usize,
                count: platform.volumes.len() as usize,
            },
            RequestView::AcquireDevicePath { candidate: (candidate + 1) as usize },
        ) == rest,
        candidate + 1 >= platform.volumes.len() ==> rest == Ok::<Option<ImageHandle>, BootError>(
            None,
        ),
    ensures
        settle(
            platform,
            LocatorView::Reporting { candidate, count: platform.volumes.len() as usize },
            RequestView::Report { candidate, diagnostic },
        ) == rest,
{
    let count = platform.volumes.len() as usize;
    lemma_release_settles(platform, candidate, None, rest);
    assert(step_spec(
        LocatorView::Reporting { candidate, count },
        answer(platform, RequestView::Report { candidate, diagnostic }),
    ) == release_spec(candidate, count, None));
}

/// A search that takes up the handle at `candidate` comes to what the
/// handles from there on come to.
proof fn lemma_settle_scans(platform: Platform, candidate: usize)
    requires
        platform.volumes.len() <= usize::MAX,
        candidate < platform.volumes.len(),
    ensures
        settle(
            platform,
            LocatorView::DevicePath { candidate, count: platform.volumes.len() as usize },
            RequestView::AcquireDevicePath { candidate },
        ) == scan(platform, candidate as int),
    decreases platform.volumes.len() - candidate,
{
    let count = platform.volumes.len() as usize;
    let volume = platform.volumes[candidate as int];
    let rest = scan(platform, candidate + 1);
    if candidate + 1 < count {
        lemma_settle_scans(platform, (candidate + 1) as usize);
    }
    lemma_release_settles(platform, candidate, None, rest);
    lemma_pass_over_settles(platform, candidate, Diagnostic::DevicePathUnavailable, rest);
    lemma_pass_over_settles(platform, candidate, Diagnostic::FilesystemUnavailable, rest);
    lemma_pass_over_settles(platform, candidate, Diagnostic::VolumeUnavailable, rest);
    let s0 = LocatorView::DevicePath { candidate, count };
    let r0 = RequestView::AcquireDevicePath { candidate };
    if volume.device_path is Some && nodes_of(volume.device_path.unwrap()) is Some {
        let path = volume.device_path.unwrap();
        let s1 = LocatorView::Filesystem { candidate, count, path };
        let r1 = RequestView::AcquireFilesystem { candidate };
        assert(step_spec(s0, answer(platform, r0)) == LocateStepView::Ask(s1, r1));
        assert(settle(platform, s0, r0) == settle(platform, s1, r1));
        if volume.filesystem {
            let s2 = LocatorView::Volume { candidate, count, path };
            let r2 = RequestView::OpenVolume { candidate };
            assert(step_spec(s1, answer(platform, r1)) == LocateStepView::Ask(s2, r2));
            assert(settle(platform, s1, r1) == settle(platform, s2, r2));
            if volume.root {
                let s3 = LocatorView::BootFile { candidate, count, path };
                let r3 = RequestView::OpenBootFile { candidate };
                assert(step_spec(s2, answer(platform, r2)) == LocateStepView::Ask(s3, r3));
                assert(settle(platform, s2, r2) == settle(platform, s3, r3));
                if volume.boot_file {
                    let failed = Err::<Option<ImageHandle>, BootError>(
                        BootError::ImageLoadFailed,
                    );
                    lemma_release_settles(platform, candidate, Some(failed), rest);
                    match boot_path(nodes_of(path).unwrap()) {
                        Ok(boot) => {
                            let s4 = LocatorView::Loading { candidate, count };
                            let r4 = RequestView::LoadImage { path: boot };
                            assert(step_spec(s3, answer(platform, r3)) == LocateStepView::Ask(s4, r4));
                            assert(settle(platform, s3, r3) == settle(platform, s4, r4));
                            if platform.images.contains_key(boot) {
                                let found = Ok::<Option<ImageHandle>, BootError>(
                                    Some(platform.images[boot]),
                                );
                                lemma_release_settles(platform, candidate, Some(found), rest);
                                assert(step_spec(s4, answer(platform, r4)) == release_spec(
                                    candidate,
                                    count,
                                    Some(found),
                                ));
                            } else {
                                assert(step_spec(s4, answer(platform, r4)) == release_spec(
                                    candidate,
                                    count,
                                    Some(failed),
                                ));
                            }
                            assert(settle(platform, s4, r4) == loaded_from(platform, volume));
                        },
                        Err(_) => {
                            assert(step_spec(s3, answer(platform, r3)) == release_spec(
                                candidate,
                                count,
                                Some(failed),
                            ));
                            assert(settle(platform, s3, r3) == loaded_from(platform, volume));
                        },
                    }
                } else {
                    assert(step_spec(s3, answer(platform, r3)) == release_spec(
                        candidate,
                        count,
                        None,
                    ));
                    assert(settle(platform, s3, r3) == rest);
                }
            } else {
                assert(step_spec(s2, answer(platform, r2)) == pass_over_spec(
                    candidate,
                    count,
                    Diagnostic::VolumeUnavailable,
                ));
                assert(settle(platform, s2, r2) == rest);
            }
        } else {
            assert(step_spec(s1, answer(platform, r1)) == pass_over_spec(
                candidate,
                count,
                Diagnostic::FilesystemUnavailable,
            ));
            assert(settle(platform, s1, r1) == rest);
        }
    } else {
        assert(step_spec(s0, answer(platform, r0)) == pass_over_spec(
            candidate,
            count,
            Diagnostic::DevicePathUnavailable,
        ));
        assert(settle(platform, s0, r0) == rest);
    }
}

/// With no holder of the boot file before `index`, the handles from
/// `from` on come to what those from `index` on come to.
proof fn lemma_scan_skips(platform: Platform, from: int, index: int)
    requires
        0 <= from <= index <= platform.volumes.len(),
        forall|earlier: int|
            from <= earlier < index ==> !holds_boot_file(#[trigger] platform.volumes[earlier]),
    ensures
        scan(platform, from) == scan(platform, index),
    decreases index - from,
{
    if from < index {
        lemma_scan_skips(platform, from + 1, index);
    }
}

/// A search comes to what its handles, taken in order, come to.
pub proof fn lemma_located_scans(platform: Platform)
    requires
        platform.volumes.len() <= usize::MAX,
    ensures
        located(platform) == scan(platform, 0),
{
    if platform.volumes.len() > 0 {
        lemma_settle_scans(platform, 0);
    }
}

/// Where no handle's volume holds the boot file, and so too where no
/// handle advertises a filesystem, the search ends with the news that
/// there is none: never with a failure.
pub proof fn theorem_no_holder_not_found(platform: Platform)
    requires
        platform.volumes.len() <= usize::MAX,
        forall|index: int|
            0 <= index < platform.volumes.len() ==> !holds_boot_file(
                #[trigger] platform.volumes[index],
            ),
    ensures
        located(platform) == Ok::<Option<ImageHandle>, BootError>(None),
{
    lemma_located_scans(platform);
    lemma_scan_skips(platform, 0, platform.volumes.len() as int);
}

/// The first handle, in the order of the enumeration, whose volume
/// holds the boot file decides the search: the outcome is that of
/// loading the boot file from it, whatever handles come before or
/// after.
pub proof fn theorem_first_holder_decides(platform: Platform, index: int)
    requires
        platform.volumes.len() <= usize::MAX,
        first_holder(platform.volumes, index),
    ensures
        located(platform) == loaded_from(platform, platform.volumes[index]),
{
    lemma_located_scans(platform);
    lemma_scan_skips(platform, 0, index);
}

/// Where the first holder's device path has two nodes, the boot path
/// fits its buffer and the platform loads it, the search finds the
/// image that the platform loads from that path, and the path is made
/// of the two leading nodes of the holder's device path and the
/// file-path node of the boot file reference.
pub proof fn theorem_found_image_comes_from_boot_path(
    platform: Platform,
    index: int,
    path: Seq<u8>,
)
    requires
        platform.volumes.len() <= usize::MAX,
        first_holder(platform.volumes, index),
        boot_path(nodes_of(platform.volumes[index].device_path.unwrap()).unwrap()) == Ok::<
            Seq<u8>,
            crate::device_path::PathError,
        >(path),
        platform.images.contains_key(path),
    ensures
        located(platform) == Ok::<Option<ImageHandle>, BootError>(Some(platform.images[path])),
        nodes_of(path) == Some(
            seq![
                nodes_of(platform.volumes[index].device_path.unwrap()).unwrap()[0],
                nodes_of(platform.volumes[index].device_path.unwrap()).unwrap()[1],
                file_path_node(boot_file_units()),
            ],
        ),
{
    let source = platform.volumes[index].device_path.unwrap();
    theorem_first_holder_decides(platform, index);
    lemma_nodes_whole(source, 0, 0);
    lemma_nodes_whole(source, 0, 1);
    lemma_boot_path_nodes(nodes_of(source).unwrap()[0], nodes_of(source).unwrap()[1]);
}

/// Where several volumes hold the boot file, the search comes to what
/// it would come to if the first of them were the only handle.
pub proof fn theorem_first_holder_alone(platform: Platform, index: int)
    requires
        platform.volumes.len() <= usize::MAX,
        first_holder(platform.volumes, index),
    ensures
        located(platform) == located(
            Platform { volumes: seq![platform.volumes[index]], images: platform.images },
        ),
{
    let alone = Platform { volumes: seq![platform.volumes[index]], images: platform.images };
    theorem_first_holder_decides(platform, index);
    assert(first_holder(alone.volumes, 0));
    theorem_first_holder_decides(alone, 0);
}

/// Without the handle at `gone`, the handles from `from` on are those
/// from `from + 1` on.
proof fn lemma_scan_after_gap(platform: Platform, gone: int, from: int)
    requires
        0 <= gone <= from < platform.volumes.len(),
    ensures
        scan(
            Platform { volumes: platform.volumes.remove(gone), images: platform.images },
            from,
        ) == scan(platform, from + 1),
    decreases platform.volumes.len() - from,
{
    let without = Platform { volumes: platform.volumes.remove(gone), images: platform.images };
    if from + 1 < platform.volumes.len() {
        assert(without.volumes[from] == platform.volumes[from + 1]);
        lemma_scan_after_gap(platform, gone, from + 1);
    }
}

/// A handle that does not hold the boot file can be left out of the
/// handles from `from` on.
proof fn lemma_scan_without(platform: Platform, gone: int, from: int)
    requires
        0 <= from <= gone < platform.volumes.len(),
        !holds_boot_file(platform.volumes[gone]),
    ensures
        scan(
            Platform { volumes: platform.volumes.remove(gone), images: platform.images },
            from,
        ) == scan(platform, from),
    decreases gone - from,
{
    let without = Platform { volumes: platform.volumes.remove(gone), images: platform.images };
    if from < gone {
        assert(without.volumes[from] == platform.volumes[from]);
        lemma_scan_without(platform, gone, from + 1);
    } else if gone + 1 < platform.volumes.len() {
        lemma_scan_after_gap(platform, gone, gone);
        assert(scan(platform, gone) == scan(platform, gone + 1));
    }
}

/// A handle that is passed over, because its device path or its
/// filesystem cannot be acquired or for any other reason, counts for
/// nothing: the search comes to what it comes to without that handle.
pub proof fn theorem_passed_over_handle_counts_for_nothing(platform: Platform, index: int)
    requires
        platform.volumes.len() <= usize::MAX,
        0 <= index < platform.volumes.len(),
        !holds_boot_file(platform.volumes[index]),
    ensures
        located(platform) == located(
            Platform { volumes: platform.volumes.remove(index), images: platform.images },
        ),
{
    let without = Platform { volumes: platform.volumes.remove(index), images: platform.images };
    lemma_located_scans(platform);
    lemma_located_scans(without);
    lemma_scan_without(platform, index, 0);
}

/// A candidate that does not grant what is asked of it costs the
/// search that candidate only. The failure is recorded, what is held of
/// the candidate is given back, and the search goes on with the handle
/// after it; it ends there, with nothing found, only if there is no
/// handle after it.
pub proof fn theorem_denied_capability_moves_on(
    state: LocatorView,
    denied: ReplyView,
    recorded: ReplyView,
    released: ReplyView,
)
    requires
        state is DevicePath || state is Filesystem || state is Volume,
        !(denied is Done),
        !(denied is DevicePath),
    ensures
        ({
            let (candidate, count) = match state {
                LocatorView::DevicePath { candidate, count } => (candidate, count),
                LocatorView::Filesystem { candidate, count, .. } => (candidate, count),
                LocatorView::Volume { candidate, count, .. } => (candidate, count),
                _ => arbitrary(),
            };
            &&& step_spec(state, denied) is Ask
            &&& step_spec(state, denied)->Ask_0 == (LocatorView::Reporting { candidate, count })
            &&& step_spec(state, denied)->Ask_1 is Report
            &&& step_spec(state, denied)->Ask_1->Report_candidate == candidate
            &&& step_spec(state, denied)->Ask_1->Report_diagnostic.kind().recoverable()
            &&& step_spec(LocatorView::Reporting { candidate, count }, recorded) == release_spec(
                candidate,
                count,
                None,
            )
            &&& step_spec(
                LocatorView::Releasing { candidate, count, outcome: None },
                released,
            ) == advance_spec(candidate, count)
        }),
{
}

/// A search leaves a candidate only after it has asked for the release
/// of what is held of it: the request for the next device path, and the
/// outcome, come from the enumeration or follow a release.
pub proof fn theorem_release_comes_first(state: LocatorView, reply: ReplyView)
    ensures
        match step_spec(state, reply) {
            LocateStepView::Finish(_) => state is Enumerating || state is Releasing,
            LocateStepView::Ask(next, request) => {
                &&& request is AcquireDevicePath ==> state is Enumerating || state is Releasing
                &&& next is Releasing ==> request == (RequestView::Release {
                    candidate: next->Releasing_candidate,
                })
                &&& request is Release ==> next is Releasing
            },
        },
{
}

/// The outcome that a search holds while it waits for a release, if
/// it holds one, is no failure of the kind that costs one handle only.
pub open spec fn holds_no_recoverable_failure(state: LocatorView) -> bool {
    match state {
        LocatorView::Releasing { outcome: Some(Err(error)), .. } => !error.recoverable(),
        _ => true,
    }
}

/// No search ends with a failure of the kind that costs one handle
/// only: such failures are passed over, from the start of the search
/// to its end.
pub proof fn theorem_search_fails_fatally(state: LocatorView, reply: ReplyView)
    requires
        holds_no_recoverable_failure(state),
    ensures
        holds_no_recoverable_failure(start_spec().0),
        match step_spec(state, reply) {
            LocateStepView::Finish(Err(error)) => !error.recoverable(),
            LocateStepView::Finish(Ok(_)) => true,
            LocateStepView::Ask(next, _) => holds_no_recoverable_failure(next),
        },
{
}

} // verus!
