use boot_shim::error::BootError;
use boot_shim::orchestrator::start;
use boot_shim::orchestrator::step;
use boot_shim::orchestrator::Ending;
use boot_shim::orchestrator::RunState;
use boot_shim::orchestrator::LINGER_MICROSECONDS;
use boot_shim::platform::Failure;
use boot_shim::platform::ImageHandle;
use boot_shim::platform::Phase;
use boot_shim::platform::Reply;
use boot_shim::platform::Request;
use boot_shim::platform::Step;

const IMAGE: ImageHandle = ImageHandle { token: 0x4000 };

/// A platform with `handles` handles in all, of which `volumes`
/// advertise a filesystem and the one at `holder` holds the boot file;
/// `refuse` picks the one request that fails.
struct Platform {
    handles: usize,
    volumes: usize,
    holder: Option<usize>,
    refuse: fn(&Request) -> bool,
}

fn nothing(_: &Request) -> bool {
    false
}

fn disk_path() -> Vec<u8> {
    vec![
        0x02, 0x01, 0x0c, 0x00, 0x03, 0x0a, 0xd0, 0x41, 0x00, 0x00, 0x00, 0x00, 0x01, 0x01, 0x06,
        0x00, 0x02, 0x1f, 0x7f, 0xff, 0x04, 0x00,
    ]
}

fn boot_path() -> Vec<u8> {
    let mut path = disk_path()[..18].to_vec();
    path.extend_from_slice(&[0x04, 0x04, 50, 0]);
    for unit in "\\EFI\\BOOT\\BOOTAA64.EFI".encode_utf16() {
        path.extend_from_slice(&unit.to_le_bytes());
    }
    path.extend_from_slice(&[0, 0, 0x7f, 0xff, 0x04, 0x00]);
    path
}

impl Platform {
    fn answer(&self, request: &Request) -> Reply {
        if (self.refuse)(request) {
            return Reply::Failed;
        }
        match request {
            Request::EnumerateHandles => Reply::Handles(self.handles),
            Request::EnumerateFilesystems => Reply::Handles(self.volumes),
            Request::AcquireDevicePath { .. } => Reply::DevicePath(disk_path()),
            Request::OpenBootFile { candidate } => {
                if Some(*candidate) == self.holder {
                    Reply::Done
                } else {
                    Reply::Failed
                }
            }
            Request::LoadImage { path } => {
                assert_eq!(path, &boot_path());
                Reply::Image(IMAGE)
            }
            _ => Reply::Done,
        }
    }

    /// Runs to the end; gives every request made, the last of which
    /// ends the process.
    fn run(&self) -> Vec<Request> {
        let (mut state, mut request) = start();
        let mut requests = Vec::new();
        loop {
            let over = matches!(request, Request::ExitNotFound | Request::Abort(_));
            let reply = self.answer(&request);
            requests.push(request);
            if over {
                return requests;
            }
            let next = step(state, reply);
            state = next.0;
            request = next.1;
        }
    }
}

fn abort(step: Step, error: BootError) -> Request {
    Request::Abort(Failure { step, error })
}

fn signal(phase: Phase) -> Vec<Request> {
    vec![
        Request::CreateNotification(phase),
        Request::FireNotification(phase),
        Request::CloseNotification(phase),
    ]
}

fn fired(requests: &[Request]) -> Vec<Phase> {
    requests
        .iter()
        .filter_map(|request| match request {
            Request::FireNotification(phase) => Some(*phase),
            _ => None,
        })
        .collect()
}

#[test]
fn run_starts_with_the_platform_helpers() {
    assert_eq!(start(), (RunState::Initializing, Request::InitHelpers));
}

#[test]
fn run_hands_over_to_the_boot_file_of_the_one_volume() {
    let platform = Platform { handles: 2, volumes: 1, holder: Some(0), refuse: nothing };
    let requests = platform.run();
    let mut expected = vec![Request::InitHelpers];
    expected.extend(signal(Phase::PeripheralDetect));
    expected.extend([
        Request::EnumerateHandles,
        Request::ConnectController { handle: 0 },
        Request::ConnectController { handle: 1 },
    ]);
    expected.extend(signal(Phase::ReadyToBoot));
    expected.extend(signal(Phase::EndOfEarlyInit));
    expected.extend([
        Request::EnumerateFilesystems,
        Request::AcquireDevicePath { candidate: 0 },
        Request::AcquireFilesystem { candidate: 0 },
        Request::OpenVolume { candidate: 0 },
        Request::OpenBootFile { candidate: 0 },
        Request::LoadImage { path: boot_path() },
        Request::Release { candidate: 0 },
        Request::StartImage(IMAGE),
        Request::Stall { microseconds: 10_000_000 },
        Request::ExitNotFound,
    ]);
    assert_eq!(requests, expected);
    let starts = requests.iter().filter(|request| matches!(request, Request::StartImage(_)));
    assert_eq!(starts.count(), 1);
}

#[test]
fn run_without_filesystem_handles_aborts_unloaded() {
    let platform = Platform { handles: 3, volumes: 0, holder: None, refuse: nothing };
    let requests = platform.run();
    assert_eq!(requests.last(), Some(&abort(Step::LocateImage, BootError::BootFileNotFound)));
    assert_eq!(requests[requests.len() - 2], Request::EnumerateFilesystems);
    assert!(!requests
        .iter()
        .any(|request| matches!(request, Request::LoadImage { .. } | Request::StartImage(_))));
}

#[test]
fn run_without_boot_file_aborts_unloaded() {
    let platform = Platform { handles: 1, volumes: 2, holder: None, refuse: nothing };
    let requests = platform.run();
    assert_eq!(requests.last(), Some(&abort(Step::LocateImage, BootError::BootFileNotFound)));
    assert!(!requests
        .iter()
        .any(|request| matches!(request, Request::LoadImage { .. } | Request::StartImage(_))));
}

#[test]
fn run_aborts_before_ready_to_boot_when_handles_cannot_be_listed() {
    let platform = Platform {
        handles: 2,
        volumes: 1,
        holder: Some(0),
        refuse: |request| matches!(request, Request::EnumerateHandles),
    };
    let requests = platform.run();
    let mut expected = vec![Request::InitHelpers];
    expected.extend(signal(Phase::PeripheralDetect));
    expected.extend([
        Request::EnumerateHandles,
        abort(Step::ConnectDrivers, BootError::EnumerationFailed),
    ]);
    assert_eq!(requests, expected);
    assert_eq!(fired(&requests), vec![Phase::PeripheralDetect]);
}

#[test]
fn run_fires_the_phases_once_each_in_order_before_the_search() {
    let platform = Platform { handles: 5, volumes: 3, holder: Some(2), refuse: nothing };
    let requests = platform.run();
    assert_eq!(
        fired(&requests),
        vec![Phase::PeripheralDetect, Phase::ReadyToBoot, Phase::EndOfEarlyInit]
    );
    let search = requests.iter().position(|r| *r == Request::EnumerateFilesystems).unwrap();
    let last_fire =
        requests.iter().rposition(|r| matches!(r, Request::FireNotification(_))).unwrap();
    assert!(last_fire < search);
}

#[test]
fn run_aborts_when_the_platform_helpers_fail() {
    assert_eq!(
        step(RunState::Initializing, Reply::Failed),
        (
            RunState::Ended(Ending::Aborted(Failure {
                step: Step::InitPlatform,
                error: BootError::PlatformInitFailed
            })),
            abort(Step::InitPlatform, BootError::PlatformInitFailed)
        )
    );
}

#[test]
fn run_aborts_on_the_first_phase_that_cannot_be_registered() {
    let platform = Platform {
        handles: 1,
        volumes: 1,
        holder: Some(0),
        refuse: |request| matches!(request, Request::CreateNotification(Phase::ReadyToBoot)),
    };
    let requests = platform.run();
    assert_eq!(
        requests.last(),
        Some(&abort(Step::Signal(Phase::ReadyToBoot), BootError::RegistrationFailed))
    );
    assert_eq!(fired(&requests), vec![Phase::PeripheralDetect]);
    assert!(!requests.contains(&Request::EnumerateFilesystems));
}

#[test]
fn run_releases_and_aborts_on_a_phase_that_cannot_be_fired() {
    let platform = Platform {
        handles: 1,
        volumes: 1,
        holder: Some(0),
        refuse: |request| matches!(request, Request::FireNotification(Phase::EndOfEarlyInit)),
    };
    let requests = platform.run();
    let end = requests.len();
    assert_eq!(
        requests[end - 1],
        abort(Step::Signal(Phase::EndOfEarlyInit), BootError::SignalFailed)
    );
    assert_eq!(requests[end - 2], Request::CloseNotification(Phase::EndOfEarlyInit));
    assert!(!requests.contains(&Request::EnumerateFilesystems));
}

#[test]
fn run_aborts_when_the_search_cannot_enumerate() {
    let platform = Platform {
        handles: 1,
        volumes: 1,
        holder: Some(0),
        refuse: |request| matches!(request, Request::EnumerateFilesystems),
    };
    assert_eq!(
        platform.run().last(),
        Some(&abort(Step::LocateImage, BootError::EnumerationFailed))
    );
}

#[test]
fn run_aborts_when_the_image_does_not_load() {
    let platform = Platform {
        handles: 1,
        volumes: 2,
        holder: Some(1),
        refuse: |request| matches!(request, Request::LoadImage { .. }),
    };
    let requests = platform.run();
    assert_eq!(requests.last(), Some(&abort(Step::LocateImage, BootError::ImageLoadFailed)));
    assert!(!requests.iter().any(|request| matches!(request, Request::StartImage(_))));
}

#[test]
fn run_aborts_when_the_image_does_not_start() {
    let platform = Platform {
        handles: 1,
        volumes: 1,
        holder: Some(0),
        refuse: |request| matches!(request, Request::StartImage(_)),
    };
    let requests = platform.run();
    let end = requests.len();
    assert_eq!(requests[end - 1], abort(Step::StartImage, BootError::ImageStartFailed));
    assert_eq!(requests[end - 2], Request::StartImage(IMAGE));
}

#[test]
fn run_lingers_ten_seconds_and_exits_when_the_image_returns() {
    assert_eq!(LINGER_MICROSECONDS, 10_000_000);
    let (state, request) = step(RunState::Starting(IMAGE), Reply::Done);
    assert_eq!(state, RunState::Lingering);
    assert_eq!(request, Request::Stall { microseconds: 10_000_000 });
    for reply in [Reply::Done, Reply::Failed] {
        assert_eq!(step(RunState::Lingering, reply), (RunState::Ended(Ending::Exited), Request::ExitNotFound));
    }
}

#[test]
fn run_stays_ended() {
    for reply in [Reply::Done, Reply::Failed, Reply::Handles(3)] {
        assert_eq!(
            step(RunState::Ended(Ending::Exited), reply),
            (RunState::Ended(Ending::Exited), Request::ExitNotFound)
        );
    }
    let failure = Failure { step: Step::Signal(Phase::ReadyToBoot), error: BootError::SignalFailed };
    assert_eq!(
        step(RunState::Ended(Ending::Aborted(failure)), Reply::Done),
        (RunState::Ended(Ending::Aborted(failure)), Request::Abort(failure))
    );
}

#[test]
fn abort_names_the_step_that_failed() {
    let said = |step, error| Failure { step, error }.message();
    assert_eq!(
        said(Step::InitPlatform, BootError::PlatformInitFailed),
        "Failed to initialize the platform helpers"
    );
    assert_eq!(
        said(Step::Signal(Phase::PeripheralDetect), BootError::SignalFailed),
        "Failed to signal SD-card detect"
    );
    assert_eq!(said(Step::ConnectDrivers, BootError::EnumerationFailed), "Failed to connect drivers");
    assert_eq!(
        said(Step::Signal(Phase::ReadyToBoot), BootError::RegistrationFailed),
        "Failed to signal ReadyToBoot"
    );
    assert_eq!(
        said(Step::Signal(Phase::EndOfEarlyInit), BootError::SignalFailed),
        "Failed to signal end of DXE"
    );
    assert_eq!(
        said(Step::LocateImage, BootError::EnumerationFailed),
        "An error occurred while searching for bootaa64.efi"
    );
    assert_eq!(
        said(Step::LocateImage, BootError::ImageLoadFailed),
        "An error occurred while searching for bootaa64.efi"
    );
    assert_eq!(said(Step::LocateImage, BootError::BootFileNotFound), "No bootaa64.efi found");
    assert_eq!(said(Step::StartImage, BootError::ImageStartFailed), "Failed to start bootaa64.efi");
}
