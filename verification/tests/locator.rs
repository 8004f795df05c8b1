use boot_shim::error::BootError;
use boot_shim::locator::start;
use boot_shim::locator::step;
use boot_shim::locator::LocateStep;
use boot_shim::locator::Located;
use boot_shim::locator::LocatorState;
use boot_shim::platform::Diagnostic;
use boot_shim::platform::ImageHandle;
use boot_shim::platform::Reply;
use boot_shim::platform::Request;

/// How the platform answers for one handle.
struct Volume {
    device_path: Option<Vec<u8>>,
    filesystem: bool,
    root: bool,
    boot_file: bool,
}

/// A disk behind PCI function `function`: ACPI, PCI, SATA, end.
fn disk_path(function: u8) -> Vec<u8> {
    vec![
        0x02, 0x01, 0x0c, 0x00, 0x03, 0x0a, 0xd0, 0x41, 0x00, 0x00, 0x00, 0x00, 0x01, 0x01, 0x06,
        0x00, function, 0x1f, 0x03, 0x12, 0x0a, 0x00, 0x00, 0x00, 0xff, 0xff, 0x00, 0x00, 0x7f,
        0xff, 0x04, 0x00,
    ]
}

/// The path that the boot file of the disk behind `function` loads from.
fn boot_path(function: u8) -> Vec<u8> {
    let mut path = disk_path(function)[..18].to_vec();
    path.extend_from_slice(&[0x04, 0x04, 50, 0]);
    for unit in "\\EFI\\BOOT\\BOOTAA64.EFI".encode_utf16() {
        path.extend_from_slice(&unit.to_le_bytes());
    }
    path.extend_from_slice(&[0, 0, 0x7f, 0xff, 0x04, 0x00]);
    path
}

fn bootable(function: u8) -> Volume {
    Volume { device_path: Some(disk_path(function)), filesystem: true, root: true, boot_file: true }
}

fn empty(function: u8) -> Volume {
    Volume { device_path: Some(disk_path(function)), filesystem: true, root: true, boot_file: false }
}

fn granted(yes: bool) -> Reply {
    if yes {
        Reply::Done
    } else {
        Reply::Failed
    }
}

/// The platform's reply: the image behind PCI function `f` has token
/// `100 + f`, and only the functions in `loadable` load.
fn answer(volumes: &[Volume], loadable: &[u8], request: &Request) -> Reply {
    match request {
        Request::EnumerateFilesystems => Reply::Handles(volumes.len()),
        Request::AcquireDevicePath { candidate } => match &volumes[*candidate].device_path {
            Some(bytes) => Reply::DevicePath(bytes.clone()),
            None => Reply::Failed,
        },
        Request::AcquireFilesystem { candidate } => granted(volumes[*candidate].filesystem),
        Request::OpenVolume { candidate } => granted(volumes[*candidate].root),
        Request::OpenBootFile { candidate } => granted(volumes[*candidate].boot_file),
        Request::Report { .. } => Reply::Done,
        Request::Release { .. } => Reply::Done,
        Request::LoadImage { path } => {
            match loadable.iter().find(|function| &boot_path(**function) == path) {
                Some(function) => Reply::Image(ImageHandle { token: 100 + *function as usize }),
                None => Reply::Failed,
            }
        }
        _ => panic!("not a request of a search: {:?}", request),
    }
}

/// Searches `volumes`; gives the requests made and the outcome.
fn locate(volumes: &[Volume], loadable: &[u8]) -> (Vec<Request>, Located) {
    let (mut state, mut request) = start();
    let mut requests = Vec::new();
    loop {
        let reply = answer(volumes, loadable, &request);
        requests.push(request);
        match step(state, reply) {
            LocateStep::Ask(next, asked) => {
                state = next;
                request = asked;
            }
            LocateStep::Finish(outcome) => return (requests, outcome),
        }
    }
}

#[test]
fn locate_starts_with_the_enumeration() {
    assert_eq!(start(), (LocatorState::Enumerating, Request::EnumerateFilesystems));
}

#[test]
fn locate_without_handles_finds_nothing() {
    let (requests, outcome) = locate(&[], &[]);
    assert_eq!(outcome, Ok(None));
    assert_eq!(requests, vec![Request::EnumerateFilesystems]);
}

#[test]
fn locate_without_boot_file_finds_nothing() {
    let volumes = [
        empty(0),
        Volume { device_path: None, filesystem: true, root: true, boot_file: true },
        Volume { device_path: Some(disk_path(2)), filesystem: false, root: true, boot_file: true },
        Volume { device_path: Some(disk_path(3)), filesystem: true, root: false, boot_file: true },
        Volume { device_path: Some(vec![1, 2, 3]), filesystem: true, root: true, boot_file: true },
    ];
    let (requests, outcome) = locate(&volumes, &[0, 1, 2, 3, 4]);
    assert_eq!(outcome, Ok(None));
    assert!(!requests.iter().any(|request| matches!(request, Request::LoadImage { .. })));
}

#[test]
fn locate_fails_when_the_enumeration_fails() {
    let (_, request) = start();
    assert_eq!(request, Request::EnumerateFilesystems);
    assert_eq!(
        step(LocatorState::Enumerating, Reply::Failed),
        LocateStep::Finish(Err(BootError::EnumerationFailed))
    );
    assert_eq!(
        step(LocatorState::Enumerating, Reply::Done),
        LocateStep::Finish(Err(BootError::EnumerationFailed))
    );
}

#[test]
fn locate_loads_the_boot_file_of_the_only_volume() {
    let (requests, outcome) = locate(&[bootable(7)], &[7]);
    assert_eq!(outcome, Ok(Some(ImageHandle { token: 107 })));
    assert_eq!(
        requests,
        vec![
            Request::EnumerateFilesystems,
            Request::AcquireDevicePath { candidate: 0 },
            Request::AcquireFilesystem { candidate: 0 },
            Request::OpenVolume { candidate: 0 },
            Request::OpenBootFile { candidate: 0 },
            Request::LoadImage { path: boot_path(7) },
            Request::Release { candidate: 0 },
        ]
    );
}

#[test]
fn locate_builds_the_path_from_two_nodes_and_the_file() {
    let (requests, _) = locate(&[bootable(5)], &[5]);
    let path = match &requests[requests.len() - 2] {
        Request::LoadImage { path } => path.clone(),
        other => panic!("the search did not load before its end: {:?}", other),
    };
    assert_eq!(path.len(), 12 + 6 + 50 + 4);
    assert_eq!(&path[..18], &disk_path(5)[..18]);
    assert_eq!(&path[18..22], &[0x04, 0x04, 50, 0]);
    assert_eq!(&path[68..], &[0x7f, 0xff, 0x04, 0x00]);
}

#[test]
fn locate_takes_the_first_of_several_volumes() {
    let several = [empty(1), bootable(2), bootable(3), bootable(4)];
    let (requests, outcome) = locate(&several, &[2, 3, 4]);
    assert_eq!(outcome, Ok(Some(ImageHandle { token: 102 })));
    assert!(!requests.contains(&Request::AcquireDevicePath { candidate: 2 }));
    assert!(!requests.contains(&Request::AcquireDevicePath { candidate: 3 }));
    let (_, alone) = locate(&[bootable(2)], &[2, 3, 4]);
    assert_eq!(outcome, alone);
}

#[test]
fn locate_examines_the_handles_after_a_denied_capability() {
    let volumes = [
        Volume { device_path: None, filesystem: true, root: true, boot_file: true },
        Volume { device_path: Some(disk_path(1)), filesystem: false, root: true, boot_file: true },
        Volume { device_path: Some(disk_path(2)), filesystem: true, root: false, boot_file: true },
        bootable(3),
    ];
    let (requests, outcome) = locate(&volumes, &[0, 1, 2, 3]);
    assert_eq!(outcome, Ok(Some(ImageHandle { token: 103 })));
    assert_eq!(
        requests,
        vec![
            Request::EnumerateFilesystems,
            Request::AcquireDevicePath { candidate: 0 },
            Request::Report { candidate: 0, diagnostic: Diagnostic::DevicePathUnavailable },
            Request::Release { candidate: 0 },
            Request::AcquireDevicePath { candidate: 1 },
            Request::AcquireFilesystem { candidate: 1 },
            Request::Report { candidate: 1, diagnostic: Diagnostic::FilesystemUnavailable },
            Request::Release { candidate: 1 },
            Request::AcquireDevicePath { candidate: 2 },
            Request::AcquireFilesystem { candidate: 2 },
            Request::OpenVolume { candidate: 2 },
            Request::Report { candidate: 2, diagnostic: Diagnostic::VolumeUnavailable },
            Request::Release { candidate: 2 },
            Request::AcquireDevicePath { candidate: 3 },
            Request::AcquireFilesystem { candidate: 3 },
            Request::OpenVolume { candidate: 3 },
            Request::OpenBootFile { candidate: 3 },
            Request::LoadImage { path: boot_path(3) },
            Request::Release { candidate: 3 },
        ]
    );
    let (_, without) = locate(&volumes[1..], &[0, 1, 2, 3]);
    assert_eq!(outcome, without);
}

#[test]
fn locate_passes_over_a_volume_without_boot_file_in_silence() {
    let (requests, outcome) = locate(&[empty(0), bootable(1)], &[1]);
    assert_eq!(outcome, Ok(Some(ImageHandle { token: 101 })));
    assert!(!requests.iter().any(|request| matches!(request, Request::Report { .. })));
    assert_eq!(requests[5], Request::Release { candidate: 0 });
    assert_eq!(requests[6], Request::AcquireDevicePath { candidate: 1 });
}

#[test]
fn locate_passes_over_a_malformed_device_path() {
    let broken = Volume {
        device_path: Some(vec![0x01, 0x01, 0x06, 0x00]),
        filesystem: true,
        root: true,
        boot_file: true,
    };
    let (requests, outcome) = locate(&[broken, bootable(1)], &[1]);
    assert_eq!(outcome, Ok(Some(ImageHandle { token: 101 })));
    assert_eq!(
        requests[2],
        Request::Report { candidate: 0, diagnostic: Diagnostic::DevicePathUnavailable }
    );
}

#[test]
fn locate_does_not_try_another_volume_when_the_load_fails() {
    let (requests, outcome) = locate(&[bootable(1), bootable(2)], &[2]);
    assert_eq!(outcome, Err(BootError::ImageLoadFailed));
    let end = requests.len();
    assert_eq!(requests[end - 2], Request::LoadImage { path: boot_path(1) });
    assert_eq!(requests[end - 1], Request::Release { candidate: 0 });
    assert!(!requests.contains(&Request::AcquireDevicePath { candidate: 1 }));
}

#[test]
fn locate_fails_on_a_holder_with_one_node() {
    let short = Volume {
        device_path: Some(vec![0x01, 0x01, 0x06, 0x00, 0x00, 0x1f, 0x7f, 0xff, 0x04, 0x00]),
        filesystem: true,
        root: true,
        boot_file: true,
    };
    let (requests, outcome) = locate(&[short, bootable(1)], &[1]);
    assert_eq!(outcome, Err(BootError::ImageLoadFailed));
    assert!(!requests.iter().any(|request| matches!(request, Request::LoadImage { .. })));
    assert_eq!(requests.last(), Some(&Request::Release { candidate: 0 }));
}

#[test]
fn locate_takes_only_the_expected_reply_for_success() {
    assert_eq!(
        step(LocatorState::DevicePath { candidate: 0, count: 2 }, Reply::Done),
        LocateStep::Ask(
            LocatorState::Reporting { candidate: 0, count: 2 },
            Request::Report { candidate: 0, diagnostic: Diagnostic::DevicePathUnavailable }
        )
    );
    assert_eq!(
        step(LocatorState::Loading { candidate: 0, count: 2 }, Reply::Done),
        LocateStep::Ask(
            LocatorState::Releasing {
                candidate: 0,
                count: 2,
                outcome: Some(Err(BootError::ImageLoadFailed))
            },
            Request::Release { candidate: 0 }
        )
    );
    assert_eq!(
        step(
            LocatorState::Loading { candidate: 0, count: 2 },
            Reply::Image(ImageHandle { token: 9 })
        ),
        LocateStep::Ask(
            LocatorState::Releasing {
                candidate: 0,
                count: 2,
                outcome: Some(Ok(Some(ImageHandle { token: 9 })))
            },
            Request::Release { candidate: 0 }
        )
    );
}

#[test]
fn locate_releases_every_candidate_that_it_leaves() {
    let volumes = [
        empty(0),
        Volume { device_path: Some(disk_path(1)), filesystem: false, root: true, boot_file: true },
        bootable(2),
    ];
    let (requests, _) = locate(&volumes, &[2]);
    for (at, request) in requests.iter().enumerate() {
        if let Request::AcquireDevicePath { candidate } = request {
            if *candidate > 0 {
                assert_eq!(requests[at - 1], Request::Release { candidate: candidate - 1 });
            }
        }
    }
    assert_eq!(requests.last(), Some(&Request::Release { candidate: 2 }));
}

#[test]
fn locate_ends_after_the_last_handle() {
    assert_eq!(
        step(LocatorState::Releasing { candidate: 1, count: 2, outcome: None }, Reply::Done),
        LocateStep::Finish(Ok(None))
    );
    assert_eq!(
        step(
            LocatorState::Releasing { candidate: usize::MAX, count: usize::MAX, outcome: None },
            Reply::Done
        ),
        LocateStep::Finish(Ok(None))
    );
    assert_eq!(
        step(LocatorState::Releasing { candidate: 0, count: 2, outcome: None }, Reply::Failed),
        LocateStep::Ask(
            LocatorState::DevicePath { candidate: 1, count: 2 },
            Request::AcquireDevicePath { candidate: 1 }
        )
    );
    assert_eq!(
        step(LocatorState::Reporting { candidate: 0, count: 2 }, Reply::Failed),
        LocateStep::Ask(
            LocatorState::Releasing { candidate: 0, count: 2, outcome: None },
            Request::Release { candidate: 0 }
        )
    );
}
