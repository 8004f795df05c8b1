//! What passes between the decision logic and the platform: requests
//! out, replies in.

use crate::error::BootError;
use vstd::prelude::*;

verus! {

/// The platform's reference to an image that it has staged for
/// execution.
#[derive(Clone, Copy, Debug, PartialEq, Eq, Structural)]
pub struct ImageHandle {
    pub token: usize,
}

/// A boot milestone that other parts of the platform wait on.
#[derive(Clone, Copy, Debug, PartialEq, Eq, Structural)]
pub enum Phase {
    /// Removable media should be detected now.
    PeripheralDetect,
    /// A boot attempt is about to be made.
    ReadyToBoot,
    /// Early initialisation is over; the platform may lock itself down.
    EndOfEarlyInit,
}

impl Phase {
    /// The position of the phase in the order in which the phases are
    /// signalled.
    pub open spec fn rank(self) -> nat {
        match self {
            Phase::PeripheralDetect => 0,
            Phase::ReadyToBoot => 1,
            Phase::EndOfEarlyInit => 2,
        }
    }

    /// The identifier of the phase's event group, as the sixteen bytes
    /// of a GUID in memory.
    pub open spec fn guid_bytes(self) -> Seq<u8> {
        match self {
            Phase::PeripheralDetect => seq![
                0x36u8, 0x2cu8, 0x97u8, 0xb7u8, 0x4cu8, 0x8au8, 0x56u8, 0x4au8,
                0x8bu8, 0x02u8, 0x11u8, 0x59u8, 0xb5u8, 0x2du8, 0x4bu8, 0xfbu8,
            ],
            Phase::ReadyToBoot => seq![
                0xb3u8, 0x8fu8, 0xe8u8, 0x7cu8, 0xd7u8, 0x4bu8, 0x79u8, 0x46u8,
                0x87u8, 0xa8u8, 0xa8u8, 0xd8u8, 0xdeu8, 0xe5u8, 0x0du8, 0x2bu8,
            ],
            Phase::EndOfEarlyInit => seq![
                0x7au8, 0x96u8, 0xceu8, 0x02u8, 0x7eu8, 0xddu8, 0xfcu8, 0x4fu8,
                0x9eu8, 0xe7u8, 0x81u8, 0x0cu8, 0xf0u8, 0x47u8, 0x08u8, 0x80u8,
            ],
        }
    }

    /// The identifier of the phase's event group.
    pub fn guid(&self) -> (bytes: [u8; 16])
        ensures
            bytes@ == self.guid_bytes(),
    {
        let bytes: [u8; 16] = match self {
            Phase::PeripheralDetect => [
                0x36, 0x2c, 0x97, 0xb7, 0x4c, 0x8a, 0x56, 0x4a,
                0x8b, 0x02, 0x11, 0x59, 0xb5, 0x2d, 0x4b, 0xfb,
            ],
            Phase::ReadyToBoot => [
                0xb3, 0x8f, 0xe8, 0x7c, 0xd7, 0x4b, 0x79, 0x46,
                0x87, 0xa8, 0xa8, 0xd8, 0xde, 0xe5, 0x0d, 0x2b,
            ],
            Phase::EndOfEarlyInit => [
                0x7a, 0x96, 0xce, 0x02, 0x7e, 0xdd, 0xfc, 0x4f,
                0x9e, 0xe7, 0x81, 0x0c, 0xf0, 0x47, 0x08, 0x80,
            ],
        };
        assert(bytes@ =~= self.guid_bytes());
        bytes
    }
}

/// A step of a run.
#[derive(Clone, Copy, Debug, PartialEq, Eq, Structural)]
pub enum Step {
    /// The platform helpers are set up.
    InitPlatform,
    /// A phase is signalled.
    Signal(Phase),
    /// Drivers are connected.
    ConnectDrivers,
    /// The boot image is searched for and loaded.
    LocateImage,
    /// The image is handed control.
    StartImage,
}

/// Why a run was given up: the step that failed, and how.
#[derive(Clone, Copy, Debug, PartialEq, Eq, Structural)]
pub struct Failure {
    pub step: Step,
    pub error: BootError,
}

impl Failure {
    /// The text of `message`.
    pub open spec fn message_text(self) -> Seq<char> {
        match self.step {
            Step::InitPlatform => "Failed to initialize the platform helpers"@,
            Step::Signal(Phase::PeripheralDetect) => "Failed to signal SD-card detect"@,
            Step::Signal(Phase::ReadyToBoot) => "Failed to signal ReadyToBoot"@,
            Step::Signal(Phase::EndOfEarlyInit) => "Failed to signal end of DXE"@,
            Step::ConnectDrivers => "Failed to connect drivers"@,
            Step::LocateImage => if self.error == BootError::BootFileNotFound {
                "No bootaa64.efi found"@
            } else {
                "An error occurred while searching for bootaa64.efi"@
            },
            Step::StartImage => "Failed to start bootaa64.efi"@,
        }
    }

    /// The diagnostic for a run that is given up, which names the step
    /// that failed.
    pub fn message(&self) -> (text: &'static str)
        ensures
            text@ == self.message_text(),
    {
        match self.step {
            Step::InitPlatform => "Failed to initialize the platform helpers",
            Step::Signal(Phase::PeripheralDetect) => "Failed to signal SD-card detect",
            Step::Signal(Phase::ReadyToBoot) => "Failed to signal ReadyToBoot",
            Step::Signal(Phase::EndOfEarlyInit) => "Failed to signal end of DXE",
            Step::ConnectDrivers => "Failed to connect drivers",
            Step::LocateImage => match self.error {
                BootError::BootFileNotFound => "No bootaa64.efi found",
                _ => "An error occurred while searching for bootaa64.efi",
            },
            Step::StartImage => "Failed to start bootaa64.efi",
        }
    }
}

/// Why a handle was passed over although it advertises a filesystem.
#[derive(Clone, Copy, Debug, PartialEq, Eq, Structural)]
pub enum Diagnostic {
    /// Its device path could not be had, or is malformed.
    DevicePathUnavailable,
    /// Its filesystem is held by someone else.
    FilesystemUnavailable,
    /// The root of its volume could not be opened.
    VolumeUnavailable,
}

impl Diagnostic {
    /// The kind of failure that a diagnostic records: a capability that
    /// was not to be had, which costs the handle and nothing more.
    pub open spec fn kind(self) -> BootError {
        BootError::CapabilityUnavailable
    }

    /// The kind of failure that the diagnostic records.
    pub fn error(&self) -> (error: BootError)
        ensures
            error == self.kind(),
            error.recoverable(),
    {
        BootError::CapabilityUnavailable
    }

    /// The text of `message`.
    pub open spec fn message_text(self) -> Seq<char> {
        match self {
            Diagnostic::DevicePathUnavailable => "Unable to open DevicePath protocol on handle"@,
            Diagnostic::FilesystemUnavailable => "Unable to open SimpleFileSystem protocol on handle"@,
            Diagnostic::VolumeUnavailable => "Unable to open volume"@,
        }
    }

    /// The line to record.
    pub fn message(&self) -> (text: &'static str)
        ensures
            text@ == self.message_text(),
    {
        match self {
            Diagnostic::DevicePathUnavailable => "Unable to open DevicePath protocol on handle",
            Diagnostic::FilesystemUnavailable => "Unable to open SimpleFileSystem protocol on handle",
            Diagnostic::VolumeUnavailable => "Unable to open volume",
        }
    }
}

/// What the platform is asked to do next. Handles are named by their
/// position in the latest enumeration.
#[derive(Debug, PartialEq, Eq)]
pub enum Request {
    /// Set up the platform helpers, once.
    InitHelpers,
    /// Register a notification in the event group of the phase, at
    /// notify priority, with a callback that does nothing.
    CreateNotification(Phase),
    /// Fire the notification registered for the phase.
    FireNotification(Phase),
    /// Release the notification registered for the phase.
    CloseNotification(Phase),
    /// List every handle that the platform knows.
    EnumerateHandles,
    /// Bind drivers to a handle, recursively.
    ConnectController { handle: usize },
    /// List the handles that advertise a filesystem.
    EnumerateFilesystems,
    /// Acquire the device path of the candidate, exclusively, and hand
    /// over its bytes.
    AcquireDevicePath { candidate: usize },
    /// Acquire the filesystem of the candidate, exclusively.
    AcquireFilesystem { candidate: usize },
    /// Open the root of the candidate's volume.
    OpenVolume { candidate: usize },
    /// Open the boot file on the candidate's volume, read-only.
    OpenBootFile { candidate: usize },
    /// Record why the candidate is passed over.
    Report { candidate: usize, diagnostic: Diagnostic },
    /// Give back whatever is held of the candidate: its volume, its
    /// filesystem, its device path.
    Release { candidate: usize },
    /// Load an image from exactly this device path.
    LoadImage { path: Vec<u8> },
    /// Transfer control to the image.
    StartImage(ImageHandle),
    /// Wait, so that what was recorded can be read.
    Stall { microseconds: u64 },
    /// End the process with a not-found status.
    ExitNotFound,
    /// Record the failure and end the process.
    Abort(Failure),
}

/// `Request` with its bytes as a sequence.
pub enum RequestView {
    InitHelpers,
    CreateNotification(Phase),
    FireNotification(Phase),
    CloseNotification(Phase),
    EnumerateHandles,
    ConnectController { handle: usize },
    EnumerateFilesystems,
    AcquireDevicePath { candidate: usize },
    AcquireFilesystem { candidate: usize },
    OpenVolume { candidate: usize },
    OpenBootFile { candidate: usize },
    Report { candidate: usize, diagnostic: Diagnostic },
    Release { candidate: usize },
    LoadImage { path: Seq<u8> },
    StartImage(ImageHandle),
    Stall { microseconds: u64 },
    ExitNotFound,
    Abort(Failure),
}

impl View for Request {
    type V = RequestView;

    open spec fn view(&self) -> RequestView {
        match *self {
            Request::InitHelpers => RequestView::InitHelpers,
            Request::CreateNotification(phase) => RequestView::CreateNotification(phase),
            Request::FireNotification(phase) => RequestView::FireNotification(phase),
            Request::CloseNotification(phase) => RequestView::CloseNotification(phase),
            Request::EnumerateHandles => RequestView::EnumerateHandles,
            Request::ConnectController { handle } => RequestView::ConnectController { handle },
            Request::EnumerateFilesystems => RequestView::EnumerateFilesystems,
            Request::AcquireDevicePath { candidate } => RequestView::AcquireDevicePath {
                candidate,
            },
            Request::AcquireFilesystem { candidate } => RequestView::AcquireFilesystem {
                candidate,
            },
            Request::OpenVolume { candidate } => RequestView::OpenVolume { candidate },
            Request::OpenBootFile { candidate } => RequestView::OpenBootFile { candidate },
            Request::Report { candidate, diagnostic } => RequestView::Report {
                candidate,
                diagnostic,
            },
            Request::Release { candidate } => RequestView::Release { candidate },
            Request::LoadImage { path } => RequestView::LoadImage { path: path@ },
            Request::StartImage(image) => RequestView::StartImage(image),
            Request::Stall { microseconds } => RequestView::Stall { microseconds },
            Request::ExitNotFound => RequestView::ExitNotFound,
            Request::Abort(failure) => RequestView::Abort(failure),
        }
    }
}

/// What the platform answers.
#[derive(Debug, PartialEq, Eq)]
pub enum Reply {
    /// The request was carried out.
    Done,
    /// The request failed.
    Failed,
    /// The enumeration found this many handles.
    Handles(usize),
    /// The device path was acquired; these are its bytes.
    DevicePath(Vec<u8>),
    /// The image was loaded.
    Image(ImageHandle),
}

/// `Reply` with its bytes as a sequence.
pub enum ReplyView {
    Done,
    Failed,
    Handles(usize),
    DevicePath(Seq<u8>),
    Image(ImageHandle),
}

impl View for Reply {
    type V = ReplyView;

    open spec fn view(&self) -> ReplyView {
        match *self {
            Reply::Done => ReplyView::Done,
            Reply::Failed => ReplyView::Failed,
            Reply::Handles(count) => ReplyView::Handles(count),
            Reply::DevicePath(bytes) => ReplyView::DevicePath(bytes@),
            Reply::Image(image) => ReplyView::Image(image),
        }
    }
}

} // verus!
