//! The ways a boot attempt can fail.

use vstd::prelude::*;

verus! {

/// What went wrong, by the operation that failed.
#[derive(Clone, Copy, Debug, PartialEq, Eq, Structural)]
pub enum BootError {
    /// The platform helpers could not be set up.
    PlatformInitFailed,
    /// The platform could not list its handles.
    EnumerationFailed,
    /// A handle did not grant a capability, or its volume could not be
    /// opened.
    CapabilityUnavailable,
    /// The notification for a phase could not be created.
    RegistrationFailed,
    /// The notification for a phase could not be fired or released.
    SignalFailed,
    /// The boot file was found but no image could be loaded from it.
    ImageLoadFailed,
    /// The loaded image could not be started.
    ImageStartFailed,
    /// No volume holds the boot file.
    BootFileNotFound,
}

impl BootError {
    /// The one kind of failure that a search over several handles
    /// survives: it costs the handle at hand and nothing more. Every
    /// other kind ends the run.
    pub open spec fn recoverable(self) -> bool {
        self == BootError::CapabilityUnavailable
    }

    /// Whether the failure costs only the handle at hand.
    pub fn is_recoverable(&self) -> (recoverable: bool)
        ensures
            recoverable == self.recoverable(),
    {
        match self {
            BootError::CapabilityUnavailable => true,
            BootError::PlatformInitFailed => false,
            BootError::EnumerationFailed => false,
            BootError::RegistrationFailed => false,
            BootError::SignalFailed => false,
            BootError::ImageLoadFailed => false,
            BootError::ImageStartFailed => false,
            BootError::BootFileNotFound => false,
        }
    }

    /// The diagnostic for this kind of failure, which names the
    /// operation.
    pub fn message(&self) -> (text: &'static str)
        ensures
            text@ == self.message_text(),
    {
        match self {
            BootError::PlatformInitFailed => "Unable to set up the platform helpers",
            BootError::EnumerationFailed => "Failed to enumerate handles",
            BootError::CapabilityUnavailable => "Unable to open a protocol on handle",
            BootError::RegistrationFailed => "Failed to create event",
            BootError::SignalFailed => "Failed to signal event",
            BootError::ImageLoadFailed => "Failed to load image",
            BootError::ImageStartFailed => "Failed to start image",
            BootError::BootFileNotFound => "No volume holds the boot file",
        }
    }

    /// The text of `message`.
    pub open spec fn message_text(self) -> Seq<char> {
        match self {
            BootError::PlatformInitFailed => "Unable to set up the platform helpers"@,
            BootError::EnumerationFailed => "Failed to enumerate handles"@,
            BootError::CapabilityUnavailable => "Unable to open a protocol on handle"@,
            BootError::RegistrationFailed => "Failed to create event"@,
            BootError::SignalFailed => "Failed to signal event"@,
            BootError::ImageLoadFailed => "Failed to load image"@,
            BootError::ImageStartFailed => "Failed to start image"@,
            BootError::BootFileNotFound => "No volume holds the boot file"@,
        }
    }
}

} // verus!
