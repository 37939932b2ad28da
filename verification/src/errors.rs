//! The error taxonomy of the detector.

use vstd::prelude::*;

verus! {

/// Everything that can go wrong. Construction and start errors are
/// returned synchronously; a capture error is reported as an `Error`
/// event on the stream; an unreadable map key is read as zero.
#[derive(Clone, Copy, Debug, PartialEq, Eq, Structural)]
pub enum OnlError {
    /// No interface with the requested name.
    InterfaceNotFound,
    /// The datalink channel is not an Ethernet channel.
    UnsupportedChannel,
    /// The kernel classifier failed to load or attach, or its map could
    /// not be opened.
    AttachFailed,
    /// A transient read error on the userspace capture.
    CaptureError,
    /// The kernel timestamp map was unreadable.
    MapError,
}

impl OnlError {
    /// A human-readable description of the error.
    pub fn message(&self) -> (r: &'static str)
        ensures
            self is InterfaceNotFound ==> r@ == "iface not found, check name and permissions"@,
            self is UnsupportedChannel ==> r@ == "channel type not supported"@,
            self is AttachFailed ==> r@ == "classifier failed to load or attach"@,
            self is CaptureError ==> r@ == "error reading from the capture channel"@,
            self is MapError ==> r@ == "timestamp map unreadable"@,
    {
        match self {
            OnlError::InterfaceNotFound => "iface not found, check name and permissions",
            OnlError::UnsupportedChannel => "channel type not supported",
            OnlError::AttachFailed => "classifier failed to load or attach",
            OnlError::CaptureError => "error reading from the capture channel",
            OnlError::MapError => "timestamp map unreadable",
        }
    }
}

} // verus!
