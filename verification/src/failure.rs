//! The ways in which the bridge can fail, and the exit code of each.

use vstd::prelude::*;

verus! {

/// Exit code of a clean shutdown.
pub const EXIT_CLEAN: u8 = 0;

/// Exit code when no attached interface has the keypad's identity.
pub const EXIT_DEVICE_NOT_FOUND: u8 = 1;

/// Exit code when the transport fails after the device was opened.
pub const EXIT_TRANSPORT: u8 = 2;

/// What went wrong on the device handle.
#[derive(Clone, Copy, Debug, PartialEq, Eq, Structural)]
pub enum TransportError {
    /// A write was refused.
    Write,
    /// A read was refused.
    Read,
    /// The timed read after a write ended with no data.
    NoAcknowledgment,
}

/// Why the bridge stops.
#[derive(Clone, Copy, Debug, PartialEq, Eq, Structural)]
pub enum Failure {
    /// No attached interface has the keypad's identity.
    DeviceNotFound,
    /// The keypad is attached but could not be opened.
    DeviceOpen,
    /// The device handle failed.
    Transport(TransportError),
    /// A collaborator could not be run, or its answer could not be read.
    Collaborator,
    /// The driver reported an event that answers no pending operation.
    OutOfTurn,
}

/// The exit code that a failure has, where one is defined. The failures
/// without one end the process abnormally.
pub open spec fn exit_code_of(failure: Failure) -> Option<u8> {
    match failure {
        Failure::DeviceNotFound => Some(EXIT_DEVICE_NOT_FOUND),
        Failure::Transport(_) => Some(EXIT_TRANSPORT),
        Failure::DeviceOpen | Failure::Collaborator | Failure::OutOfTurn => None,
    }
}

/// The exit code with which the process reports `failure`.
pub fn exit_code(failure: Failure) -> (code: Option<u8>)
    ensures
        code == exit_code_of(failure),
{
    match failure {
        Failure::DeviceNotFound => Some(EXIT_DEVICE_NOT_FOUND),
        Failure::Transport(_) => Some(EXIT_TRANSPORT),
        _ => None,
    }
}

/// No failure is reported with the exit code of a clean shutdown, and the
/// two defined codes tell a missing device from a failed transport.
pub proof fn lemma_exit_codes_distinct(failure: Failure)
    ensures
        exit_code_of(failure) != Some(EXIT_CLEAN),
        exit_code_of(failure) == Some(EXIT_DEVICE_NOT_FOUND) <==> failure
            == Failure::DeviceNotFound,
        exit_code_of(failure) == Some(EXIT_TRANSPORT) <==> failure is Transport,
{
}

} // verus!
