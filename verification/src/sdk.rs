//! The platform-capability interface, the semantic error taxonomy, and the
//! fixed names of the two OS objects the simulator publishes.

use vstd::prelude::*;

pub mod acquire;
pub mod unix;
pub mod update;

verus! {

/// Raw OS status: the named object does not exist.
pub const ERROR_FILE_NOT_FOUND: u32 = 2;

/// Raw OS status: the requested access was refused.
pub const ERROR_ACCESS_DENIED: u32 = 5;

/// Semantic errors surfaced to callers, in place of raw OS status codes.
#[derive(Clone, Copy, Debug, PartialEq, Eq, Structural)]
pub enum SdkError {
    /// The named object does not currently exist: the producer is not
    /// running or has not initialized yet. Retryable.
    NotFound,
    /// The OS refused the requested access. Not retryable unless the
    /// environment's permissions change.
    PermissionDenied,
    /// The current platform cannot host the named objects at all.
    Unsupported,
    /// Any other OS failure, carrying the raw status code for diagnostics.
    Unexpected(u32),
}

/// The semantic error for a raw status code returned when opening a named
/// object (memory object or event) fails.
pub open spec fn spec_open_error(code: u32) -> SdkError {
    if code == ERROR_FILE_NOT_FOUND {
        SdkError::NotFound
    } else if code == ERROR_ACCESS_DENIED {
        SdkError::PermissionDenied
    } else {
        SdkError::Unexpected(code)
    }
}

/// Translate a raw status code from a failed open of a named object.
pub fn open_error(code: u32) -> (e: SdkError)
    ensures
        e == spec_open_error(code),
{
    if code == ERROR_FILE_NOT_FOUND {
        SdkError::NotFound
    } else if code == ERROR_ACCESS_DENIED {
        SdkError::PermissionDenied
    } else {
        SdkError::Unexpected(code)
    }
}

/// The semantic error for a raw status code returned when mapping a view
/// over an open memory handle fails.
pub open spec fn spec_map_error(code: u32) -> SdkError {
    if code == ERROR_ACCESS_DENIED {
        SdkError::PermissionDenied
    } else {
        SdkError::Unexpected(code)
    }
}

/// Translate a raw status code from a failed view mapping.
pub fn map_error(code: u32) -> (e: SdkError)
    ensures
        e == spec_map_error(code),
{
    if code == ERROR_ACCESS_DENIED {
        SdkError::PermissionDenied
    } else {
        SdkError::Unexpected(code)
    }
}

/// The fixed, platform-reserved name of the shared memory object the
/// simulator writes telemetry snapshots into.
pub fn memory_mapped_file_name() -> (r: String)
    ensures
        r@ == "Local\\IRSDKMemMapFileName"@,
{
    String::from_str("Local\\IRSDKMemMapFileName")
}

/// The fixed, platform-reserved name of the event the simulator signals
/// each time a new snapshot is ready.
pub fn data_ready_event_name() -> (r: String)
    ensures
        r@ == "Local\\IRSDKDataValidEvent"@,
{
    String::from_str("Local\\IRSDKDataValidEvent")
}

/// Capability interface exposed to callers: one entry point that attempts
/// a connection and returns either a connected client or a semantic error.
/// Exactly one implementation is capable (the simulator's platform); every
/// other platform gets a stub that always fails with `Unsupported`.
pub trait IRacingClient: Sized {
    /// What a finished construction attempt guarantees on this platform.
    spec fn new_ensures(r: Result<Self, SdkError>) -> bool;

    /// Attempt to construct a connected client.
    fn new() -> (r: Result<Self, SdkError>)
        ensures
            Self::new_ensures(r),
    ;
}

} // verus!
