//! The unsupported-platform variant of the capability interface.

use crate::sdk::IRacingClient;
use crate::sdk::SdkError;
use vstd::prelude::*;

verus! {

/// Stub client for every platform the simulator does not run on.
/// Construction always fails with `Unsupported` and attempts no OS call,
/// so callers can branch on "not supported here" versus "supported here
/// but producer not running".
pub struct UnixClient {}

impl IRacingClient for UnixClient {
    open spec fn new_ensures(r: Result<UnixClient, SdkError>) -> bool {
        r == Err::<UnixClient, SdkError>(SdkError::Unsupported)
    }

    fn new() -> (r: Result<UnixClient, SdkError>) {
        Err(SdkError::Unsupported)
    }
}

} // verus!
