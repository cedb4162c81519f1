//! The adapter's closed error taxonomy and the host status-word convention.

use vstd::prelude::*;

verus! {

/// Recoverable failure categories of the adapter.
///
/// `Failed` covers a host call that did not succeed, or that succeeded with an
/// empty payload where one was required. The two collection variants report
/// lifecycle precondition violations that are caught locally, before any
/// outbound call.
#[derive(Clone, Copy, Debug, PartialEq, Eq, Structural)]
pub enum RCErrorCode {
    Failed,
    CollectionNotCreated,
    CollectionAlreadyCreated,
}

/// Public error wrapper: every operation failure carries exactly one
/// `RCErrorCode`.
#[derive(Clone, Copy, Debug, PartialEq, Eq, Structural)]
pub enum RCError {
    ErrorCode(RCErrorCode),
}

impl From<RCErrorCode> for RCError {
    fn from(error_code: RCErrorCode) -> (r: Self) {
        RCError::ErrorCode(error_code)
    }
}

impl vstd::std_specs::convert::FromSpecImpl<RCErrorCode> for RCError {
    open spec fn obeys_from_spec() -> bool {
        true
    }

    open spec fn from_spec(error_code: RCErrorCode) -> RCError {
        RCError::ErrorCode(error_code)
    }
}

/// The host's out-of-band status convention: `0` means "no out-of-band
/// failure, consult the payload", `1` means a generic failure. Every other
/// word is a protocol violation: the host and the adapter have desynchronized
/// on the wire contract, and the invocation must abort.
pub open spec fn status_known(status: u32) -> bool {
    status == 0 || status == 1
}

impl RCErrorCode {
    /// Translate a known status word. Unknown words are excluded here: an
    /// invocation must abort on them, never coerce them; the total
    /// translation, which reports the violation instead, is the gateway's.
    pub fn from_status_code(status_code: u32) -> (r: Result<(), RCErrorCode>)
        requires
            status_known(status_code),
        ensures
            status_code == 0 ==> r == Ok::<(), RCErrorCode>(()),
            status_code == 1 ==> r == Err::<(), RCErrorCode>(RCErrorCode::Failed),
    {
        if status_code == 0 {
            Ok(())
        } else {
            Err(RCErrorCode::Failed)
        }
    }
}

} // verus!
