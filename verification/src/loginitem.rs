//! Launch at login: reconciling the requested login-item state with what the
//! system's service registration achieved.

use vstd::prelude::*;

verus! {

/// The login-item state achieved when `desired` was requested and the
/// registration (for `true`) or unregistration (for `false`) call reported
/// `call_succeeded`: a call that succeeds reaches the requested state, and a
/// call that fails leaves the item as it was, the opposite of the request
/// (a failed registration leaves it off, a failed unregistration leaves it on).
pub fn set_enabled(desired: bool, call_succeeded: bool) -> (achieved: bool)
    ensures
        achieved == (if desired { call_succeeded } else { !call_succeeded }),
{
    if call_succeeded {
        desired
    } else {
        !desired
    }
}

} // verus!
