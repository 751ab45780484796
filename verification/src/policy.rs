//! Access-control policies of the Secure Enclave wrap key.

use vstd::prelude::*;

verus! {

/// Access-control policy for the Secure Enclave wrap key.
#[derive(Clone, Copy, Debug, PartialEq, Eq, Structural)]
pub enum Policy {
    /// No user interaction; the secret is only bound to this device's Secure Enclave.
    DeviceOnly,
    /// Touch ID, with device password fallback.
    UserPresence,
    /// Strictly the currently enrolled biometrics; re-enrollment invalidates the key.
    CurrentBiometry,
}

/// The code by which the enclave shim knows a policy.
pub open spec fn policy_code(policy: Policy) -> i32 {
    match policy {
        Policy::DeviceOnly => 0,
        Policy::UserPresence => 1,
        Policy::CurrentBiometry => 2,
    }
}

impl Policy {
    /// The code by which the enclave shim knows this policy.
    pub fn raw(self) -> (code: i32)
        ensures
            code == policy_code(self),
            self is DeviceOnly ==> code == 0,
            self is UserPresence ==> code == 1,
            self is CurrentBiometry ==> code == 2,
    {
        match self {
            Policy::DeviceOnly => 0,
            Policy::UserPresence => 1,
            Policy::CurrentBiometry => 2,
        }
    }
}

impl Default for Policy {
    /// Touch ID, with device password fallback.
    fn default() -> (policy: Self)
        ensures
            policy == Policy::UserPresence,
    {
        Policy::UserPresence
    }
}

} // verus!
