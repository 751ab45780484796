//! Touch ID-protected keystore unlocking.
//!
//! Enrolling a keystore wraps its password with a P-256 key that lives inside the Secure Enclave
//! and is guarded by an access-control policy (Touch ID by default). The wrapped password and the
//! enclave key's encrypted `dataRepresentation` are stored in a sidecar file next to the keystore
//! JSON, which remains the canonical, portable copy of the key. Unlocking asks the enclave to
//! unwrap the password, which triggers the hardware-enforced Touch ID prompt.
//!
//! The Secure Enclave blob is device-bound; a Mac migration or (under
//! [`Policy::CurrentBiometry`]) a biometric re-enrollment invalidates it, after which the password
//! prompt is the fallback and re-enrollment recreates the sidecar.
//!
//! Nothing here touches a disk or the enclave, or reads or writes the text of a sidecar.
//! [`enroll`], [`unwrap_password`], [`remove`] and [`is_enrolled`] each give a first step, which
//! says what is to be asked of the machine; the answer gives the next step, and the last answer
//! gives the result.

pub mod enclave;
pub mod enroll;
pub mod error;
pub mod hex;
pub mod laws;
pub mod path;
pub mod policy;
pub mod remove;
pub mod sidecar;
pub mod step_laws;
pub mod swift;
pub mod swift_laws;
pub mod text;
pub mod unlock;

pub use enclave::{is_available, shim_result};
pub use enroll::{enroll, CreateKey, OpenSidecar, RestrictSidecar, SealPassword, WriteSidecar};
pub use error::{HexError, TouchIdError};
pub use path::sidecar_path;
pub use policy::Policy;
pub use remove::{is_enrolled, remove, DeleteSidecar, EnrolledQuery, FindRemoved, Removal};
pub use sidecar::{Sidecar, SIDECAR_VERSION};
pub use unlock::{
    unwrap_password, FindSidecar, ParseSidecar, ReadSidecar, ReadVersion, UnwrapSealed,
};
