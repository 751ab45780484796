//! The sidecar file: what it holds and how the secrets in it are written.

use vstd::prelude::*;
use vstd::utf8::encode_utf8;

use crate::error::{Failure, HexError, TouchIdError};
use crate::hex;
use crate::hex::{hex_decoded, hex_encoded};
use crate::policy::Policy;

verus! {

/// Current sidecar format version; bump when the on-disk schema changes.
pub const SIDECAR_VERSION: u32 = 1;

/// Permissions of a sidecar file: its owner reads and writes it, nobody else does either.
pub const SIDECAR_MODE: u32 = 0o600;

/// Sidecar file contents: the enclave key and the password it wraps.
#[derive(Debug)]
pub struct Sidecar {
    pub version: u32,
    pub policy: Policy,
    /// Hex-encoded, enclave-encrypted `dataRepresentation` of the P-256 wrap key.
    pub se_key: String,
    /// Hex-encoded ECIES ciphertext of the keystore password.
    pub sealed_password: String,
}

/// What a [`Sidecar`] says, with its text as sequences of characters.
#[verifier::ext_equal]
pub struct SidecarView {
    pub version: u32,
    pub policy: Policy,
    pub se_key: Seq<char>,
    pub sealed_password: Seq<char>,
}

impl View for Sidecar {
    type V = SidecarView;

    open spec fn view(&self) -> SidecarView {
        SidecarView {
            version: self.version,
            policy: self.policy,
            se_key: self.se_key@,
            sealed_password: self.sealed_password@,
        }
    }
}

/// The sidecar in which a wrap key made under `policy` and the password it sealed are kept.
pub open spec fn sidecar_of(policy: Policy, se_key: Seq<u8>, sealed: Seq<u8>) -> SidecarView {
    SidecarView {
        version: SIDECAR_VERSION,
        policy,
        se_key: hex_encoded(se_key),
        sealed_password: hex_encoded(sealed),
    }
}

/// The wrap key and the sealed password that a sidecar keeps; where both fields are bad, the key
/// is the one reported.
pub open spec fn sidecar_secrets(sidecar: SidecarView) -> Result<(Seq<u8>, Seq<u8>), HexError> {
    match hex_decoded(encode_utf8(sidecar.se_key)) {
        Err(error) => Err(error),
        Ok(se_key) => match hex_decoded(encode_utf8(sidecar.sealed_password)) {
            Err(error) => Err(error),
            Ok(sealed) => Ok((se_key, sealed)),
        },
    }
}

impl Sidecar {
    /// The sidecar for a new wrap key, in the current format.
    pub fn new(policy: Policy, se_key: &[u8], sealed_password: &[u8]) -> (sidecar: Sidecar)
        requires
            2 * se_key@.len() <= isize::MAX,
            2 * sealed_password@.len() <= isize::MAX,
        ensures
            sidecar@ == sidecar_of(policy, se_key@, sealed_password@),
            sidecar.version == SIDECAR_VERSION,
            sidecar.policy == policy,
            sidecar.se_key@ == hex_encoded(se_key@),
            sidecar.sealed_password@ == hex_encoded(sealed_password@),
    {
        Sidecar {
            version: SIDECAR_VERSION,
            policy,
            se_key: hex::encode(se_key),
            sealed_password: hex::encode(sealed_password),
        }
    }

    /// The wrap key and the sealed password as the enclave takes them.
    pub fn secrets(&self) -> (secrets: Result<(Vec<u8>, Vec<u8>), TouchIdError>)
        ensures
            match secrets {
                Ok((se_key, sealed)) => sidecar_secrets(self@) == Ok::<
                    (Seq<u8>, Seq<u8>),
                    HexError,
                >((se_key@, sealed@)),
                Err(e) => sidecar_secrets(self@) is Err && e@ == Failure::InvalidHex(
                    sidecar_secrets(self@)->Err_0,
                ),
            },
            secrets matches Ok((se_key, sealed)) ==> hex_decoded(encode_utf8(self.se_key@)) == Ok::<
                Seq<u8>,
                HexError,
            >(se_key@) && hex_decoded(encode_utf8(self.sealed_password@)) == Ok::<
                Seq<u8>,
                HexError,
            >(sealed@),
            secrets matches Err(e) ==> e matches TouchIdError::InvalidHex(error) && (if hex_decoded(
                encode_utf8(self.se_key@),
            ) is Err {
                hex_decoded(encode_utf8(self.se_key@)) == Err::<Seq<u8>, HexError>(error)
            } else {
                hex_decoded(encode_utf8(self.sealed_password@)) == Err::<Seq<u8>, HexError>(error)
            }),
    {
        match hex::decode(self.se_key.as_str()) {
            Err(error) => Err(TouchIdError::InvalidHex(error)),
            Ok(se_key) => match hex::decode(self.sealed_password.as_str()) {
                Err(error) => Err(TouchIdError::InvalidHex(error)),
                Ok(sealed) => Ok((se_key, sealed)),
            },
        }
    }
}

} // verus!
