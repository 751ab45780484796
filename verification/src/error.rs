//! What can go wrong while enrolling, unlocking or removing.

use vstd::prelude::*;

verus! {

/// A `std::io::Error`, carried through as it came.
#[verifier::external_type_specification]
#[verifier::external_body]
pub struct ExIoError(std::io::Error);

/// A `serde_json::Error`, carried through as it came.
#[verifier::external_type_specification]
#[verifier::external_body]
pub struct ExJsonError(serde_json::Error);

/// Why a hex string does not stand for bytes.
#[derive(Clone, Copy, Debug, PartialEq, Eq, Structural)]
pub enum HexError {
    /// `c` is no hex digit; `index` counts from behind the `0x` prefix, where there is one.
    InvalidHexCharacter { c: char, index: usize },
    /// The number of digits is odd.
    OddLength,
    /// The digits do not fill the space they were to be written to.
    InvalidStringLength,
}

/// Errors produced by Touch ID keystore enrollment and unlocking.
#[derive(Debug)]
pub enum TouchIdError {
    /// The keystore is not enrolled for Touch ID unlock.
    NotEnrolled,
    /// The sidecar was written by a format version this library does not read.
    UnsupportedVersion(u32),
    /// The Secure Enclave refused, with this message.
    SecureEnclave(String),
    /// A file could not be read, written or removed.
    Io(std::io::Error),
    /// The sidecar is not the JSON that was expected.
    InvalidSidecar(serde_json::Error),
    /// A field of the sidecar is not hex.
    InvalidHex(HexError),
    /// The unwrapped password is not valid UTF-8.
    InvalidPassword,
}

/// What a [`TouchIdError`] says, with its text as a sequence of characters.
pub enum Failure {
    NotEnrolled,
    UnsupportedVersion(u32),
    SecureEnclave(Seq<char>),
    Io(std::io::Error),
    InvalidSidecar(serde_json::Error),
    InvalidHex(HexError),
    InvalidPassword,
}

impl View for TouchIdError {
    type V = Failure;

    open spec fn view(&self) -> Failure {
        match *self {
            TouchIdError::NotEnrolled => Failure::NotEnrolled,
            TouchIdError::UnsupportedVersion(version) => Failure::UnsupportedVersion(version),
            TouchIdError::SecureEnclave(message) => Failure::SecureEnclave(message@),
            TouchIdError::Io(error) => Failure::Io(error),
            TouchIdError::InvalidSidecar(error) => Failure::InvalidSidecar(error),
            TouchIdError::InvalidHex(error) => Failure::InvalidHex(error),
            TouchIdError::InvalidPassword => Failure::InvalidPassword,
        }
    }
}

} // verus!
