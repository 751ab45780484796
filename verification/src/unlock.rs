//! Unlocking an enrolled keystore.
//!
//! Unlocking asks up to five things of the machine it runs on, one after the other. Each of the
//! step types holds what is to be asked; its method takes the answer and gives the next step, so
//! that nothing more is asked once something went wrong.

use vstd::prelude::*;
use vstd::utf8::{decode_utf8, encode_utf8, valid_utf8};

use crate::enclave::{shim_bytes, shim_outcome, shim_result};
use crate::error::{Failure, TouchIdError};
use crate::hex::hex_decoded;
use crate::path::{file_name, sidecar_path, spec_file_name, spec_sidecar_path};
use crate::sidecar::{sidecar_secrets, Sidecar, SidecarView, SIDECAR_VERSION};
use crate::text::{has_nul, lossy_text, strict_text, text_of};

verus! {

/// First step: see whether there is a file at `path`.
pub struct FindSidecar {
    pub path: Vec<u8>,
    /// What the enclave will show the user as the reason for the request.
    pub reason: String,
}

/// Second step: read the file at `path` as text.
pub struct ReadSidecar {
    pub path: Vec<u8>,
    pub reason: String,
}

/// Third step: read the `version` member of the JSON text `raw`, and nothing else of it, so that
/// a sidecar of a future format reports its version instead of a schema mismatch.
pub struct ReadVersion {
    pub raw: String,
    pub reason: String,
}

/// Fourth step: read the JSON text `raw` as a [`Sidecar`].
pub struct ParseSidecar {
    pub raw: String,
    pub reason: String,
}

/// Fifth step: have the enclave unwrap `sealed` with the wrap key `se_key`, telling the user
/// `reason`.
pub struct UnwrapSealed {
    pub se_key: Vec<u8>,
    pub sealed: Vec<u8>,
    pub reason: String,
}

/// The reason for unlocking `keystore` that the user is told: a sentence with the keystore's file
/// name, or nothing where that sentence would hold a NUL and could not be handed on as a C string.
pub open spec fn unlock_reason(keystore: Seq<u8>) -> Seq<char> {
    let name = match spec_file_name(keystore) {
        Some(name) => text_of(name),
        None => Seq::empty(),
    };
    let sentence = "unlock the `"@ + name + "` keystore"@;
    if sentence.contains('\0') {
        Seq::empty()
    } else {
        sentence
    }
}

/// What reading the version comes to: only the current format is read on.
pub open spec fn version_gate(version: u32) -> Result<(), Failure> {
    if version == SIDECAR_VERSION {
        Ok(())
    } else {
        Err(Failure::UnsupportedVersion(version))
    }
}

/// The password in the shim's answer to the request to unwrap it.
pub open spec fn password_outcome(status: i32, bytes: Seq<u8>) -> Result<Seq<char>, Failure> {
    match shim_outcome(status, bytes) {
        Err(failure) => Err(failure),
        Ok(plain) => if valid_utf8(plain) {
            Ok(decode_utf8(plain))
        } else {
            Err(Failure::InvalidPassword)
        },
    }
}

/// Where an unlocking stands.
pub enum UnlockState {
    Find { path: Seq<u8>, reason: Seq<char> },
    Read { path: Seq<u8>, reason: Seq<char> },
    Version { raw: Seq<char>, reason: Seq<char> },
    Parse { raw: Seq<char>, reason: Seq<char> },
    Unwrap { se_key: Seq<u8>, sealed: Seq<u8>, reason: Seq<char> },
    Done(Result<Seq<char>, Failure>),
}

/// What an unlocking is answered.
pub enum UnlockAnswer {
    /// Whether the sidecar is there.
    Present(bool),
    /// The text of the sidecar.
    Text(Result<Seq<char>, std::io::Error>),
    /// The version in that text.
    Version(Result<u32, serde_json::Error>),
    /// The sidecar in that text.
    Parsed(Result<SidecarView, serde_json::Error>),
    /// Status and bytes, from the enclave.
    Shim(i32, Seq<u8>),
}

/// The state in which an unlocking starts.
pub open spec fn unlock_start(keystore: Seq<u8>) -> UnlockState {
    UnlockState::Find { path: spec_sidecar_path(keystore), reason: unlock_reason(keystore) }
}

/// The state that an answer leads to. An answer to a question that was not asked changes nothing.
pub open spec fn unlock_next(state: UnlockState, answer: UnlockAnswer) -> UnlockState {
    match (state, answer) {
        (UnlockState::Find { path, reason }, UnlockAnswer::Present(present)) => if present {
            UnlockState::Read { path, reason }
        } else {
            UnlockState::Done(Err(Failure::NotEnrolled))
        },
        (UnlockState::Read { path: _, reason }, UnlockAnswer::Text(text)) => match text {
            Ok(raw) => UnlockState::Version { raw, reason },
            Err(error) => UnlockState::Done(Err(Failure::Io(error))),
        },
        (UnlockState::Version { raw, reason }, UnlockAnswer::Version(version)) => match version {
            Ok(v) => match version_gate(v) {
                Ok(()) => UnlockState::Parse { raw, reason },
                Err(failure) => UnlockState::Done(Err(failure)),
            },
            Err(error) => UnlockState::Done(Err(Failure::InvalidSidecar(error))),
        },
        (UnlockState::Parse { raw: _, reason }, UnlockAnswer::Parsed(sidecar)) => match sidecar {
            Ok(s) => match sidecar_secrets(s) {
                Ok((se_key, sealed)) => UnlockState::Unwrap { se_key, sealed, reason },
                Err(error) => UnlockState::Done(Err(Failure::InvalidHex(error))),
            },
            Err(error) => UnlockState::Done(Err(Failure::InvalidSidecar(error))),
        },
        (UnlockState::Unwrap { .. }, UnlockAnswer::Shim(status, bytes)) => UnlockState::Done(
            password_outcome(status, bytes),
        ),
        _ => state,
    }
}

impl View for FindSidecar {
    type V = UnlockState;

    open spec fn view(&self) -> UnlockState {
        UnlockState::Find { path: self.path@, reason: self.reason@ }
    }
}

impl View for ReadSidecar {
    type V = UnlockState;

    open spec fn view(&self) -> UnlockState {
        UnlockState::Read { path: self.path@, reason: self.reason@ }
    }
}

impl View for ReadVersion {
    type V = UnlockState;

    open spec fn view(&self) -> UnlockState {
        UnlockState::Version { raw: self.raw@, reason: self.reason@ }
    }
}

impl View for ParseSidecar {
    type V = UnlockState;

    open spec fn view(&self) -> UnlockState {
        UnlockState::Parse { raw: self.raw@, reason: self.reason@ }
    }
}

impl View for UnwrapSealed {
    type V = UnlockState;

    open spec fn view(&self) -> UnlockState {
        UnlockState::Unwrap {
            se_key: self.se_key@,
            sealed: self.sealed@,
            reason: self.reason@,
        }
    }
}

/// The state that the next step, or an error, leaves an unlocking in.
pub open spec fn unlock_state<S: View<V = UnlockState>>(
    step: Result<S, TouchIdError>,
) -> UnlockState {
    match step {
        Ok(next) => next@,
        Err(e) => UnlockState::Done(Err(e@)),
    }
}

/// A successful answer by its view, a failed one as it is.
pub open spec fn answer_view<T: View, E>(answer: Result<T, E>) -> Result<T::V, E> {
    match answer {
        Ok(value) => Ok(value@),
        Err(error) => Err(error),
    }
}

fn reason_for(keystore: &[u8]) -> (reason: String)
    ensures
        reason@ == unlock_reason(keystore@),
{
    let name = match file_name(keystore) {
        Some(name) => lossy_text(name.as_slice()),
        None => String::new(),
    };
    let mut sentence = String::new();
    sentence.append("unlock the `");
    sentence.append(name.as_str());
    sentence.append("` keystore");
    assert(sentence@ =~= "unlock the `"@ + name@ + "` keystore"@);
    if has_nul(sentence.as_str()) {
        String::new()
    } else {
        sentence
    }
}

/// Unwraps the keystore password from the sidecar, triggering the enclave's access-control prompt
/// (Touch ID under the default policy).
pub fn unwrap_password(keystore: &[u8]) -> (step: FindSidecar)
    ensures
        step@ == unlock_start(keystore@),
        step.path@ == spec_sidecar_path(keystore@),
        step.reason@ == unlock_reason(keystore@),
        !step.reason@.contains('\0'),
{
    FindSidecar { path: sidecar_path(keystore), reason: reason_for(keystore) }
}

impl FindSidecar {
    /// Takes the answer whether the sidecar is there.
    pub fn found(self, present: bool) -> (step: Result<ReadSidecar, TouchIdError>)
        ensures
            unlock_state(step) == unlock_next(self@, UnlockAnswer::Present(present)),
            present <==> step is Ok,
            step matches Ok(next) ==> next.path == self.path && next.reason == self.reason,
            step matches Err(e) ==> e is NotEnrolled,
    {
        if present {
            Ok(ReadSidecar { path: self.path, reason: self.reason })
        } else {
            Err(TouchIdError::NotEnrolled)
        }
    }
}

impl ReadSidecar {
    /// Takes the text of the sidecar.
    pub fn read(self, text: Result<String, std::io::Error>) -> (step: Result<
        ReadVersion,
        TouchIdError,
    >)
        ensures
            unlock_state(step) == unlock_next(self@, UnlockAnswer::Text(answer_view(text))),
            match text {
                Ok(raw) => step matches Ok(next) && next.raw == raw && next.reason == self.reason,
                Err(error) => step matches Err(e) && e == TouchIdError::Io(error),
            },
    {
        match text {
            Ok(raw) => Ok(ReadVersion { raw, reason: self.reason }),
            Err(error) => Err(TouchIdError::Io(error)),
        }
    }
}

impl ReadVersion {
    /// Takes the version that the sidecar says it is of.
    pub fn version(self, version: Result<u32, serde_json::Error>) -> (step: Result<
        ParseSidecar,
        TouchIdError,
    >)
        ensures
            unlock_state(step) == unlock_next(self@, UnlockAnswer::Version(version)),
            match version {
                Ok(v) => if v == SIDECAR_VERSION {
                    step matches Ok(next) && next.raw == self.raw && next.reason == self.reason
                } else {
                    step matches Err(e) && e == TouchIdError::UnsupportedVersion(v)
                },
                Err(error) => step matches Err(e) && e == TouchIdError::InvalidSidecar(error),
            },
    {
        match version {
            Ok(v) => if v == SIDECAR_VERSION {
                Ok(ParseSidecar { raw: self.raw, reason: self.reason })
            } else {
                Err(TouchIdError::UnsupportedVersion(v))
            },
            Err(error) => Err(TouchIdError::InvalidSidecar(error)),
        }
    }
}

impl ParseSidecar {
    /// Takes the sidecar.
    pub fn parsed(self, sidecar: Result<Sidecar, serde_json::Error>) -> (step: Result<
        UnwrapSealed,
        TouchIdError,
    >)
        ensures
            unlock_state(step) == unlock_next(self@, UnlockAnswer::Parsed(answer_view(sidecar))),
            match sidecar {
                Ok(s) => match (
                    hex_decoded(encode_utf8(s.se_key@)),
                    hex_decoded(encode_utf8(s.sealed_password@)),
                ) {
                    (Ok(se_key), Ok(sealed)) => step matches Ok(next) && next.se_key@ == se_key
                        && next.sealed@ == sealed && next.reason == self.reason,
                    (Err(error), _) => step matches Err(e) && e == TouchIdError::InvalidHex(error),
                    (Ok(_), Err(error)) => step matches Err(e) && e == TouchIdError::InvalidHex(
                        error,
                    ),
                },
                Err(error) => step matches Err(e) && e == TouchIdError::InvalidSidecar(error),
            },
    {
        match sidecar {
            Ok(s) => match s.secrets() {
                Ok((se_key, sealed)) => Ok(UnwrapSealed { se_key, sealed, reason: self.reason }),
                Err(error) => Err(error),
            },
            Err(error) => Err(TouchIdError::InvalidSidecar(error)),
        }
    }
}

impl UnwrapSealed {
    /// Takes the shim's answer to the request to unwrap the password.
    pub fn unwrapped(self, status: i32, buffer: Option<Vec<u8>>) -> (password: Result<
        String,
        TouchIdError,
    >)
        ensures
            unlock_next(self@, UnlockAnswer::Shim(status, shim_bytes(buffer)))
                == UnlockState::Done(
                match password {
                    Ok(p) => Ok(p@),
                    Err(e) => Err(e@),
                },
            ),
            password is Ok ==> status == 0,
            status != 0 ==> (password matches Err(e) && e matches TouchIdError::SecureEnclave(
                message,
            ) && message@ == text_of(shim_bytes(buffer))),
            status == 0 && valid_utf8(shim_bytes(buffer)) ==> (password matches Ok(p)
                && encode_utf8(p@) == shim_bytes(buffer)),
            status == 0 && !valid_utf8(shim_bytes(buffer)) ==> (password matches Err(e)
                && e is InvalidPassword),
    {
        proof {
            if valid_utf8(shim_bytes(buffer)) {
                vstd::utf8::decode_utf8_encode_utf8(shim_bytes(buffer));
            }
        }
        match shim_result(status, buffer) {
            Ok(plain) => match strict_text(plain) {
                Some(password) => Ok(password),
                None => Err(TouchIdError::InvalidPassword),
            },
            Err(error) => Err(error),
        }
    }
}

} // verus!
