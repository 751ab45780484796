//! Enrolling a keystore.
//!
//! Enrollment asks five things of the machine it runs on, one after the other: the enclave is to
//! create a wrap key ([`CreateKey`]) and to seal the password with it ([`SealPassword`]); the file
//! system is to open the sidecar file ([`OpenSidecar`]), to close it to everybody but its owner
//! ([`RestrictSidecar`]), and only then to take the sidecar ([`WriteSidecar`]). Each of these types
//! holds what is to be asked; its method takes the answer and gives the next step, so that nothing
//! more is asked once something went wrong.

use vstd::prelude::*;
use vstd::utf8::encode_utf8;

use crate::enclave::{shim_bytes, shim_outcome, shim_result};
use crate::error::{Failure, TouchIdError};
use crate::hex::hex_encoded;
use crate::path::{sidecar_path, spec_sidecar_path};
use crate::policy::{policy_code, Policy};
use crate::sidecar::{sidecar_of, Sidecar, SidecarView, SIDECAR_MODE, SIDECAR_VERSION};
use crate::text::text_of;

verus! {

/// First step: have the enclave create a wrap key under the policy that `policy_code` stands for.
pub struct CreateKey {
    pub policy_code: i32,
    /// The policy that the sidecar will record.
    pub policy: Policy,
    /// The password to seal, as bytes.
    pub plain: Vec<u8>,
    /// Where the sidecar will be kept.
    pub path: Vec<u8>,
}

/// Second step: have the enclave seal `plain` with the wrap key `se_key`.
pub struct SealPassword {
    pub se_key: Vec<u8>,
    pub plain: Vec<u8>,
    /// The policy that the sidecar will record.
    pub policy: Policy,
    /// Where the sidecar will be kept.
    pub path: Vec<u8>,
}

/// Third step: open the file at `path` for writing, empty it if it is there, and create it with the
/// permissions `mode` if it is not.
pub struct OpenSidecar {
    pub path: Vec<u8>,
    pub mode: u32,
    /// What the file will be given to hold.
    pub sidecar: Sidecar,
}

/// Fourth step: give the file that was opened the permissions `mode`, which creating it does only
/// for a file that was not there before.
pub struct RestrictSidecar {
    pub mode: u32,
    /// Where the opened file is.
    pub path: Vec<u8>,
    /// What the file will be given to hold.
    pub sidecar: Sidecar,
}

/// Fifth step: write `sidecar` to the file that was opened.
pub struct WriteSidecar {
    pub sidecar: Sidecar,
    /// Where the opened file is.
    pub path: Vec<u8>,
}

/// Where an enrollment stands.
pub enum EnrollState {
    Create { policy_code: i32, policy: Policy, plain: Seq<u8>, path: Seq<u8> },
    Seal { se_key: Seq<u8>, plain: Seq<u8>, policy: Policy, path: Seq<u8> },
    Open { path: Seq<u8>, mode: u32, sidecar: SidecarView },
    Restrict { path: Seq<u8>, mode: u32, sidecar: SidecarView },
    Write { path: Seq<u8>, sidecar: SidecarView },
    Done(Result<(), Failure>),
}

/// What an enrollment is answered.
pub enum EnrollAnswer {
    /// Status and bytes, from the enclave.
    Shim(i32, Seq<u8>),
    /// Whether the file system did what it was asked.
    File(Result<(), std::io::Error>),
}

/// The state in which an enrollment starts.
pub open spec fn enroll_start(
    keystore: Seq<u8>,
    password: Seq<char>,
    policy: Policy,
) -> EnrollState {
    EnrollState::Create {
        policy_code: policy_code(policy),
        policy,
        plain: encode_utf8(password),
        path: spec_sidecar_path(keystore),
    }
}

/// The state that an answer leads to. An answer to a question that was not asked changes nothing.
pub open spec fn enroll_next(state: EnrollState, answer: EnrollAnswer) -> EnrollState {
    match (state, answer) {
        (
            EnrollState::Create { policy_code: _, policy, plain, path },
            EnrollAnswer::Shim(status, bytes),
        ) => match shim_outcome(status, bytes) {
            Ok(se_key) => EnrollState::Seal { se_key, plain, policy, path },
            Err(failure) => EnrollState::Done(Err(failure)),
        },
        (
            EnrollState::Seal { se_key, plain: _, policy, path },
            EnrollAnswer::Shim(status, bytes),
        ) => match shim_outcome(status, bytes) {
            Ok(sealed) => EnrollState::Open {
                path,
                mode: SIDECAR_MODE,
                sidecar: sidecar_of(policy, se_key, sealed),
            },
            Err(failure) => EnrollState::Done(Err(failure)),
        },
        (EnrollState::Open { path, mode, sidecar }, EnrollAnswer::File(outcome)) => match outcome {
            Ok(()) => EnrollState::Restrict { path, mode, sidecar },
            Err(error) => EnrollState::Done(Err(Failure::Io(error))),
        },
        (
            EnrollState::Restrict { path, mode: _, sidecar },
            EnrollAnswer::File(outcome),
        ) => match outcome {
            Ok(()) => EnrollState::Write { path, sidecar },
            Err(error) => EnrollState::Done(Err(Failure::Io(error))),
        },
        (EnrollState::Write { .. }, EnrollAnswer::File(outcome)) => EnrollState::Done(
            match outcome {
                Ok(()) => Ok(()),
                Err(error) => Err(Failure::Io(error)),
            },
        ),
        _ => state,
    }
}

impl View for CreateKey {
    type V = EnrollState;

    open spec fn view(&self) -> EnrollState {
        EnrollState::Create {
            policy_code: self.policy_code,
            policy: self.policy,
            plain: self.plain@,
            path: self.path@,
        }
    }
}

impl View for SealPassword {
    type V = EnrollState;

    open spec fn view(&self) -> EnrollState {
        EnrollState::Seal {
            se_key: self.se_key@,
            plain: self.plain@,
            policy: self.policy,
            path: self.path@,
        }
    }
}

impl View for OpenSidecar {
    type V = EnrollState;

    open spec fn view(&self) -> EnrollState {
        EnrollState::Open { path: self.path@, mode: self.mode, sidecar: self.sidecar@ }
    }
}

impl View for RestrictSidecar {
    type V = EnrollState;

    open spec fn view(&self) -> EnrollState {
        EnrollState::Restrict { path: self.path@, mode: self.mode, sidecar: self.sidecar@ }
    }
}

impl View for WriteSidecar {
    type V = EnrollState;

    open spec fn view(&self) -> EnrollState {
        EnrollState::Write { path: self.path@, sidecar: self.sidecar@ }
    }
}

/// The state that the next step, or an error, leaves an enrollment in.
pub open spec fn enroll_state<S: View<V = EnrollState>>(
    step: Result<S, TouchIdError>,
) -> EnrollState {
    match step {
        Ok(next) => next@,
        Err(e) => EnrollState::Done(Err(e@)),
    }
}

/// Enrolls a keystore: creates a Secure Enclave wrap key under `policy` and stores the wrapped
/// `password` in the sidecar file, replacing any existing sidecar (the previous wrap key and its
/// policy are discarded). The caller is responsible for having verified that `password` decrypts
/// the keystore.
pub fn enroll(keystore: &[u8], password: &str, policy: Policy) -> (step: CreateKey)
    ensures
        step@ == enroll_start(keystore@, password@, policy),
        step.policy_code == policy_code(policy),
        step.policy == policy,
        step.plain@ == encode_utf8(password@),
        step.path@ == spec_sidecar_path(keystore@),
{
    CreateKey {
        policy_code: policy.raw(),
        policy,
        plain: vstd::slice::slice_to_vec(password.as_bytes()),
        path: sidecar_path(keystore),
    }
}

impl CreateKey {
    /// Takes the shim's answer to the request for a wrap key.
    pub fn created(self, status: i32, buffer: Option<Vec<u8>>) -> (step: Result<
        SealPassword,
        TouchIdError,
    >)
        ensures
            enroll_state(step) == enroll_next(
                self@,
                EnrollAnswer::Shim(status, shim_bytes(buffer)),
            ),
            status == 0 <==> step is Ok,
            step matches Ok(next) ==> next.se_key@ == shim_bytes(buffer) && next.plain == self.plain
                && next.policy == self.policy && next.path == self.path,
            step matches Err(e) ==> e matches TouchIdError::SecureEnclave(message) && message@
                == text_of(shim_bytes(buffer)),
    {
        match shim_result(status, buffer) {
            Ok(se_key) => Ok(
                SealPassword { se_key, plain: self.plain, policy: self.policy, path: self.path },
            ),
            Err(error) => Err(error),
        }
    }
}

impl SealPassword {
    /// Takes the shim's answer to the request to seal the password.
    pub fn sealed(self, status: i32, buffer: Option<Vec<u8>>) -> (step: Result<
        OpenSidecar,
        TouchIdError,
    >)
        requires
            status == 0 ==> 2 * self.se_key@.len() <= isize::MAX,
            status == 0 ==> 2 * shim_bytes(buffer).len() <= isize::MAX,
        ensures
            enroll_state(step) == enroll_next(
                self@,
                EnrollAnswer::Shim(status, shim_bytes(buffer)),
            ),
            status == 0 <==> step is Ok,
            step matches Ok(next) ==> next.sidecar.version == SIDECAR_VERSION && next.sidecar.policy
                == self.policy && next.sidecar.se_key@ == hex_encoded(self.se_key@)
                && next.sidecar.sealed_password@ == hex_encoded(shim_bytes(buffer)) && next.path
                == self.path && next.mode == SIDECAR_MODE,
            step matches Err(e) ==> e matches TouchIdError::SecureEnclave(message) && message@
                == text_of(shim_bytes(buffer)),
    {
        match shim_result(status, buffer) {
            Ok(sealed) => Ok(
                OpenSidecar {
                    path: self.path,
                    mode: SIDECAR_MODE,
                    sidecar: Sidecar::new(self.policy, self.se_key.as_slice(), sealed.as_slice()),
                },
            ),
            Err(error) => Err(error),
        }
    }
}

impl OpenSidecar {
    /// Takes the answer whether the file could be opened.
    pub fn opened(self, outcome: Result<(), std::io::Error>) -> (step: Result<
        RestrictSidecar,
        TouchIdError,
    >)
        ensures
            enroll_state(step) == enroll_next(self@, EnrollAnswer::File(outcome)),
            match outcome {
                Ok(()) => step matches Ok(next) && next.mode == self.mode && next.path == self.path
                    && next.sidecar == self.sidecar,
                Err(error) => step matches Err(e) && e == TouchIdError::Io(error),
            },
    {
        match outcome {
            Ok(()) => Ok(
                RestrictSidecar { mode: self.mode, path: self.path, sidecar: self.sidecar },
            ),
            Err(error) => Err(TouchIdError::Io(error)),
        }
    }
}

impl RestrictSidecar {
    /// Takes the answer whether the file got its permissions.
    pub fn restricted(self, outcome: Result<(), std::io::Error>) -> (step: Result<
        WriteSidecar,
        TouchIdError,
    >)
        ensures
            enroll_state(step) == enroll_next(self@, EnrollAnswer::File(outcome)),
            match outcome {
                Ok(()) => step matches Ok(next) && next.path == self.path && next.sidecar
                    == self.sidecar,
                Err(error) => step matches Err(e) && e == TouchIdError::Io(error),
            },
    {
        match outcome {
            Ok(()) => Ok(WriteSidecar { sidecar: self.sidecar, path: self.path }),
            Err(error) => Err(TouchIdError::Io(error)),
        }
    }
}

impl WriteSidecar {
    /// Takes the answer whether the sidecar could be written: if so, enrollment is done.
    pub fn written(self, outcome: Result<(), std::io::Error>) -> (result: Result<(), TouchIdError>)
        ensures
            enroll_next(self@, EnrollAnswer::File(outcome)) == EnrollState::Done(
                match result {
                    Ok(()) => Ok(()),
                    Err(e) => Err(e@),
                },
            ),
            match outcome {
                Ok(()) => result is Ok,
                Err(error) => result matches Err(e) && e == TouchIdError::Io(error),
            },
    {
        match outcome {
            Ok(()) => Ok(()),
            Err(error) => Err(TouchIdError::Io(error)),
        }
    }
}

} // verus!
