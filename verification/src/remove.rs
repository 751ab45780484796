//! Asking after a sidecar, and removing it.

use vstd::prelude::*;

use crate::error::{Failure, TouchIdError};
use crate::path::{sidecar_path, spec_sidecar_path};

verus! {

/// The question whether a keystore is enrolled: is there a file at `path`?
pub struct EnrolledQuery {
    pub path: Vec<u8>,
}

/// Whether the keystore has a Touch ID sidecar.
pub fn is_enrolled(keystore: &[u8]) -> (query: EnrolledQuery)
    ensures
        query.path@ == spec_sidecar_path(keystore@),
{
    EnrolledQuery { path: sidecar_path(keystore) }
}

impl EnrolledQuery {
    /// A keystore is enrolled exactly where its sidecar is there.
    pub fn found(self, present: bool) -> (enrolled: bool)
        ensures
            enrolled == present,
    {
        present
    }
}

/// First step of a removal: see whether there is a file at `path`.
pub struct FindRemoved {
    pub path: Vec<u8>,
}

/// Second step of a removal: delete the file at `path`.
pub struct DeleteSidecar {
    pub path: Vec<u8>,
}

/// How a removal goes on once it is known whether there is a sidecar.
pub enum Removal {
    /// The sidecar is to be deleted.
    Delete(DeleteSidecar),
    /// It is over; there was a sidecar if `existed`.
    Done { existed: bool },
}

/// Where a removal stands.
pub enum RemoveState {
    Find { path: Seq<u8> },
    Delete { path: Seq<u8> },
    /// It is over, and tells whether there was a sidecar.
    Done(Result<bool, Failure>),
}

/// What a removal is answered.
pub enum RemoveAnswer {
    /// Whether the sidecar is there.
    Present(bool),
    /// Whether it could be deleted.
    Deleted(Result<(), std::io::Error>),
}

/// The state in which a removal starts.
pub open spec fn remove_start(keystore: Seq<u8>) -> RemoveState {
    RemoveState::Find { path: spec_sidecar_path(keystore) }
}

/// The state that an answer leads to. An answer to a question that was not asked changes nothing.
pub open spec fn remove_next(state: RemoveState, answer: RemoveAnswer) -> RemoveState {
    match (state, answer) {
        (RemoveState::Find { path }, RemoveAnswer::Present(present)) => if present {
            RemoveState::Delete { path }
        } else {
            RemoveState::Done(Ok(false))
        },
        (RemoveState::Delete { .. }, RemoveAnswer::Deleted(Ok(()))) => RemoveState::Done(Ok(true)),
        (RemoveState::Delete { .. }, RemoveAnswer::Deleted(Err(error))) => RemoveState::Done(
            Err(Failure::Io(error)),
        ),
        _ => state,
    }
}

impl View for FindRemoved {
    type V = RemoveState;

    open spec fn view(&self) -> RemoveState {
        RemoveState::Find { path: self.path@ }
    }
}

impl View for DeleteSidecar {
    type V = RemoveState;

    open spec fn view(&self) -> RemoveState {
        RemoveState::Delete { path: self.path@ }
    }
}

impl View for Removal {
    type V = RemoveState;

    open spec fn view(&self) -> RemoveState {
        match *self {
            Removal::Delete(step) => step@,
            Removal::Done { existed } => RemoveState::Done(Ok(existed)),
        }
    }
}

/// Removes the keystore's sidecar, if any. Returns whether one existed.
pub fn remove(keystore: &[u8]) -> (step: FindRemoved)
    ensures
        step@ == remove_start(keystore@),
        step.path@ == spec_sidecar_path(keystore@),
{
    FindRemoved { path: sidecar_path(keystore) }
}

impl FindRemoved {
    /// Takes the answer whether the sidecar is there.
    pub fn found(self, present: bool) -> (step: Removal)
        ensures
            step@ == remove_next(self@, RemoveAnswer::Present(present)),
            match step {
                Removal::Delete(next) => present && next.path == self.path,
                Removal::Done { existed } => !present && !existed,
            },
    {
        if present {
            Removal::Delete(DeleteSidecar { path: self.path })
        } else {
            Removal::Done { existed: false }
        }
    }
}

impl DeleteSidecar {
    /// Takes the answer of the file system: the sidecar existed, unless it could not be deleted.
    pub fn deleted(self, outcome: Result<(), std::io::Error>) -> (existed: Result<
        bool,
        TouchIdError,
    >)
        ensures
            remove_next(self@, RemoveAnswer::Deleted(outcome)) == RemoveState::Done(
                match existed {
                    Ok(b) => Ok(b),
                    Err(e) => Err(e@),
                },
            ),
            match outcome {
                Ok(()) => existed matches Ok(b) && b,
                Err(error) => existed matches Err(e) && e == TouchIdError::Io(error),
            },
    {
        match outcome {
            Ok(()) => Ok(true),
            Err(error) => Err(TouchIdError::Io(error)),
        }
    }
}

} // verus!
