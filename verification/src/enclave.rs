//! Answers of the Secure Enclave shim.
//!
//! Each call of the shim answers with a status and a buffer. A null buffer stands here as `None`.

use vstd::prelude::*;

use crate::error::{Failure, TouchIdError};
use crate::text::{lossy_text, text_of};

verus! {

/// Whether the shim's flag says that this machine has a usable Secure Enclave.
pub fn is_available(flag: i32) -> (available: bool)
    ensures
        available == (flag == 1),
{
    flag == 1
}

/// The bytes of a shim buffer: none where the shim set no buffer.
pub open spec fn shim_bytes(buffer: Option<Vec<u8>>) -> Seq<u8> {
    match buffer {
        Some(bytes) => bytes@,
        None => Seq::empty(),
    }
}

/// What a shim answer says: data under status 0, an error message under any other.
pub open spec fn shim_outcome(status: i32, bytes: Seq<u8>) -> Result<Seq<u8>, Failure> {
    if status == 0 {
        Ok(bytes)
    } else {
        Err(Failure::SecureEnclave(text_of(bytes)))
    }
}

/// Interprets a shim result buffer as data or an error message.
pub fn shim_result(status: i32, buffer: Option<Vec<u8>>) -> (result: Result<Vec<u8>, TouchIdError>)
    ensures
        match result {
            Ok(data) => shim_outcome(status, shim_bytes(buffer)) == Ok::<Seq<u8>, Failure>(data@),
            Err(e) => shim_outcome(status, shim_bytes(buffer)) == Err::<Seq<u8>, Failure>(e@),
        },
        status == 0 <==> result is Ok,
        result matches Ok(data) ==> match buffer {
            Some(bytes) => data@ == bytes@,
            None => data@.len() == 0,
        },
        result matches Err(e) ==> e matches TouchIdError::SecureEnclave(message) && match buffer {
            Some(bytes) => message@ == text_of(bytes@),
            None => message@.len() == 0,
        },
{
    let bytes = match buffer {
        Some(bytes) => bytes,
        None => Vec::new(),
    };
    if status == 0 {
        Ok(bytes)
    } else {
        Err(TouchIdError::SecureEnclave(lossy_text(bytes.as_slice())))
    }
}

} // verus!
