//! What holds of enrolling, unlocking and removing taken together.
//!
//! The laws are about a machine with a disk, an enclave and a JSON library, on which the steps of
//! this crate are taken to their end, each question being answered as the machine answers it.

use vstd::prelude::*;
use vstd::utf8::{encode_utf8, valid_utf8};

use crate::enclave::{shim_bytes, shim_outcome};
use crate::enroll::{enroll_next, enroll_start, EnrollAnswer, EnrollState};
use crate::error::{Failure, HexError};
use crate::hex::{decode_inverts_encode, hex_decoded, hex_encoded};
use crate::path::{
    component_start,
    file_name_in_directory,
    lemma_component_start,
    lemma_start_before_suffix,
    sidecar_suffix,
    spec_file_name,
    spec_sidecar_path,
    DOT,
    SEPARATOR,
};
use crate::policy::{policy_code, Policy};
use crate::remove::{remove_next, remove_start, RemoveAnswer, RemoveState};
use crate::sidecar::{sidecar_of, sidecar_secrets, SidecarView, SIDECAR_MODE, SIDECAR_VERSION};
use crate::text::{text_of, utf8_lossy};
use crate::unlock::{
    unlock_next,
    unlock_reason,
    unlock_start,
    version_gate,
    UnlockAnswer,
    UnlockState,
};

verus! {

/// A file: its permissions and its text.
pub struct File {
    pub mode: u32,
    pub text: Seq<char>,
}

/// The files on a disk that can be seen, by their paths.
pub type Files = Map<Seq<u8>, File>;

/// How a machine answers. The answers of the enclave are a status and bytes. What the file system
/// is asked to do it may fail to do.
pub struct Machine {
    /// The enclave's answer to a request for a wrap key under a policy.
    pub create: spec_fn(i32) -> (i32, Seq<u8>),
    /// The enclave's answer to the request to seal bytes with a wrap key.
    pub seal: spec_fn(Seq<u8>, Seq<u8>) -> (i32, Seq<u8>),
    /// The enclave's answer to the request to unwrap sealed bytes with a wrap key, for a reason.
    pub unwrap: spec_fn(Seq<u8>, Seq<u8>, Seq<char>) -> (i32, Seq<u8>),
    /// Whether the file at a path can be opened for writing. If so it is empty then.
    pub open: spec_fn(Seq<u8>) -> Result<(), std::io::Error>,
    /// The permissions that a new file gets which is created with some.
    pub new_mode: spec_fn(u32) -> u32,
    /// Whether the opened file can be given other permissions.
    pub restrict: spec_fn(Seq<u8>) -> Result<(), std::io::Error>,
    /// The text that is in an empty file once a sidecar was written to it, and whether all was
    /// written.
    pub write: spec_fn(SidecarView) -> (Seq<char>, Result<(), std::io::Error>),
    /// Whether a file that is there can be read.
    pub read: spec_fn(Seq<u8>) -> Result<(), std::io::Error>,
    /// The version read from a text.
    pub read_version: spec_fn(Seq<char>) -> Result<u32, serde_json::Error>,
    /// The sidecar read from a text.
    pub read_sidecar: spec_fn(Seq<char>) -> Result<SidecarView, serde_json::Error>,
    /// Whether a file that is there can be deleted.
    pub delete: spec_fn(Seq<u8>) -> Result<(), std::io::Error>,
}

/// The wrap key that the enclave makes for `policy`.
pub open spec fn key_for(machine: Machine, policy: Policy) -> Seq<u8> {
    (machine.create)(policy_code(policy)).1
}

/// What the enclave makes of `password` with the wrap key for `policy`.
pub open spec fn sealed_for(machine: Machine, password: Seq<char>, policy: Policy) -> Seq<u8> {
    (machine.seal)(key_for(machine, policy), encode_utf8(password)).1
}

/// The sidecar that an enrollment of `password` under `policy` stores.
pub open spec fn sidecar_for(machine: Machine, password: Seq<char>, policy: Policy) -> SidecarView {
    sidecar_of(policy, key_for(machine, policy), sealed_for(machine, password, policy))
}

/// The file at `path` once it has been opened for writing.
pub open spec fn opened(machine: Machine, files: Files, path: Seq<u8>, mode: u32) -> File {
    File {
        mode: if files.contains_key(path) {
            files[path].mode
        } else {
            (machine.new_mode)(mode)
        },
        text: Seq::empty(),
    }
}

/// How many answers an enrollment still waits for at most.
pub open spec fn enroll_rank(state: EnrollState) -> nat {
    match state {
        EnrollState::Create { .. } => 5,
        EnrollState::Seal { .. } => 4,
        EnrollState::Open { .. } => 3,
        EnrollState::Restrict { .. } => 2,
        EnrollState::Write { .. } => 1,
        EnrollState::Done(_) => 0,
    }
}

/// The files and the result once an enrollment is taken to its end.
pub open spec fn run_enroll(machine: Machine, files: Files, state: EnrollState) -> (
    Files,
    Result<(), Failure>,
)
    decreases enroll_rank(state),
{
    match state {
        EnrollState::Create { policy_code, .. } => {
            let (status, bytes) = (machine.create)(policy_code);
            run_enroll(machine, files, enroll_next(state, EnrollAnswer::Shim(status, bytes)))
        },
        EnrollState::Seal { se_key, plain, .. } => {
            let (status, bytes) = (machine.seal)(se_key, plain);
            run_enroll(machine, files, enroll_next(state, EnrollAnswer::Shim(status, bytes)))
        },
        EnrollState::Open { path, mode, sidecar: _ } => {
            let outcome = (machine.open)(path);
            let after = if outcome is Ok {
                files.insert(path, opened(machine, files, path, mode))
            } else {
                files
            };
            run_enroll(machine, after, enroll_next(state, EnrollAnswer::File(outcome)))
        },
        EnrollState::Restrict { path, mode, sidecar: _ } => {
            let outcome = (machine.restrict)(path);
            let after = if outcome is Ok {
                files.insert(path, File { mode, text: files[path].text })
            } else {
                files
            };
            run_enroll(machine, after, enroll_next(state, EnrollAnswer::File(outcome)))
        },
        EnrollState::Write { path, sidecar } => {
            let (text, outcome) = (machine.write)(sidecar);
            let after = files.insert(path, File { mode: files[path].mode, text });
            run_enroll(machine, after, enroll_next(state, EnrollAnswer::File(outcome)))
        },
        EnrollState::Done(result) => (files, result),
    }
}

/// How many answers an unlocking still waits for at most.
pub open spec fn unlock_rank(state: UnlockState) -> nat {
    match state {
        UnlockState::Find { .. } => 5,
        UnlockState::Read { .. } => 4,
        UnlockState::Version { .. } => 3,
        UnlockState::Parse { .. } => 2,
        UnlockState::Unwrap { .. } => 1,
        UnlockState::Done(_) => 0,
    }
}

/// The result once an unlocking is taken to its end. No file changes.
pub open spec fn run_unlock(machine: Machine, files: Files, state: UnlockState) -> Result<
    Seq<char>,
    Failure,
>
    decreases unlock_rank(state),
{
    match state {
        UnlockState::Find { path, .. } => run_unlock(
            machine,
            files,
            unlock_next(state, UnlockAnswer::Present(files.contains_key(path))),
        ),
        UnlockState::Read { path, .. } => run_unlock(
            machine,
            files,
            unlock_next(
                state,
                UnlockAnswer::Text(
                    match (machine.read)(path) {
                        Ok(()) => Ok(files[path].text),
                        Err(error) => Err(error),
                    },
                ),
            ),
        ),
        UnlockState::Version { raw, .. } => run_unlock(
            machine,
            files,
            unlock_next(state, UnlockAnswer::Version((machine.read_version)(raw))),
        ),
        UnlockState::Parse { raw, .. } => run_unlock(
            machine,
            files,
            unlock_next(state, UnlockAnswer::Parsed((machine.read_sidecar)(raw))),
        ),
        UnlockState::Unwrap { se_key, sealed, reason } => {
            let (status, bytes) = (machine.unwrap)(se_key, sealed, reason);
            run_unlock(machine, files, unlock_next(state, UnlockAnswer::Shim(status, bytes)))
        },
        UnlockState::Done(result) => result,
    }
}

/// How many answers a removal still waits for at most.
pub open spec fn remove_rank(state: RemoveState) -> nat {
    match state {
        RemoveState::Find { .. } => 2,
        RemoveState::Delete { .. } => 1,
        RemoveState::Done(_) => 0,
    }
}

/// The files and the result once a removal is taken to its end.
pub open spec fn run_remove(machine: Machine, files: Files, state: RemoveState) -> (
    Files,
    Result<bool, Failure>,
)
    decreases remove_rank(state),
{
    match state {
        RemoveState::Find { path } => run_remove(
            machine,
            files,
            remove_next(state, RemoveAnswer::Present(files.contains_key(path))),
        ),
        RemoveState::Delete { path } => {
            let outcome = (machine.delete)(path);
            let after = if outcome is Ok {
                files.remove(path)
            } else {
                files
            };
            run_remove(machine, after, remove_next(state, RemoveAnswer::Deleted(outcome)))
        },
        RemoveState::Done(result) => (files, result),
    }
}

/// Whether `keystore` is enrolled, on a disk with these files.
pub open spec fn enrolled(files: Files, keystore: Seq<u8>) -> bool {
    files.contains_key(spec_sidecar_path(keystore))
}

/// What enrolling `keystore` comes to.
pub open spec fn enrolling(
    machine: Machine,
    files: Files,
    keystore: Seq<u8>,
    password: Seq<char>,
    policy: Policy,
) -> (Files, Result<(), Failure>) {
    run_enroll(machine, files, enroll_start(keystore, password, policy))
}

/// What unlocking `keystore` comes to.
pub open spec fn unlocking(machine: Machine, files: Files, keystore: Seq<u8>) -> Result<
    Seq<char>,
    Failure,
> {
    run_unlock(machine, files, unlock_start(keystore))
}

/// What removing the sidecar of `keystore` comes to.
pub open spec fn removing(machine: Machine, files: Files, keystore: Seq<u8>) -> (
    Files,
    Result<bool, Failure>,
) {
    run_remove(machine, files, remove_start(keystore))
}

/// The enclave gets back, byte for byte, the wrap key and the sealed password that it gave when
/// the keystore was enrolled, and the sidecar passes as one of the current format.
pub proof fn sidecar_keeps_secrets(policy: Policy, se_key: Seq<u8>, sealed: Seq<u8>)
    ensures
        sidecar_secrets(sidecar_of(policy, se_key, sealed)) == Ok::<(Seq<u8>, Seq<u8>), HexError>(
            (se_key, sealed),
        ),
        version_gate(sidecar_of(policy, se_key, sealed).version) is Ok,
{
    decode_inverts_encode(se_key);
    decode_inverts_encode(sealed);
}

/// What an enrollment comes to, whatever fails. It fails exactly where the enclave refuses one of
/// its two requests or the file system one of its three, with what was answered. Until the file
/// was opened nothing on the disk has changed; from then on an earlier sidecar is gone.
pub proof fn enroll_stores_or_fails(
    machine: Machine,
    files: Files,
    keystore: Seq<u8>,
    password: Seq<char>,
    policy: Policy,
)
    ensures
        ({
            let path = spec_sidecar_path(keystore);
            let (created, se_key) = (machine.create)(policy_code(policy));
            let (status, sealed) = (machine.seal)(se_key, encode_utf8(password));
            let (text, written) = (machine.write)(sidecar_of(policy, se_key, sealed));
            enrolling(machine, files, keystore, password, policy) == if created != 0 {
                (files, Err(Failure::SecureEnclave(text_of(se_key))))
            } else if status != 0 {
                (files, Err(Failure::SecureEnclave(text_of(sealed))))
            } else {
                match ((machine.open)(path), (machine.restrict)(path), written) {
                    (Err(error), _, _) => (files, Err(Failure::Io(error))),
                    (Ok(()), Err(error), _) => (
                        files.insert(path, opened(machine, files, path, SIDECAR_MODE)),
                        Err(Failure::Io(error)),
                    ),
                    (Ok(()), Ok(()), Err(error)) => (
                        files.insert(path, File { mode: SIDECAR_MODE, text }),
                        Err(Failure::Io(error)),
                    ),
                    (Ok(()), Ok(()), Ok(())) => (
                        files.insert(path, File { mode: SIDECAR_MODE, text }),
                        Ok::<(), Failure>(()),
                    ),
                }
            }
        }),
{
    reveal_with_fuel(run_enroll, 6);
    let path = spec_sidecar_path(keystore);
    let (_, se_key) = (machine.create)(policy_code(policy));
    let (_, sealed) = (machine.seal)(se_key, encode_utf8(password));
    let (text, _) = (machine.write)(sidecar_of(policy, se_key, sealed));
    let one = files.insert(path, opened(machine, files, path, SIDECAR_MODE));
    let two = one.insert(path, File { mode: SIDECAR_MODE, text: one[path].text });
    let three = two.insert(path, File { mode: two[path].mode, text });
    assert(three =~= files.insert(path, File { mode: SIDECAR_MODE, text }));
}

/// A sidecar is written only to a file whose permissions have been set: the step that writes
/// follows on nothing but that.
pub proof fn writing_follows_restricting(state: EnrollState, answer: EnrollAnswer)
    requires
        enroll_next(state, answer) is Write,
        state !is Write,
    ensures
        state is Restrict,
        answer matches EnrollAnswer::File(outcome) && outcome is Ok,
{
}

/// Every step of an enrollment keeps that the permissions asked for are those of the owner alone.
pub proof fn permissions_are_the_owners(state: EnrollState, answer: EnrollAnswer)
    requires
        state matches EnrollState::Open { mode, .. } ==> mode == SIDECAR_MODE,
        state matches EnrollState::Restrict { mode, .. } ==> mode == SIDECAR_MODE,
    ensures
        enroll_next(state, answer) matches EnrollState::Open { mode, .. } ==> mode == SIDECAR_MODE,
        enroll_next(state, answer) matches EnrollState::Restrict { mode, .. } ==> mode
            == SIDECAR_MODE,
{
}

/// However an enrollment ends, the keystore's sidecar file is as it was before, or is empty, or is
/// closed to everybody but its owner.
pub proof fn secrets_are_stored_privately(
    machine: Machine,
    files: Files,
    keystore: Seq<u8>,
    password: Seq<char>,
    policy: Policy,
)
    ensures
        ({
            let path = spec_sidecar_path(keystore);
            let after = enrolling(machine, files, keystore, password, policy).0;
            ||| after == files
            ||| after.contains_key(path) && after[path].text.len() == 0
            ||| after.contains_key(path) && after[path].mode == SIDECAR_MODE
        }),
{
    enroll_stores_or_fails(machine, files, keystore, password, policy);
}

/// Unlocking gives back the password that was enrolled, under whatever policy and whatever was on
/// the disk before, as long as the sidecar has not changed since and can be read. It takes that
/// the JSON library reads this one sidecar back as it was written, and that the enclave unwraps
/// this one password with the key it was sealed with; of other keys, passwords and files nothing
/// is taken.
pub proof fn unlock_inverts_enroll(
    machine: Machine,
    files: Files,
    keystore: Seq<u8>,
    password: Seq<char>,
    policy: Policy,
    later: Files,
)
    requires
        enrolling(machine, files, keystore, password, policy).1 is Ok,
        enrolled(later, keystore),
        later[spec_sidecar_path(keystore)].text == enrolling(
            machine,
            files,
            keystore,
            password,
            policy,
        ).0[spec_sidecar_path(keystore)].text,
        (machine.read)(spec_sidecar_path(keystore)) is Ok,
        ({
            let sidecar = sidecar_for(machine, password, policy);
            let text = (machine.write)(sidecar).0;
            &&& (machine.read_version)(text) == Ok::<u32, serde_json::Error>(sidecar.version)
            &&& (machine.read_sidecar)(text) == Ok::<SidecarView, serde_json::Error>(sidecar)
        }),
        (machine.unwrap)(
            key_for(machine, policy),
            sealed_for(machine, password, policy),
            unlock_reason(keystore),
        ) == (0i32, encode_utf8(password)),
    ensures
        unlocking(machine, later, keystore) == Ok::<Seq<char>, Failure>(password),
{
    reveal_with_fuel(run_unlock, 6);
    enroll_stores_or_fails(machine, files, keystore, password, policy);
    sidecar_keeps_secrets(
        policy,
        key_for(machine, policy),
        sealed_for(machine, password, policy),
    );
    vstd::utf8::encode_utf8_valid_utf8(password);
    vstd::utf8::encode_utf8_decode_utf8(password);
}

/// A keystore that could be enrolled is enrolled, in a file that is its owner's alone.
pub proof fn enroll_makes_enrolled(
    machine: Machine,
    files: Files,
    keystore: Seq<u8>,
    password: Seq<char>,
    policy: Policy,
)
    requires
        enrolling(machine, files, keystore, password, policy).1 is Ok,
    ensures
        enrolled(enrolling(machine, files, keystore, password, policy).0, keystore),
        enrolling(machine, files, keystore, password, policy).0[spec_sidecar_path(keystore)].mode
            == SIDECAR_MODE,
{
    enroll_stores_or_fails(machine, files, keystore, password, policy);
}

/// However an enrollment ends, no file but the keystore's sidecar has changed.
pub proof fn enroll_touches_one_file(
    machine: Machine,
    files: Files,
    keystore: Seq<u8>,
    password: Seq<char>,
    policy: Policy,
    other: Seq<u8>,
)
    requires
        other != spec_sidecar_path(keystore),
    ensures
        enrolling(machine, files, keystore, password, policy).0.contains_key(other)
            == files.contains_key(other),
        enrolling(machine, files, keystore, password, policy).0[other] == files[other],
{
    enroll_stores_or_fails(machine, files, keystore, password, policy);
}

/// Enrolling again leaves no trace of the enrollment before it, however that one ended.
pub proof fn enroll_replaces(
    machine: Machine,
    files: Files,
    keystore: Seq<u8>,
    first: (Seq<char>, Policy),
    second: (Seq<char>, Policy),
)
    requires
        enrolling(machine, files, keystore, second.0, second.1).1 is Ok,
    ensures
        ({
            let between = enrolling(machine, files, keystore, first.0, first.1).0;
            enrolling(machine, between, keystore, second.0, second.1) == enrolling(
                machine,
                files,
                keystore,
                second.0,
                second.1,
            )
        }),
{
    let between = enrolling(machine, files, keystore, first.0, first.1).0;
    enroll_stores_or_fails(machine, files, keystore, first.0, first.1);
    enroll_stores_or_fails(machine, files, keystore, second.0, second.1);
    enroll_stores_or_fails(machine, between, keystore, second.0, second.1);
    assert(enrolling(machine, between, keystore, second.0, second.1).0 =~= enrolling(
        machine,
        files,
        keystore,
        second.0,
        second.1,
    ).0);
}

/// What a removal comes to, whatever fails: it deletes the sidecar and no other file, and tells
/// whether there was one; where the file system refuses to delete it, it says why and no file has
/// changed.
pub proof fn remove_deletes_or_fails(machine: Machine, files: Files, keystore: Seq<u8>)
    ensures
        removing(machine, files, keystore) == if enrolled(files, keystore) {
            match (machine.delete)(spec_sidecar_path(keystore)) {
                Ok(()) => (
                    files.remove(spec_sidecar_path(keystore)),
                    Ok::<bool, Failure>(true),
                ),
                Err(error) => (files, Err(Failure::Io(error))),
            }
        } else {
            (files, Ok::<bool, Failure>(false))
        },
{
    reveal_with_fuel(run_remove, 3);
}

/// A keystore is no longer enrolled after a removal that did not fail.
pub proof fn remove_makes_not_enrolled(machine: Machine, files: Files, keystore: Seq<u8>)
    requires
        removing(machine, files, keystore).1 is Ok,
    ensures
        !enrolled(removing(machine, files, keystore).0, keystore),
{
    remove_deletes_or_fails(machine, files, keystore);
}

/// A removal that does not fail undoes the enrollment of a keystore that was not enrolled before,
/// however that enrollment ended.
pub proof fn remove_inverts_enroll(
    machine: Machine,
    files: Files,
    keystore: Seq<u8>,
    password: Seq<char>,
    policy: Policy,
)
    requires
        !enrolled(files, keystore),
        removing(
            machine,
            enrolling(machine, files, keystore, password, policy).0,
            keystore,
        ).1 is Ok,
    ensures
        removing(
            machine,
            enrolling(machine, files, keystore, password, policy).0,
            keystore,
        ).0 == files,
{
    let between = enrolling(machine, files, keystore, password, policy).0;
    enroll_stores_or_fails(machine, files, keystore, password, policy);
    remove_deletes_or_fails(machine, between, keystore);
    assert(removing(machine, between, keystore).0 =~= files);
}

/// Unlocking a keystore that is not enrolled says so, and only unlocking such a keystore does.
pub proof fn unlock_needs_enrollment(machine: Machine, files: Files, keystore: Seq<u8>)
    ensures
        !enrolled(files, keystore) <==> unlocking(machine, files, keystore) == Err::<
            Seq<char>,
            Failure,
        >(Failure::NotEnrolled),
{
    reveal_with_fuel(run_unlock, 6);
}

/// Unlocking fails with the file system's error where the sidecar is there and cannot be read.
pub proof fn unreadable_sidecar_is_reported(
    machine: Machine,
    files: Files,
    keystore: Seq<u8>,
    error: std::io::Error,
)
    requires
        enrolled(files, keystore),
        (machine.read)(spec_sidecar_path(keystore)) == Err::<(), std::io::Error>(error),
    ensures
        unlocking(machine, files, keystore) == Err::<Seq<char>, Failure>(Failure::Io(error)),
{
    reveal_with_fuel(run_unlock, 6);
}

/// A sidecar of another format version, if it can be read, is answered with that version, whatever
/// else it holds: also where the rest of it is not what this format expects.
pub proof fn other_version_is_reported(
    machine: Machine,
    files: Files,
    keystore: Seq<u8>,
    version: u32,
)
    requires
        enrolled(files, keystore),
        (machine.read)(spec_sidecar_path(keystore)) is Ok,
        (machine.read_version)(files[spec_sidecar_path(keystore)].text) == Ok::<
            u32,
            serde_json::Error,
        >(version),
        version != SIDECAR_VERSION,
    ensures
        unlocking(machine, files, keystore) == Err::<Seq<char>, Failure>(
            Failure::UnsupportedVersion(version),
        ),
{
    reveal_with_fuel(run_unlock, 6);
}

/// Unlocking depends on the text of the keystore's own sidecar and on nothing else on the disk. As
/// it changes no file, unlocking again gives the same.
pub proof fn unlock_reads_one_file(
    machine: Machine,
    one: Files,
    other: Files,
    keystore: Seq<u8>,
)
    requires
        enrolled(one, keystore) == enrolled(other, keystore),
        one[spec_sidecar_path(keystore)].text == other[spec_sidecar_path(keystore)].text,
    ensures
        unlocking(machine, one, keystore) == unlocking(machine, other, keystore),
{
    reveal_with_fuel(run_unlock, 6);
}

/// Two keystores never share a sidecar.
pub proof fn sidecars_are_apart(one: Seq<u8>, other: Seq<u8>)
    requires
        one != other,
    ensures
        spec_sidecar_path(one) != spec_sidecar_path(other),
{
    let p = spec_sidecar_path(one);
    let q = spec_sidecar_path(other);
    if p == q {
        assert(one =~= p.take(p.len() - sidecar_suffix().len()));
        assert(other =~= q.take(q.len() - sidecar_suffix().len()));
    }
}

/// A sidecar lies next to its keystore: in the same directory, under the last component of the
/// keystore path with `.touchid` appended.
pub proof fn sidecar_is_next_to_keystore(keystore: Seq<u8>)
    ensures
        component_start(spec_sidecar_path(keystore)) == component_start(keystore),
        spec_sidecar_path(keystore).take(component_start(keystore) as int) == keystore.take(
            component_start(keystore) as int,
        ),
        spec_file_name(spec_sidecar_path(keystore)) == Some(
            keystore.skip(component_start(keystore) as int) + sidecar_suffix(),
        ),
{
    let path = spec_sidecar_path(keystore);
    let start = component_start(keystore) as int;
    lemma_component_start(keystore);
    lemma_start_before_suffix(keystore, sidecar_suffix());
    assert(path.take(start) =~= keystore.take(start));
    let last = keystore.skip(start) + sidecar_suffix();
    assert(path.skip(start) =~= last);
    assert(last.len() >= 8);
}

/// The user is told the name of the keystore, as it is, when it is text without a NUL.
pub proof fn reason_names_the_keystore(directory: Seq<u8>, name: Seq<char>)
    requires
        forall|i: int| 0 <= i < encode_utf8(name).len() ==> encode_utf8(name)[i] != SEPARATOR,
        encode_utf8(name).len() > 0,
        encode_utf8(name) != seq![DOT],
        encode_utf8(name) != seq![DOT, DOT],
        !name.contains('\0'),
    ensures
        unlock_reason(directory.push(SEPARATOR) + encode_utf8(name)) == "unlock the `"@ + name
            + "` keystore"@,
{
    file_name_in_directory(directory, encode_utf8(name));
    vstd::utf8::encode_utf8_valid_utf8(name);
    vstd::utf8::encode_utf8_decode_utf8(name);
    reveal_strlit("unlock the `");
    reveal_strlit("` keystore");
    let sentence = "unlock the `"@ + name + "` keystore"@;
    assert forall|i: int| 0 <= i < sentence.len() implies sentence[i] != '\0' by {
        let before = "unlock the `"@.len() as int;
        if before <= i < before + name.len() {
            assert(name.contains(sentence[i])) by {
                assert(name[i - before] == sentence[i]);
            }
        }
    }
}

/// The enclave can tell the policies apart.
pub proof fn policy_codes_are_distinct(one: Policy, other: Policy)
    requires
        policy_code(one) == policy_code(other),
    ensures
        one == other,
{
}

/// The code of each policy, which the enclave shim goes by.
pub proof fn policy_codes_are_fixed()
    ensures
        policy_code(Policy::DeviceOnly) == 0,
        policy_code(Policy::UserPresence) == 1,
        policy_code(Policy::CurrentBiometry) == 2,
{
}

/// Sidecars are of format 1 and open to their owner alone.
pub proof fn format_is_fixed()
    ensures
        SIDECAR_VERSION == 1,
        SIDECAR_MODE == 0o600,
{
}

/// A sidecar records the policy that it was made for, whichever that is, and its two texts are the
/// digits of the two secrets, each in its own field.
pub proof fn sidecar_records_what_it_was_given(policy: Policy, se_key: Seq<u8>, sealed: Seq<u8>)
    ensures
        sidecar_of(policy, se_key, sealed).policy == policy,
        sidecar_of(policy, se_key, sealed).version == 1,
        sidecar_of(policy, se_key, sealed).se_key == hex_encoded(se_key),
        sidecar_of(policy, se_key, sealed).sealed_password == hex_encoded(sealed),
{
}

/// An enrollment asks for a wrap key under the policy that was given, seals the password that was
/// given with the key that came back, and stores a sidecar with that very policy and with what the
/// enclave gave, next to the keystore.
pub proof fn enroll_stores_what_was_given(
    keystore: Seq<u8>,
    password: Seq<char>,
    policy: Policy,
    se_key: Seq<u8>,
    sealed: Seq<u8>,
)
    ensures
        ({
            let create = enroll_start(keystore, password, policy);
            let seal = enroll_next(create, EnrollAnswer::Shim(0, se_key));
            let open = enroll_next(seal, EnrollAnswer::Shim(0, sealed));
            let restrict = enroll_next(open, EnrollAnswer::File(Ok(())));
            let write = enroll_next(restrict, EnrollAnswer::File(Ok(())));
            &&& create matches EnrollState::Create { policy_code: code, .. } && code == policy_code(
                policy,
            )
            &&& seal matches EnrollState::Seal { se_key: key, plain, .. } && key == se_key && plain
                == encode_utf8(password)
            &&& open matches EnrollState::Open { path, mode, .. } && path == spec_sidecar_path(
                keystore,
            ) && mode == 0o600
            &&& restrict matches EnrollState::Restrict { path, mode, .. } && path
                == spec_sidecar_path(keystore) && mode == 0o600
            &&& write matches EnrollState::Write { path, sidecar } && path == spec_sidecar_path(
                keystore,
            ) && sidecar.policy == policy && sidecar.version == 1 && sidecar.se_key == hex_encoded(
                se_key,
            ) && sidecar.sealed_password == hex_encoded(sealed)
            &&& enroll_next(write, EnrollAnswer::File(Ok(()))) == EnrollState::Done(
                Ok::<(), Failure>(()),
            )
        }),
{
}

/// After an enrollment that succeeds, what was written is a sidecar with the policy that the
/// caller gave, which is the one whose code the wrap key was made under, and with what the enclave
/// gave for it.
pub proof fn enroll_records_the_policy(
    machine: Machine,
    files: Files,
    keystore: Seq<u8>,
    password: Seq<char>,
    policy: Policy,
)
    requires
        enrolling(machine, files, keystore, password, policy).1 is Ok,
    ensures
        ({
            let (created, se_key) = (machine.create)(policy_code(policy));
            let (status, sealed) = (machine.seal)(se_key, encode_utf8(password));
            let written = SidecarView {
                version: 1,
                policy,
                se_key: hex_encoded(se_key),
                sealed_password: hex_encoded(sealed),
            };
            &&& created == 0
            &&& status == 0
            &&& enrolling(machine, files, keystore, password, policy).0 == files.insert(
                spec_sidecar_path(keystore),
                File { mode: 0o600, text: (machine.write)(written).0 },
            )
        }),
{
    enroll_stores_or_fails(machine, files, keystore, password, policy);
}

/// The bytes of a shim answer are those of its buffer, and none where there is no buffer; they are
/// data under status 0 and under no other.
pub proof fn shim_status_decides(status: i32, buffer: Vec<u8>)
    ensures
        shim_bytes(Some(buffer)) == buffer@,
        shim_bytes(None) == Seq::<u8>::empty(),
        status == 0 ==> shim_outcome(status, buffer@) == Ok::<Seq<u8>, Failure>(buffer@),
        status != 0 ==> shim_outcome(status, buffer@) == Err::<Seq<u8>, Failure>(
            Failure::SecureEnclave(text_of(buffer@)),
        ),
{
}

/// Text that was encoded is read as it was; bytes that encode no text are read as
/// `String::from_utf8_lossy` reads them.
pub proof fn text_is_read_as_encoded(text: Seq<char>, bytes: Seq<u8>)
    ensures
        text_of(encode_utf8(text)) == text,
        !valid_utf8(bytes) ==> text_of(bytes) == utf8_lossy(bytes),
{
    vstd::utf8::encode_utf8_valid_utf8(text);
    vstd::utf8::encode_utf8_decode_utf8(text);
}

/// Unlocking gives a password exactly where the sidecar is there, can be read, is of the current
/// version, and holds a key and a sealed password in hex which the enclave answers with status 0
/// and the very bytes of that password.
pub proof fn unlock_succeeds_exactly(
    machine: Machine,
    files: Files,
    keystore: Seq<u8>,
    password: Seq<char>,
)
    ensures
        unlocking(machine, files, keystore) == Ok::<Seq<char>, Failure>(password) <==> ({
            let path = spec_sidecar_path(keystore);
            let text = files[path].text;
            &&& files.contains_key(path)
            &&& (machine.read)(path) is Ok
            &&& (machine.read_version)(text) matches Ok(version) && version == SIDECAR_VERSION
            &&& (machine.read_sidecar)(text) matches Ok(sidecar) && hex_decoded(
                encode_utf8(sidecar.se_key),
            ) matches Ok(se_key) && hex_decoded(
                encode_utf8(sidecar.sealed_password),
            ) matches Ok(sealed) && (machine.unwrap)(se_key, sealed, unlock_reason(keystore)) == (
                0i32,
                encode_utf8(password),
            )
        }),
{
    reveal_with_fuel(run_unlock, 6);
    vstd::utf8::encode_utf8_valid_utf8(password);
    vstd::utf8::encode_utf8_decode_utf8(password);
    let text = files[spec_sidecar_path(keystore)].text;
    if let Ok(sidecar) = (machine.read_sidecar)(text) {
        if let Ok((se_key, sealed)) = sidecar_secrets(sidecar) {
            let bytes = (machine.unwrap)(se_key, sealed, unlock_reason(keystore)).1;
            if valid_utf8(bytes) {
                vstd::utf8::decode_utf8_encode_utf8(bytes);
            }
        }
    }
}

/// What the enclave answers to the request to unwrap decides: any status but 0 is an error with
/// the enclave's message, whatever the bytes are, and never a password; under status 0 bytes that
/// are no text are refused.
pub proof fn refused_unwrap_is_reported(
    machine: Machine,
    files: Files,
    keystore: Seq<u8>,
    sidecar: SidecarView,
    se_key: Seq<u8>,
    sealed: Seq<u8>,
)
    requires
        enrolled(files, keystore),
        (machine.read)(spec_sidecar_path(keystore)) is Ok,
        (machine.read_version)(files[spec_sidecar_path(keystore)].text) == Ok::<
            u32,
            serde_json::Error,
        >(SIDECAR_VERSION),
        (machine.read_sidecar)(files[spec_sidecar_path(keystore)].text) == Ok::<
            SidecarView,
            serde_json::Error,
        >(sidecar),
        hex_decoded(encode_utf8(sidecar.se_key)) == Ok::<Seq<u8>, HexError>(se_key),
        hex_decoded(encode_utf8(sidecar.sealed_password)) == Ok::<Seq<u8>, HexError>(sealed),
    ensures
        ({
            let (status, bytes) = (machine.unwrap)(se_key, sealed, unlock_reason(keystore));
            &&& status != 0 ==> unlocking(machine, files, keystore) == Err::<Seq<char>, Failure>(
                Failure::SecureEnclave(text_of(bytes)),
            )
            &&& status == 0 && !valid_utf8(bytes) ==> unlocking(machine, files, keystore) == Err::<
                Seq<char>,
                Failure,
            >(Failure::InvalidPassword)
            &&& unlocking(machine, files, keystore) is Ok ==> status == 0
        }),
{
    reveal_with_fuel(run_unlock, 6);
}

/// A sidecar that the JSON library cannot read the version of, or which is of the current version
/// and not a sidecar, is answered with that library's error.
pub proof fn invalid_sidecar_is_reported(
    machine: Machine,
    files: Files,
    keystore: Seq<u8>,
    error: serde_json::Error,
)
    requires
        enrolled(files, keystore),
        (machine.read)(spec_sidecar_path(keystore)) is Ok,
        ({
            let text = files[spec_sidecar_path(keystore)].text;
            ||| (machine.read_version)(text) == Err::<u32, serde_json::Error>(error)
            ||| (machine.read_version)(text) == Ok::<u32, serde_json::Error>(SIDECAR_VERSION) && (
            machine.read_sidecar)(text) == Err::<SidecarView, serde_json::Error>(error)
        }),
    ensures
        unlocking(machine, files, keystore) == Err::<Seq<char>, Failure>(
            Failure::InvalidSidecar(error),
        ),
{
    reveal_with_fuel(run_unlock, 6);
}

/// A sidecar of the current version with a field that is not hex is answered with what is wrong
/// with the key, or else with what is wrong with the sealed password.
pub proof fn invalid_hex_is_reported(
    machine: Machine,
    files: Files,
    keystore: Seq<u8>,
    sidecar: SidecarView,
    error: HexError,
)
    requires
        enrolled(files, keystore),
        (machine.read)(spec_sidecar_path(keystore)) is Ok,
        (machine.read_version)(files[spec_sidecar_path(keystore)].text) == Ok::<
            u32,
            serde_json::Error,
        >(SIDECAR_VERSION),
        (machine.read_sidecar)(files[spec_sidecar_path(keystore)].text) == Ok::<
            SidecarView,
            serde_json::Error,
        >(sidecar),
        ({
            let se_key = hex_decoded(encode_utf8(sidecar.se_key));
            let sealed = hex_decoded(encode_utf8(sidecar.sealed_password));
            ||| se_key == Err::<Seq<u8>, HexError>(error)
            ||| se_key is Ok && sealed == Err::<Seq<u8>, HexError>(error)
        }),
    ensures
        unlocking(machine, files, keystore) == Err::<Seq<char>, Failure>(
            Failure::InvalidHex(error),
        ),
{
    reveal_with_fuel(run_unlock, 6);
}

/// The reason is never more than a sentence round the text of the keystore's file name, and
/// nothing is left out of it but where that text holds a NUL: then there is no reason at all.
pub proof fn reason_is_a_sentence_or_nothing(keystore: Seq<u8>)
    ensures
        ({
            let reason = unlock_reason(keystore);
            let name = match spec_file_name(keystore) {
                Some(name) => text_of(name),
                None => ""@,
            };
            &&& !reason.contains('\0')
            &&& name.contains('\0') <==> reason.len() == 0
            &&& !name.contains('\0') ==> {
                &&& reason.len() == 12 + name.len() + 10
                &&& reason.take(12) == "unlock the `"@
                &&& reason.subrange(12, 12 + name.len() as int) == name
                &&& reason.skip(12 + name.len() as int) == "` keystore"@
            }
        }),
{
    reveal_strlit("unlock the `");
    reveal_strlit("` keystore");
    reveal_strlit("");
    let name = match spec_file_name(keystore) {
        Some(name) => text_of(name),
        None => ""@,
    };
    assert(spec_file_name(keystore) is None ==> name =~= Seq::empty());
    let sentence = "unlock the `"@ + name + "` keystore"@;
    if name.contains('\0') {
        let i = choose|i: int| 0 <= i < name.len() && name[i] == '\0';
        assert(sentence[12 + i] == '\0');
    } else {
        assert forall|i: int| 0 <= i < sentence.len() implies sentence[i] != '\0' by {
            if 12 <= i < 12 + name.len() {
                assert(name[i - 12] == sentence[i]);
            }
        }
        assert(sentence.take(12) =~= "unlock the `"@);
        assert(sentence.subrange(12, 12 + name.len() as int) =~= name);
        assert(sentence.skip(12 + name.len() as int) =~= "` keystore"@);
    }
}

/// What an answer ends an enrollment, an unlocking or a removal with is what they stay with.
pub proof fn ended_is_ended(
    enrollment: Result<(), Failure>,
    enroll_answer: EnrollAnswer,
    unlocked: Result<Seq<char>, Failure>,
    unlock_answer: UnlockAnswer,
    removed: Result<bool, Failure>,
    remove_answer: RemoveAnswer,
)
    ensures
        enroll_next(EnrollState::Done(enrollment), enroll_answer) == EnrollState::Done(enrollment),
        unlock_next(UnlockState::Done(unlocked), unlock_answer) == UnlockState::Done(unlocked),
        remove_next(RemoveState::Done(removed), remove_answer) == RemoveState::Done(removed),
{
}

} // verus!
