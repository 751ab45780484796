//! What holds of the steps as they are taken: of what one call gives, and of what the calls of an
//! enrollment, an unlocking or a removal give one after the other.

use vstd::prelude::*;
use vstd::utf8::{encode_utf8, valid_utf8};

use crate::enclave::{is_available, shim_result};
use crate::enroll::{
    enroll, CreateKey, OpenSidecar, RestrictSidecar, SealPassword, WriteSidecar,
};
use crate::error::{HexError, TouchIdError};
use crate::hex::{decode_inverts_encode, hex_decoded, hex_encoded};
use crate::path::{file_name, sidecar_path, sidecar_path_only_appends, spec_file_name};
use crate::policy::Policy;
use crate::remove::{
    is_enrolled, remove, DeleteSidecar, EnrolledQuery, FindRemoved, Removal,
};
use crate::sidecar::Sidecar;
use crate::text::text_of;
use crate::unlock::{
    unwrap_password, FindSidecar, ParseSidecar, ReadSidecar, ReadVersion, UnwrapSealed,
};

verus! {

/// The enclave is usable where the shim says 1, and for no other flag.
pub proof fn available_means_one(flag: i32, available: bool)
    requires
        call_ensures(is_available, (flag,), available),
    ensures
        available <==> flag == 1,
{
}

/// Each policy has its own code, and the one taken by default asks for the user's presence.
pub proof fn policies_have_codes(
    policy: Policy,
    code: i32,
    other: Policy,
    other_code: i32,
    default: Policy,
)
    requires
        call_ensures(Policy::default, (), default),
        call_ensures(Policy::raw, (policy,), code),
        call_ensures(Policy::raw, (other,), other_code),
    ensures
        code == other_code <==> policy == other,
        policy == Policy::DeviceOnly <==> code == 0,
        policy == Policy::UserPresence <==> code == 1,
        policy == Policy::CurrentBiometry <==> code == 2,
        default == Policy::UserPresence,
{
}

/// A shim answer is data under status 0, the buffer as it is, and an error under any other status,
/// whatever the buffer holds.
pub proof fn shim_answers_are_read_by_status(
    status: i32,
    buffer: Option<Vec<u8>>,
    result: Result<Vec<u8>, TouchIdError>,
)
    requires
        call_ensures(shim_result, (status, buffer), result),
    ensures
        result is Ok <==> status == 0,
        status == 0 ==> (buffer matches Some(bytes) ==> result->Ok_0@ == bytes@),
        status == 0 && buffer is None ==> result->Ok_0@.len() == 0,
        status != 0 ==> result->Err_0 is SecureEnclave,
        status != 0 ==> (buffer matches Some(bytes) ==> result->Err_0->SecureEnclave_0@ == text_of(
            bytes@,
        )),
        status != 0 && buffer is None ==> result->Err_0->SecureEnclave_0@.len() == 0,
{
}

/// A sidecar records the policy that it was made for, whichever that is, so that sidecars made for
/// two policies differ in it; and it gives back the two secrets that it was made for.
pub proof fn sidecars_keep_what_they_are_given(
    policy: Policy,
    se_key: &[u8],
    sealed: &[u8],
    sidecar: Sidecar,
    secrets: Result<(Vec<u8>, Vec<u8>), TouchIdError>,
)
    requires
        se_key@.len() <= usize::MAX / 2,
        sealed@.len() <= usize::MAX / 2,
        call_ensures(Sidecar::new, (policy, se_key, sealed), sidecar),
        call_ensures(Sidecar::secrets, (&sidecar,), secrets),
    ensures
        sidecar.version == 1,
        sidecar.policy == policy,
        secrets is Ok,
        secrets->Ok_0.0@ == se_key@,
        secrets->Ok_0.1@ == sealed@,
{
    decode_inverts_encode(se_key@);
    decode_inverts_encode(sealed@);
}

/// An enrollment that goes well, from its first step to its last: the wrap key is made under the
/// code of the policy that the caller gave; the password that the caller gave is sealed with that
/// key; and what is written, next to the keystore and with the owner's permissions, is a sidecar
/// with that very policy and with what the enclave gave.
pub proof fn enrollment_takes_its_steps(
    keystore: &[u8],
    password: &str,
    policy: Policy,
    code: i32,
    se_key: Vec<u8>,
    sealed: Vec<u8>,
    create: CreateKey,
    seal: Result<SealPassword, TouchIdError>,
    open: Result<OpenSidecar, TouchIdError>,
    restrict: Result<RestrictSidecar, TouchIdError>,
    write: Result<WriteSidecar, TouchIdError>,
    result: Result<(), TouchIdError>,
)
    requires
        call_ensures(Policy::raw, (policy,), code),
        call_ensures(enroll, (keystore, password, policy), create),
        call_ensures(CreateKey::created, (create, 0i32, Some(se_key)), seal),
        call_ensures(SealPassword::sealed, (seal->Ok_0, 0i32, Some(sealed)), open),
        call_ensures(OpenSidecar::opened, (open->Ok_0, Ok(())), restrict),
        call_ensures(RestrictSidecar::restricted, (restrict->Ok_0, Ok(())), write),
        call_ensures(WriteSidecar::written, (write->Ok_0, Ok(())), result),
    ensures
        create.policy_code == code,
        seal matches Ok(step) && step.se_key@ == se_key@ && step.plain@ == encode_utf8(password@),
        open matches Ok(step) && step.mode == 0o600 && step.path@ == keystore@ + encode_utf8(
            ".touchid"@,
        ),
        restrict matches Ok(step) && step.mode == 0o600 && step.path@ == keystore@ + encode_utf8(
            ".touchid"@,
        ),
        write matches Ok(step) && step.path@ == keystore@ + encode_utf8(".touchid"@)
            && step.sidecar.version == 1 && step.sidecar.policy == policy && step.sidecar.se_key@
            == hex_encoded(se_key@) && step.sidecar.sealed_password@ == hex_encoded(sealed@),
        result is Ok,
{
    sidecar_path_only_appends(keystore@);
    let path = create.path@;
    assert(path =~= path.take(keystore@.len() as int) + path.skip(keystore@.len() as int));
}

/// Any other answer ends an enrollment with an error: the enclave's message for a status other
/// than 0, the file system's error for a file that could not be opened, restricted or written.
pub proof fn enrollment_ends_at_a_refusal(
    create: CreateKey,
    seal: SealPassword,
    open: OpenSidecar,
    restrict: RestrictSidecar,
    write: WriteSidecar,
    status: i32,
    bytes: Vec<u8>,
    error: std::io::Error,
    created: Result<SealPassword, TouchIdError>,
    sealed: Result<OpenSidecar, TouchIdError>,
    opened: Result<RestrictSidecar, TouchIdError>,
    restricted: Result<WriteSidecar, TouchIdError>,
    written: Result<(), TouchIdError>,
)
    requires
        status != 0,
        call_ensures(CreateKey::created, (create, status, Some(bytes)), created),
        call_ensures(SealPassword::sealed, (seal, status, Some(bytes)), sealed),
        call_ensures(OpenSidecar::opened, (open, Err(error)), opened),
        call_ensures(RestrictSidecar::restricted, (restrict, Err(error)), restricted),
        call_ensures(WriteSidecar::written, (write, Err(error)), written),
    ensures
        created is Err && created->Err_0 is SecureEnclave && created->Err_0->SecureEnclave_0@
            == text_of(bytes@),
        sealed is Err && sealed->Err_0 is SecureEnclave && sealed->Err_0->SecureEnclave_0@
            == text_of(bytes@),
        opened is Err && opened->Err_0 == TouchIdError::Io(error),
        restricted is Err && restricted->Err_0 == TouchIdError::Io(error),
        written is Err && written->Err_0 == TouchIdError::Io(error),
{
}

/// An unlocking, from its first step to its last, of a sidecar that is there, can be read and is
/// of the current version: the enclave is asked to unwrap the sidecar's sealed password with the
/// sidecar's key. Under any status but 0 the outcome is the enclave's message, whatever its bytes
/// are; under status 0 it is the password with exactly those bytes, or the complaint that they are
/// no text.
pub proof fn unlocking_takes_its_steps(
    keystore: &[u8],
    raw: String,
    sidecar: Sidecar,
    se_key: Seq<u8>,
    sealed: Seq<u8>,
    status: i32,
    bytes: Vec<u8>,
    find: FindSidecar,
    read: Result<ReadSidecar, TouchIdError>,
    version: Result<ReadVersion, TouchIdError>,
    parse: Result<ParseSidecar, TouchIdError>,
    unwrap: Result<UnwrapSealed, TouchIdError>,
    password: Result<String, TouchIdError>,
)
    requires
        hex_decoded(encode_utf8(sidecar.se_key@)) == Ok::<Seq<u8>, HexError>(se_key),
        hex_decoded(encode_utf8(sidecar.sealed_password@)) == Ok::<Seq<u8>, HexError>(sealed),
        call_ensures(unwrap_password, (keystore,), find),
        call_ensures(FindSidecar::found, (find, true), read),
        call_ensures(ReadSidecar::read, (read->Ok_0, Ok(raw)), version),
        call_ensures(ReadVersion::version, (version->Ok_0, Ok(1u32)), parse),
        call_ensures(ParseSidecar::parsed, (parse->Ok_0, Ok(sidecar)), unwrap),
        call_ensures(UnwrapSealed::unwrapped, (unwrap->Ok_0, status, Some(bytes)), password),
    ensures
        find.path@ == keystore@ + encode_utf8(".touchid"@),
        read matches Ok(step) && step.path@ == keystore@ + encode_utf8(".touchid"@),
        version matches Ok(step) && step.raw == raw,
        parse matches Ok(step) && step.raw == raw,
        unwrap matches Ok(step) && step.se_key@ == se_key && step.sealed@ == sealed
            && step.reason == find.reason,
        status != 0 ==> password is Err && password->Err_0 is SecureEnclave
            && password->Err_0->SecureEnclave_0@ == text_of(bytes@),
        password is Ok ==> status == 0 && encode_utf8(password->Ok_0@) == bytes@,
        status == 0 && valid_utf8(bytes@) ==> password is Ok,
        status == 0 && !valid_utf8(bytes@) ==> password is Err && password->Err_0
            is InvalidPassword,
{
    sidecar_path_only_appends(keystore@);
    let path = find.path@;
    assert(path =~= path.take(keystore@.len() as int) + path.skip(keystore@.len() as int));
}

/// Each answer that ends an unlocking early ends it with its own error: no sidecar, one that
/// cannot be read, one of another version, one that is none, one with a field that is not hex.
pub proof fn unlocking_ends_at_a_refusal(
    find: FindSidecar,
    read: ReadSidecar,
    gate: ReadVersion,
    parse: ParseSidecar,
    error: std::io::Error,
    json_error: serde_json::Error,
    number: u32,
    sidecar: Sidecar,
    found: Result<ReadSidecar, TouchIdError>,
    text: Result<ReadVersion, TouchIdError>,
    no_version: Result<ParseSidecar, TouchIdError>,
    version: Result<ParseSidecar, TouchIdError>,
    no_sidecar: Result<UnwrapSealed, TouchIdError>,
    parsed: Result<UnwrapSealed, TouchIdError>,
)
    requires
        call_ensures(FindSidecar::found, (find, false), found),
        call_ensures(ReadSidecar::read, (read, Err(error)), text),
        call_ensures(ReadVersion::version, (gate, Err(json_error)), no_version),
        call_ensures(ReadVersion::version, (gate, Ok(number)), version),
        call_ensures(ParseSidecar::parsed, (parse, Err(json_error)), no_sidecar),
        call_ensures(ParseSidecar::parsed, (parse, Ok(sidecar)), parsed),
    ensures
        found is Err && found->Err_0 is NotEnrolled,
        text is Err && text->Err_0 == TouchIdError::Io(error),
        no_version is Err && no_version->Err_0 == TouchIdError::InvalidSidecar(json_error),
        version is Ok <==> number == 1,
        number != 1 ==> version->Err_0 == TouchIdError::UnsupportedVersion(number),
        no_sidecar is Err && no_sidecar->Err_0 == TouchIdError::InvalidSidecar(json_error),
        parsed is Ok <==> hex_decoded(encode_utf8(sidecar.se_key@)) is Ok && hex_decoded(
            encode_utf8(sidecar.sealed_password@),
        ) is Ok,
        hex_decoded(encode_utf8(sidecar.se_key@)) is Err ==> parsed->Err_0
            == TouchIdError::InvalidHex(hex_decoded(encode_utf8(sidecar.se_key@))->Err_0),
        hex_decoded(encode_utf8(sidecar.se_key@)) is Ok && hex_decoded(
            encode_utf8(sidecar.sealed_password@),
        ) is Err ==> parsed->Err_0 == TouchIdError::InvalidHex(
            hex_decoded(encode_utf8(sidecar.sealed_password@))->Err_0,
        ),
{
}

/// The prompt names the keystore by the text of its file name, and says nothing where that text
/// holds a NUL, which the shim could not be handed.
pub proof fn prompt_names_the_keystore(
    keystore: &[u8],
    name: Option<Vec<u8>>,
    find: FindSidecar,
)
    requires
        call_ensures(file_name, (keystore,), name),
        call_ensures(unwrap_password, (keystore,), find),
    ensures
        ({
            let text = match name {
                Some(name) => text_of(name@),
                None => ""@,
            };
            if text.contains('\0') {
                find.reason@.len() == 0
            } else {
                find.reason@ == "unlock the `"@ + text + "` keystore"@
            }
        }),
{
    crate::laws::reason_is_a_sentence_or_nothing(keystore@);
    let text = match spec_file_name(keystore@) {
        Some(name) => text_of(name),
        None => ""@,
    };
    let reason = find.reason@;
    if !text.contains('\0') {
        assert(reason =~= reason.take(12) + reason.subrange(12, 12 + text.len() as int)
            + reason.skip(12 + text.len() as int));
    }
}

/// Asking after a keystore, unlocking it, enrolling it and removing it all look at one file: the
/// keystore's path with `.touchid` behind it.
pub proof fn one_sidecar_for_a_keystore(
    keystore: &[u8],
    password: &str,
    policy: Policy,
    path: Vec<u8>,
    query: EnrolledQuery,
    create: CreateKey,
    find: FindSidecar,
    find_removed: FindRemoved,
)
    requires
        call_ensures(sidecar_path, (keystore,), path),
        call_ensures(is_enrolled, (keystore,), query),
        call_ensures(enroll, (keystore, password, policy), create),
        call_ensures(unwrap_password, (keystore,), find),
        call_ensures(remove, (keystore,), find_removed),
    ensures
        path@ == keystore@ + encode_utf8(".touchid"@),
        query.path@ == path@,
        create.path@ == path@,
        find.path@ == path@,
        find_removed.path@ == path@,
{
    sidecar_path_only_appends(keystore@);
    assert(path@ =~= path@.take(keystore@.len() as int) + path@.skip(keystore@.len() as int));
}

/// A keystore is enrolled where its sidecar is there. A removal deletes that sidecar where it is
/// there and says that it was; it says that there was none where there was none; and it passes on
/// the error where the sidecar could not be deleted.
pub proof fn removal_takes_its_steps(
    keystore: &[u8],
    present: bool,
    error: std::io::Error,
    query: EnrolledQuery,
    enrolled: bool,
    find: FindRemoved,
    next: Removal,
    existed: Result<bool, TouchIdError>,
    failed: Result<bool, TouchIdError>,
)
    requires
        call_ensures(is_enrolled, (keystore,), query),
        call_ensures(EnrolledQuery::found, (query, present), enrolled),
        call_ensures(remove, (keystore,), find),
        call_ensures(FindRemoved::found, (find, present), next),
        call_ensures(DeleteSidecar::deleted, (next->Delete_0, Ok(())), existed),
        call_ensures(DeleteSidecar::deleted, (next->Delete_0, Err(error)), failed),
    ensures
        enrolled <==> present,
        next is Delete <==> enrolled,
        next matches Removal::Delete(step) ==> step.path@ == query.path@,
        next matches Removal::Done { existed } ==> !existed,
        existed is Ok && existed->Ok_0,
        failed is Err && failed->Err_0 == TouchIdError::Io(error),
{
}

} // verus!
