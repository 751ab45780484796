//! Enrolling, unlocking and removing against a disk in memory and an enclave that masks bytes.

use std::collections::BTreeMap;

use serde_json::Value;
use touch_id::{
    enroll, is_available, is_enrolled, remove, shim_result, sidecar_path, unwrap_password, HexError,
    Policy, Removal, Sidecar, TouchIdError,
};

type Disk = BTreeMap<Vec<u8>, String>;

const MASK: u8 = 0x5a;

fn policy_name(policy: Policy) -> &'static str {
    match policy {
        Policy::DeviceOnly => "device-only",
        Policy::UserPresence => "user-presence",
        Policy::CurrentBiometry => "current-biometry",
    }
}

fn to_json(sidecar: &Sidecar) -> String {
    let mut members = serde_json::Map::new();
    members.insert("version".to_owned(), Value::from(sidecar.version));
    members.insert("policy".to_owned(), Value::from(policy_name(sidecar.policy)));
    members.insert("se_key".to_owned(), Value::from(sidecar.se_key.as_str()));
    members.insert("sealed_password".to_owned(), Value::from(sidecar.sealed_password.as_str()));
    serde_json::to_string_pretty(&Value::Object(members)).unwrap()
}

fn json_error() -> serde_json::Error {
    serde_json::from_str::<Value>("{").unwrap_err()
}

fn version_in(text: &str) -> Result<u32, serde_json::Error> {
    let value: Value = serde_json::from_str(text)?;
    match value["version"].as_u64() {
        Some(version) => Ok(version as u32),
        None => Err(json_error()),
    }
}

fn sidecar_in(text: &str) -> Result<Sidecar, serde_json::Error> {
    let value: Value = serde_json::from_str(text)?;
    let policy = match value["policy"].as_str() {
        Some("device-only") => Policy::DeviceOnly,
        Some("user-presence") => Policy::UserPresence,
        Some("current-biometry") => Policy::CurrentBiometry,
        _ => return Err(json_error()),
    };
    Ok(Sidecar {
        version: version_in(text)?,
        policy,
        se_key: value["se_key"].as_str().unwrap().to_owned(),
        sealed_password: value["sealed_password"].as_str().unwrap().to_owned(),
    })
}

/// The enclave's key for a policy, which it knows again later.
fn create_key(policy_code: i32) -> (i32, Option<Vec<u8>>) {
    (0, Some(vec![0x0a, 0xff, policy_code as u8]))
}

fn mask(bytes: &[u8]) -> Vec<u8> {
    bytes.iter().map(|b| b ^ MASK).collect()
}

fn enroll_on(
    disk: &mut Disk,
    keystore: &[u8],
    password: &str,
    policy: Policy,
) -> Result<(), TouchIdError> {
    let step = enroll(keystore, password, policy);
    let (status, buffer) = create_key(step.policy_code);
    let step = step.created(status, buffer)?;
    let sealed = mask(&step.plain);
    let step = step.sealed(0, Some(sealed))?;
    assert_eq!(step.mode, 0o600);
    disk.insert(step.path.clone(), String::new());
    let step = step.opened(Ok(()))?;
    assert_eq!(step.mode, 0o600);
    let step = step.restricted(Ok(()))?;
    disk.insert(step.path.clone(), to_json(&step.sidecar));
    step.written(Ok(()))
}

fn unwrap_on(disk: &Disk, keystore: &[u8]) -> Result<String, TouchIdError> {
    let step = unwrap_password(keystore);
    let present = disk.contains_key(&step.path);
    let step = step.found(present)?;
    let text = disk[&step.path].clone();
    let step = step.read(Ok(text))?;
    let version = version_in(&step.raw);
    let step = step.version(version)?;
    let sidecar = sidecar_in(&step.raw);
    let step = step.parsed(sidecar)?;
    if step.se_key[..2] != [0x0a, 0xff] {
        return step.unwrapped(-1, Some("no such key".as_bytes().to_vec()));
    }
    let plain = mask(&step.sealed);
    step.unwrapped(0, Some(plain))
}

fn enrolled_on(disk: &Disk, keystore: &[u8]) -> bool {
    let query = is_enrolled(keystore);
    let present = disk.contains_key(&query.path);
    query.found(present)
}

fn remove_on(disk: &mut Disk, keystore: &[u8]) -> Result<bool, TouchIdError> {
    let step = remove(keystore);
    let present = disk.contains_key(&step.path);
    match step.found(present) {
        Removal::Done { existed } => Ok(existed),
        Removal::Delete(step) => {
            disk.remove(&step.path);
            step.deleted(Ok(()))
        }
    }
}

#[test]
fn sidecar_path_appends_extension() {
    assert_eq!(sidecar_path("/k/deployer".as_bytes()), "/k/deployer.touchid".as_bytes());
    // Dots in keystore names must not be treated as extensions.
    assert_eq!(
        sidecar_path("/k/UTC--2026-07-18T00-00-00.0Z--dead".as_bytes()),
        "/k/UTC--2026-07-18T00-00-00.0Z--dead.touchid".as_bytes()
    );
}

#[test]
fn enroll_and_unwrap_device_only_roundtrip() {
    let mut disk = Disk::new();
    let keystore = "/tmp/wallets/deployer".as_bytes();
    disk.insert(keystore.to_vec(), "{}".to_owned());

    assert!(!enrolled_on(&disk, keystore));
    assert!(!remove_on(&mut disk, keystore).unwrap());
    assert!(matches!(unwrap_on(&disk, keystore), Err(TouchIdError::NotEnrolled)));

    match enroll_on(&mut disk, keystore, "hunter2", Policy::DeviceOnly) {
        Ok(()) => {}
        Err(e) => panic!("enroll failed: {e:?}"),
    }
    assert!(enrolled_on(&disk, keystore));
    assert_eq!(unwrap_on(&disk, keystore).unwrap(), "hunter2");

    assert!(remove_on(&mut disk, keystore).unwrap());
    assert!(!enrolled_on(&disk, keystore));
    assert_eq!(disk.len(), 1);
}

#[test]
fn unsupported_sidecar_version_is_rejected() {
    let mut disk = Disk::new();
    let keystore = "/tmp/wallets/deployer".as_bytes();
    disk.insert(keystore.to_vec(), "{}".to_owned());
    // A future format: bumped version with a policy this build doesn't know.
    disk.insert(
        sidecar_path(keystore),
        r#"{"version":2,"policy":"watch","se_key":"","sealed_password":""}"#.to_owned(),
    );
    assert!(matches!(unwrap_on(&disk, keystore), Err(TouchIdError::UnsupportedVersion(2))));
}

#[test]
fn unknown_policy_in_the_current_version_is_an_invalid_sidecar() {
    let mut disk = Disk::new();
    let keystore = "deployer".as_bytes();
    disk.insert(
        sidecar_path(keystore),
        r#"{"version":1,"policy":"watch","se_key":"","sealed_password":""}"#.to_owned(),
    );
    assert!(matches!(unwrap_on(&disk, keystore), Err(TouchIdError::InvalidSidecar(_))));
    disk.insert(sidecar_path(keystore), "no json".to_owned());
    assert!(matches!(unwrap_on(&disk, keystore), Err(TouchIdError::InvalidSidecar(_))));
}

#[test]
fn every_policy_and_password_roundtrips() {
    let passwords = ["", "hunter2", "p\u{e4}ssw\u{f6}rd \u{1f511}", "tab\tand\0nul"];
    for policy in [Policy::DeviceOnly, Policy::UserPresence, Policy::CurrentBiometry] {
        for password in passwords {
            let mut disk = Disk::new();
            enroll_on(&mut disk, "k".as_bytes(), password, policy).unwrap();
            assert_eq!(unwrap_on(&disk, "k".as_bytes()).unwrap(), password);
        }
    }
}

#[test]
fn enrolling_again_replaces_and_leaves_other_keystores_alone() {
    let mut disk = Disk::new();
    enroll_on(&mut disk, "a".as_bytes(), "one", Policy::DeviceOnly).unwrap();
    enroll_on(&mut disk, "b".as_bytes(), "two", Policy::DeviceOnly).unwrap();
    enroll_on(&mut disk, "a".as_bytes(), "three", Policy::UserPresence).unwrap();
    assert_eq!(disk.len(), 2);
    assert_eq!(unwrap_on(&disk, "a".as_bytes()).unwrap(), "three");
    assert_eq!(unwrap_on(&disk, "a".as_bytes()).unwrap(), "three");
    assert_eq!(unwrap_on(&disk, "b".as_bytes()).unwrap(), "two");
    assert!(remove_on(&mut disk, "a".as_bytes()).unwrap());
    assert_eq!(unwrap_on(&disk, "b".as_bytes()).unwrap(), "two");
    assert!(matches!(unwrap_on(&disk, "a".as_bytes()), Err(TouchIdError::NotEnrolled)));
}

#[test]
fn enrollment_asks_for_the_right_things() {
    let step = enroll("/k/d".as_bytes(), "p\u{e9}", Policy::CurrentBiometry);
    assert_eq!(step.policy_code, 2);
    assert_eq!(step.plain, vec![b'p', 0xc3, 0xa9]);
    assert_eq!(step.path, "/k/d.touchid".as_bytes());
    let step = step.created(0, Some(vec![0x0f, 0xa0])).unwrap();
    assert_eq!(step.se_key, vec![0x0f, 0xa0]);
    assert_eq!(step.plain, vec![b'p', 0xc3, 0xa9]);
    let step = step.sealed(0, Some(vec![0xde, 0xad, 0x00])).unwrap();
    assert_eq!(step.path, "/k/d.touchid".as_bytes());
    assert_eq!(step.mode, 0o600);
    let step = step.opened(Ok(())).unwrap();
    assert_eq!(step.path, "/k/d.touchid".as_bytes());
    assert_eq!(step.mode, 0o600);
    let step = step.restricted(Ok(())).unwrap();
    assert_eq!(step.path, "/k/d.touchid".as_bytes());
    assert_eq!(step.sidecar.version, 1);
    assert_eq!(step.sidecar.policy, Policy::CurrentBiometry);
    assert_eq!(step.sidecar.se_key, "0fa0");
    assert_eq!(step.sidecar.sealed_password, "dead00");
    assert!(step.written(Ok(())).is_ok());
}

#[test]
fn a_refusing_enclave_ends_the_enrollment() {
    let step = enroll("k".as_bytes(), "p", Policy::DeviceOnly);
    match step.created(7, Some("no enclave".as_bytes().to_vec())) {
        Err(TouchIdError::SecureEnclave(message)) => assert_eq!(message, "no enclave"),
        _ => panic!("the enclave refused"),
    }
    let step = enroll("k".as_bytes(), "p", Policy::DeviceOnly).created(0, None).unwrap();
    assert!(step.se_key.is_empty());
    match step.sealed(-1, None) {
        Err(TouchIdError::SecureEnclave(message)) => assert_eq!(message, ""),
        _ => panic!("the enclave refused"),
    }
}

#[test]
fn failures_of_the_file_system_come_through() {
    let denied = || std::io::Error::new(std::io::ErrorKind::PermissionDenied, "denied");
    let open = || {
        enroll("k".as_bytes(), "p", Policy::DeviceOnly)
            .created(0, Some(vec![1]))
            .unwrap()
            .sealed(0, Some(vec![2]))
            .unwrap()
    };
    match open().opened(Err(denied())) {
        Err(TouchIdError::Io(e)) => assert_eq!(e.kind(), std::io::ErrorKind::PermissionDenied),
        _ => panic!("the sidecar was not opened"),
    }
    match open().opened(Ok(())).unwrap().restricted(Err(denied())) {
        Err(TouchIdError::Io(e)) => assert_eq!(e.kind(), std::io::ErrorKind::PermissionDenied),
        _ => panic!("the sidecar did not get its permissions"),
    }
    match open().opened(Ok(())).unwrap().restricted(Ok(())).unwrap().written(Err(denied())) {
        Err(TouchIdError::Io(e)) => assert_eq!(e.kind(), std::io::ErrorKind::PermissionDenied),
        _ => panic!("the sidecar was not written"),
    }
    let step = unwrap_password("k".as_bytes()).found(true).unwrap();
    assert_eq!(step.path, "k.touchid".as_bytes());
    assert!(matches!(step.read(Err(denied())), Err(TouchIdError::Io(_))));
    match remove("k".as_bytes()).found(true) {
        Removal::Delete(step) => {
            assert_eq!(step.path, "k.touchid".as_bytes());
            assert!(matches!(step.deleted(Err(denied())), Err(TouchIdError::Io(_))));
        }
        Removal::Done { .. } => panic!("there is a sidecar to delete"),
    }
}

fn parse_step() -> touch_id::ParseSidecar {
    unwrap_password("k".as_bytes())
        .found(true)
        .unwrap()
        .read(Ok("text".to_owned()))
        .unwrap()
        .version(Ok(1))
        .unwrap()
}

fn sidecar(se_key: &str, sealed_password: &str) -> Sidecar {
    Sidecar {
        version: 1,
        policy: Policy::DeviceOnly,
        se_key: se_key.to_owned(),
        sealed_password: sealed_password.to_owned(),
    }
}

#[test]
fn hex_of_either_case_and_prefix_is_read() {
    let step = parse_step();
    assert_eq!(step.raw, "text");
    let step = step.parsed(Ok(sidecar("0x0aFF", "0XdeAD00"))).unwrap();
    assert_eq!(step.se_key, vec![0x0a, 0xff]);
    assert_eq!(step.sealed, vec![0xde, 0xad, 0x00]);
    assert_eq!(step.reason, "unlock the `k` keystore");
    let step = parse_step().parsed(Ok(sidecar("", "0x"))).unwrap();
    assert!(step.se_key.is_empty() && step.sealed.is_empty());
}

#[test]
fn hex_errors_are_told_apart() {
    let bad = |key: &str, sealed: &str| match parse_step().parsed(Ok(sidecar(key, sealed))) {
        Err(TouchIdError::InvalidHex(e)) => e,
        _ => panic!("the sidecar is not hex"),
    };
    assert_eq!(bad("abc", ""), HexError::OddLength);
    assert_eq!(bad("", "abc"), HexError::OddLength);
    // The length is looked at first, and the key before the password.
    assert_eq!(bad("zzz", "g0"), HexError::OddLength);
    assert_eq!(bad("0g", "abc"), HexError::InvalidHexCharacter { c: 'g', index: 1 });
    // The prefix does not count.
    assert_eq!(bad("0x12x4", ""), HexError::InvalidHexCharacter { c: 'x', index: 2 });
    // Each byte of a longer character stands on its own.
    assert_eq!(bad("00\u{e9}", ""), HexError::InvalidHexCharacter { c: '\u{c3}', index: 2 });
}

#[test]
fn long_secrets_survive_the_sidecar() {
    let key: Vec<u8> = (0..=255u8).collect();
    let sealed: Vec<u8> = (0..=255u8).rev().chain(0..77u8).collect();
    let stored = Sidecar::new(Policy::UserPresence, &key, &sealed);
    assert_eq!(stored.se_key.len(), 512);
    assert_eq!(&stored.se_key[..8], "00010203");
    let (back_key, back_sealed) = stored.secrets().unwrap();
    assert_eq!(back_key, key);
    assert_eq!(back_sealed, sealed);
}

#[test]
fn a_password_that_is_no_text_is_refused() {
    let step = parse_step().parsed(Ok(sidecar("00", "00"))).unwrap();
    assert!(matches!(step.unwrapped(0, Some(vec![0xff])), Err(TouchIdError::InvalidPassword)));
    let step = parse_step().parsed(Ok(sidecar("00", "00"))).unwrap();
    assert_eq!(step.unwrapped(0, Some(vec![0xc3, 0xa9])).unwrap(), "\u{e9}");
    let step = parse_step().parsed(Ok(sidecar("00", "00"))).unwrap();
    assert_eq!(step.unwrapped(0, None).unwrap(), "");
    let step = parse_step().parsed(Ok(sidecar("00", "00"))).unwrap();
    match step.unwrapped(1, Some(vec![b'n', b'o', 0xff])) {
        Err(TouchIdError::SecureEnclave(message)) => assert_eq!(message, "no\u{fffd}"),
        _ => panic!("the enclave refused"),
    }
}

#[test]
fn shim_answers_are_data_or_messages() {
    assert_eq!(shim_result(0, Some(vec![1, 0xff])).unwrap(), vec![1, 0xff]);
    assert!(shim_result(0, None).unwrap().is_empty());
    match shim_result(1, Some(vec![b'a', 0xf0, 0x9f, b'b'])) {
        Err(TouchIdError::SecureEnclave(message)) => assert_eq!(message, "a\u{fffd}b"),
        _ => panic!("the status is not 0"),
    }
}

#[test]
fn only_one_flag_means_available() {
    assert!(is_available(1));
    assert!(!is_available(0));
    assert!(!is_available(-1));
    assert!(!is_available(2));
}

#[test]
fn policies_have_their_codes() {
    assert_eq!(Policy::DeviceOnly.raw(), 0);
    assert_eq!(Policy::UserPresence.raw(), 1);
    assert_eq!(Policy::CurrentBiometry.raw(), 2);
    assert_eq!(Policy::default(), Policy::UserPresence);
}
