//! File names, and the reason that the user is told.

use std::path::Path;

use touch_id::path::file_name;
use touch_id::{sidecar_path, unwrap_password};

const PATHS: [&str; 24] = [
    "", "/", "//", ".", "./", "..", "../", "a", "a/", "a//", "a/.", "a/./", "a/.//./", "a/..",
    "a/../b", "/usr/bin/", "tmp/foo.txt", "foo.txt/.", "foo.txt/.//", "foo.txt/..", "./a", "...",
    "a/..b", "a/.b",
];

#[test]
fn file_names_are_those_of_std() {
    for path in PATHS {
        let expected = Path::new(path).file_name().map(|n| n.to_str().unwrap().as_bytes().to_vec());
        assert_eq!(file_name(path.as_bytes()), expected, "{path:?}");
    }
}

#[test]
fn file_name_of_known_paths() {
    assert_eq!(file_name("/k/deployer".as_bytes()).unwrap(), "deployer".as_bytes());
    assert_eq!(file_name("/k/deployer/./".as_bytes()).unwrap(), "deployer".as_bytes());
    assert_eq!(file_name("/k/..".as_bytes()), None);
    assert_eq!(file_name("/".as_bytes()), None);
}

#[test]
fn sidecar_is_next_to_its_keystore() {
    for path in PATHS {
        let sidecar = sidecar_path(path.as_bytes());
        let name = file_name(&sidecar).unwrap();
        assert!(name.ends_with(".touchid".as_bytes()));
        assert!(sidecar.starts_with(path.as_bytes()));
    }
    assert_eq!(sidecar_path(&[0xff, 0x00]), [&[0xff, 0x00], ".touchid".as_bytes()].concat());
}

#[test]
fn reason_names_the_keystore() {
    let reason = |path: &[u8]| unwrap_password(path).reason;
    assert_eq!(reason("/k/deployer".as_bytes()), "unlock the `deployer` keystore");
    assert_eq!(reason("/k/..".as_bytes()), "unlock the `` keystore");
    assert_eq!(reason(&[b'/', b'a', 0xff, b'b']), "unlock the `a\u{fffd}b` keystore");
    assert_eq!(reason("/k/\u{e9}".as_bytes()), "unlock the `\u{e9}` keystore");
    // A NUL has no place in a C string.
    assert_eq!(reason(&[b'/', b'a', 0, b'b']), "");
    assert_eq!(reason(&[0, b'/', b'b']), "unlock the `b` keystore");
}
