//! The Swift toolchain check.

use touch_id::swift::{
    archive_dir, builds_shim, check_swift_version, compatibility_archives, parse_version,
    sdk_library_dir, sdk_path, swift_target, swift_version, SwiftVersionError, TargetInfoError,
};

const XCODE_15: &str = "swift-driver version: 1.87.1 Apple Swift version 5.9 (swiftlang-5.9.0.128.108 clang-1500.0.40.1)\nTarget: arm64-apple-macosx14.0\n";

#[test]
fn versions_are_found() {
    assert_eq!(swift_version(XCODE_15), "5.9");
    assert_eq!(swift_version("Swift version 6.0.3"), "6.0.3");
    assert_eq!(swift_version("Swift version \n\t 5.10\u{3000}x"), "5.10");
    assert_eq!(swift_version("Swift version "), "");
    assert_eq!(swift_version("swift version 5.9"), "");
    assert_eq!(swift_version(""), "");
    // What stands behind a second marker is not looked at.
    assert_eq!(swift_version("Swift version Swift version 5.9"), "");
    assert_eq!(swift_version("Swift version 6.Swift version 5.9"), "6.");
}

#[test]
fn every_white_space_character_ends_a_word() {
    for code in 0..0x11_0000u32 {
        if let Some(c) = char::from_u32(code) {
            let listed = matches!(code, 0x9..=0xd | 0x20 | 0x85 | 0xa0 | 0x1680
                | 0x2000..=0x200a | 0x2028 | 0x2029 | 0x202f | 0x205f | 0x3000);
            assert_eq!(c.is_whitespace(), listed, "{code:x}");
        }
    }
    assert_eq!(swift_version("Swift version 5\u{2028}9"), "5");
    assert_eq!(swift_version("Swift version 5\u{200b}9"), "5\u{200b}9");
}

#[test]
fn version_numbers_are_read() {
    assert_eq!(parse_version("5.9"), (5, 9));
    assert_eq!(parse_version("5.9.2"), (5, 9));
    assert_eq!(parse_version("6"), (6, 0));
    assert_eq!(parse_version(""), (0, 0));
    assert_eq!(parse_version("."), (0, 0));
    assert_eq!(parse_version("+5.+9"), (5, 9));
    assert_eq!(parse_version("5.9-dev"), (5, 0));
    assert_eq!(parse_version("-5.9"), (0, 9));
    assert_eq!(parse_version("++5.+"), (0, 0));
    assert_eq!(parse_version("00005.4294967295"), (5, 4294967295));
    assert_eq!(parse_version("4294967296.99999999999999999999999"), (0, 0));
    assert_eq!(parse_version("\u{0665}.9"), (0, 9));
}

#[test]
fn numbers_are_those_of_std() {
    for text in ["", "0", "+", "+1", "-1", "12a", " 1", "4294967295", "4294967296", "042949672950"]
    {
        assert_eq!(parse_version(text).0, text.parse::<u32>().unwrap_or(0), "{text:?}");
    }
}

#[test]
fn old_toolchains_are_rejected() {
    assert!(check_swift_version(XCODE_15).is_ok());
    assert!(check_swift_version("Swift version 5.10").is_ok());
    assert!(check_swift_version("Swift version 6.0").is_ok());
    match check_swift_version("Apple Swift version 5.8.1 (x)") {
        Err(SwiftVersionError::TooOld(version)) => assert_eq!(version, "5.8.1"),
        _ => panic!("5.8 is too old"),
    }
    assert!(matches!(
        check_swift_version("Swift version 4.99"),
        Err(SwiftVersionError::TooOld(_))
    ));
    assert!(matches!(check_swift_version("clang 15"), Err(SwiftVersionError::Unparsable)));
}

#[test]
fn shim_is_built_for_macos_with_the_feature() {
    assert!(builds_shim(true, Some("macos")));
    assert!(!builds_shim(false, Some("macos")));
    assert!(!builds_shim(true, Some("linux")));
    assert!(!builds_shim(true, None));
}

#[test]
fn targets_are_in_apples_words() {
    assert_eq!(swift_target("aarch64", None), "arm64-apple-macos11");
    assert_eq!(swift_target("x86_64", Some("13.1")), "x86_64-apple-macos13.1");
}

#[test]
fn archives_are_found_in_the_target_info() {
    let info = r#"{"target":{"triple":"x"},"paths":{"runtimeResourcePath":"/usr/lib/swift"}}"#;
    assert_eq!(compatibility_archives(info).unwrap(), "/usr/lib/swift/macosx");
    for empty in [r#"{"paths":{}}"#, r#"{"paths":{"runtimeResourcePath":7}}"#, "[]", "null"] {
        assert!(matches!(compatibility_archives(empty), Err(TargetInfoError::NoRuntimePath)));
    }
    assert!(matches!(compatibility_archives("{"), Err(TargetInfoError::Unparsable(_))));
}

#[test]
fn archive_dir_is_below_the_runtime_path() {
    assert_eq!(archive_dir(Ok(Some("/r".to_owned()))).unwrap(), "/r/macosx");
    assert!(matches!(archive_dir(Ok(None)), Err(TargetInfoError::NoRuntimePath)));
}

#[test]
fn sdk_paths_are_trimmed() {
    let sdk = "/Library/Developer/SDKs/MacOSX 14.sdk";
    assert_eq!(sdk_path("/Library/Developer/SDKs/MacOSX 14.sdk\n"), sdk);
    assert_eq!(
        sdk_library_dir("/Library/Developer/SDKs/MacOSX 14.sdk\n"),
        "/Library/Developer/SDKs/MacOSX 14.sdk/usr/lib/swift"
    );
    assert_eq!(sdk_library_dir(" \n"), "/usr/lib/swift");
    for text in ["", " ", "a", " a", "a ", "\u{3000}a b\t\r\n", "\u{200b}a\u{200b}", "\u{a0} \u{85}"] {
        assert_eq!(sdk_path(text), text.trim(), "{text:?}");
    }
}
