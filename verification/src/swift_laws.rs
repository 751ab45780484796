//! What holds of every toolchain, whatever it prints.

use vstd::prelude::*;

use crate::swift::{
    all_digits, archive_dir, before, behind, builds_shim, check_swift_version,
    compatibility_archives, decimal, first_occurrence, first_word, is_digit, is_shim_target,
    is_supported, is_white, json_string_at, leading, lemma_decimal_grows, number_or_zero,
    parse_version, sdk_library_dir, sdk_path, spec_swift_target, spec_swift_version, swift_target,
    swift_version, trailing, trimmed, version_numbers, SwiftVersionError, TargetInfoError,
    MIN_SWIFT_MAJOR, MIN_SWIFT_MINOR,
};

verus! {

/// Whether `pattern` stands in `text` at `i`.
pub open spec fn occurs_at(text: Seq<char>, pattern: Seq<char>, i: int) -> bool {
    0 <= i && i + pattern.len() <= text.len() && text.subrange(i, i + pattern.len()) == pattern
}

/// Whether one version comes before another: the major number decides, and where it is the same
/// the minor number.
pub open spec fn older(major: u32, minor: u32, than_major: u32, than_minor: u32) -> bool {
    major < than_major || (major == than_major && minor < than_minor)
}

/// The oldest supported version is 5.9, it is supported, and no older one is. Whatever comes after
/// a supported version is supported: the next minor number, and the next major number with any
/// minor number.
pub proof fn supported_versions_go_on(major: u32, minor: u32, other: u32)
    ensures
        MIN_SWIFT_MAJOR == 5,
        MIN_SWIFT_MINOR == 9,
        is_supported(MIN_SWIFT_MAJOR, MIN_SWIFT_MINOR),
        is_supported(major, minor) && minor < u32::MAX ==> is_supported(
            major,
            (minor + 1) as u32,
        ),
        is_supported(major, minor) && major < u32::MAX ==> is_supported(
            (major + 1) as u32,
            other,
        ),
        older(major, minor, MIN_SWIFT_MAJOR, MIN_SWIFT_MINOR) ==> !is_supported(major, minor),
{
}

/// Every version is supported but those older than 5.9, so that with one version every newer one
/// is supported.
pub proof fn newer_versions_are_supported(major: u32, minor: u32, newer: u32, newer_minor: u32)
    ensures
        is_supported(major, minor) <==> !older(major, minor, 5, 9),
        is_supported(major, minor) && !older(newer, newer_minor, major, minor) ==> is_supported(
            newer,
            newer_minor,
        ),
{
}

/// A toolchain that prints a version is accepted unless that version is older than 5.9, and is
/// then refused with the version that it printed; one that prints none is refused as such.
pub proof fn toolchains_are_accepted_from_the_minimum_on(
    out: &str,
    result: Result<(), SwiftVersionError>,
)
    requires
        call_ensures(check_swift_version, (out,), result),
    ensures
        ({
            let version = spec_swift_version(out@);
            let (major, minor) = version_numbers(version);
            &&& version.len() == 0 <==> result is Err && result->Err_0 is Unparsable
            &&& version.len() > 0 && !older(major, minor, 5, 9) <==> result is Ok
            &&& version.len() > 0 && older(major, minor, 5, 9) <==> result is Err
                && result->Err_0 is TooOld
            &&& result is Err && result->Err_0 is TooOld ==> result->Err_0->TooOld_0@ == version
        }),
{
}

/// Where a toolchain is accepted, so is every toolchain that prints a version and none older.
pub proof fn newer_toolchains_are_accepted(
    out: &str,
    result: Result<(), SwiftVersionError>,
    newer: &str,
    newer_result: Result<(), SwiftVersionError>,
)
    requires
        call_ensures(check_swift_version, (out,), result),
        call_ensures(check_swift_version, (newer,), newer_result),
        result is Ok,
        spec_swift_version(newer@).len() > 0,
        ({
            let (major, minor) = version_numbers(spec_swift_version(out@));
            let (newer_major, newer_minor) = version_numbers(spec_swift_version(newer@));
            !older(newer_major, newer_minor, major, minor)
        }),
    ensures
        newer_result is Ok,
{
}

/// Without the feature the shim is built for no operating system, known or unknown; for any
/// operating system but macOS, and where none is known, it is built neither with the feature nor
/// without it; and with the feature it is built for macOS.
pub proof fn shim_needs_feature_and_macos(feature: bool, os: Option<Seq<char>>)
    ensures
        !is_shim_target(false, os),
        !is_shim_target(feature, None),
        os != Some("macos"@) ==> !is_shim_target(feature, os),
        is_shim_target(true, Some("macos"@)),
{
}

/// What the answer whether the shim is built says of what was asked: the feature is on, and the
/// operating system is known and is macOS. Nothing else is asked for.
pub proof fn shim_is_built_for_macos_alone(feature: bool, os: Option<&str>, built: bool)
    requires
        call_ensures(builds_shim, (feature, os), built),
    ensures
        !feature ==> !built,
        os is None ==> !built,
        os matches Some(name) ==> (name@ != "macos"@ ==> !built),
        os matches Some(name) ==> (feature && name@ == "macos"@ ==> built),
{
}

/// The Swift target ends in `-apple-macos` and the deployment target that was given, whatever the
/// architecture, and in `-apple-macos11` where none was; what stands before is the architecture,
/// Apple's name for it in the case of `aarch64`.
pub proof fn target_ends_in_the_deployment_target(arch: Seq<char>, version: Seq<char>)
    ensures
        ({
            let name = if arch == "aarch64"@ {
                "arm64"@
            } else {
                arch
            };
            let target = spec_swift_target(arch, Some(version));
            &&& target.len() == name.len() + 12 + version.len()
            &&& target.take(name.len() as int) == name
            &&& target.subrange(name.len() as int, name.len() as int + 12) == "-apple-macos"@
            &&& target.skip(name.len() as int + 12) == version
        }),
        spec_swift_target(arch, None) == spec_swift_target(arch, Some("11"@)),
{
    reveal_strlit("-apple-macos");
    let name = if arch == "aarch64"@ {
        "arm64"@
    } else {
        arch
    };
    let target = spec_swift_target(arch, Some(version));
    assert(target.take(name.len() as int) =~= name);
    assert(target.subrange(name.len() as int, name.len() as int + 12) =~= "-apple-macos"@);
    assert(target.skip(name.len() as int + 12) =~= version);
}

/// The part of the Swift target behind the architecture's name does not depend on the
/// architecture, and the part before does not depend on the deployment target.
pub proof fn target_parts_are_independent(
    arch: Seq<char>,
    other_arch: Seq<char>,
    deployment: Option<Seq<char>>,
    other_deployment: Option<Seq<char>>,
)
    ensures
        ({
            let name = spec_swift_target(arch, Some(""@)).len() - 12;
            let other_name = spec_swift_target(other_arch, Some(""@)).len() - 12;
            &&& spec_swift_target(arch, deployment).skip(name) == spec_swift_target(
                other_arch,
                deployment,
            ).skip(other_name)
            &&& spec_swift_target(arch, deployment).take(name) == spec_swift_target(
                arch,
                other_deployment,
            ).take(name)
        }),
{
    reveal_strlit("-apple-macos");
    reveal_strlit("");
    let name = spec_swift_target(arch, Some(""@)).len() - 12;
    let other_name = spec_swift_target(other_arch, Some(""@)).len() - 12;
    assert(spec_swift_target(arch, deployment).skip(name) =~= spec_swift_target(
        other_arch,
        deployment,
    ).skip(other_name));
    assert(spec_swift_target(arch, deployment).take(name) =~= spec_swift_target(
        arch,
        other_deployment,
    ).take(name));
}

/// The target that is handed to the compiler ends in the deployment target that was given, for
/// every architecture, and two targets for one deployment target differ in the architecture alone.
pub proof fn compiled_target_ends_in_the_deployment_target(
    arch: &str,
    target: String,
    other_arch: &str,
    other_target: String,
    deployment: Option<&str>,
)
    requires
        call_ensures(swift_target, (arch, deployment), target),
        call_ensures(swift_target, (other_arch, deployment), other_target),
    ensures
        ({
            let version = match deployment {
                Some(version) => version@,
                None => "11"@,
            };
            let tail = "-apple-macos"@ + version;
            &&& arch@ != "aarch64"@ ==> target@ == arch@ + tail
            &&& arch@ == "aarch64"@ ==> target@ == "arm64"@ + tail
            &&& target@.skip(target@.len() - tail.len()) == tail
            &&& other_target@.skip(other_target@.len() - tail.len()) == tail
        }),
{
    let version = match deployment {
        Some(version) => version@,
        None => "11"@,
    };
    let tail = "-apple-macos"@ + version;
    assert(arch@ != "aarch64"@ ==> target@ =~= arch@ + tail);
    assert(arch@ == "aarch64"@ ==> target@ =~= "arm64"@ + tail);
    assert(target@.skip(target@.len() - tail.len()) =~= tail);
    assert(other_target@.skip(other_target@.len() - tail.len()) =~= tail);
}

/// White space is these characters and no others.
pub proof fn white_space_is_listed(c: char)
    ensures
        is_white(c) <==> {
            let code = c as u32;
            ||| 0x9 <= code <= 0xd
            ||| code == 0x20
            ||| code == 0x85
            ||| code == 0xa0
            ||| code == 0x1680
            ||| 0x2000 <= code <= 0x200a
            ||| code == 0x2028
            ||| code == 0x2029
            ||| code == 0x202f
            ||| code == 0x205f
            ||| code == 0x3000
        },
{
}

/// What is found is an occurrence with none before it, and nothing is found only where there is no
/// occurrence at all.
pub proof fn first_occurrence_is_first(text: Seq<char>, pattern: Seq<char>)
    ensures
        match first_occurrence(text, pattern) {
            Some(at) => occurs_at(text, pattern, at) && forall|i: int|
                i < at ==> !#[trigger] occurs_at(text, pattern, i),
            None => forall|i: int| !#[trigger] occurs_at(text, pattern, i),
        },
    decreases text.len(),
{
    let n = pattern.len() as int;
    if text.len() >= n {
        assert(text.take(n) =~= text.subrange(0, n));
        if text.take(n) != pattern && text.len() > 0 {
            let rest = text.drop_first();
            first_occurrence_is_first(rest, pattern);
            assert forall|i: int| i > 0 implies #[trigger] occurs_at(text, pattern, i)
                == occurs_at(rest, pattern, i - 1) by {
                if i + n <= text.len() {
                    assert(text.subrange(i, i + n) =~= rest.subrange(i - 1, i - 1 + n));
                }
            }
            if let Some(at) = first_occurrence(rest, pattern) {
                assert(occurs_at(text, pattern, at + 1) == occurs_at(rest, pattern, at));
            }
        }
    }
}

/// A text is cut at the first occurrence of a pattern, which is left out, and is nowhere cut where
/// there is none.
pub proof fn cutting_leaves_out_the_pattern(text: Seq<char>, pattern: Seq<char>)
    ensures
        match behind(text, pattern) {
            Some(rest) => text == before(text, pattern) + pattern + rest && forall|i: int|
                i < before(text, pattern).len() ==> !#[trigger] occurs_at(text, pattern, i),
            None => before(text, pattern) == text && forall|i: int|
                !#[trigger] occurs_at(text, pattern, i),
        },
{
    first_occurrence_is_first(text, pattern);
    if let Some(at) = first_occurrence(text, pattern) {
        assert(text.subrange(at, at + pattern.len()) == pattern);
        assert(text =~= text.take(at) + text.subrange(at, at + pattern.len()) + text.skip(
            at + pattern.len(),
        ));
    }
}

proof fn lemma_leading(text: Seq<char>, white: bool, n: int)
    requires
        0 <= n <= text.len(),
        forall|i: int| 0 <= i < n ==> is_white(#[trigger] text[i]) == white,
        n < text.len() ==> is_white(text[n]) != white,
    ensures
        leading(text, white) == n,
    decreases n,
{
    if n > 0 {
        let rest = text.drop_first();
        assert(is_white(text[0]) == white);
        assert forall|i: int| 0 <= i < n - 1 implies is_white(#[trigger] rest[i]) == white by {
            assert(rest[i] == text[i + 1]);
        }
        lemma_leading(rest, white, n - 1);
    }
}

proof fn lemma_trailing(text: Seq<char>, n: int)
    requires
        0 <= n <= text.len(),
        forall|i: int| n <= i < text.len() ==> is_white(#[trigger] text[i]),
        n > 0 ==> !is_white(text[n - 1]),
    ensures
        trailing(text) == text.len() - n,
    decreases text.len(),
{
    if n < text.len() {
        assert(is_white(text[text.len() - 1]));
        let rest = text.drop_last();
        assert forall|i: int| n <= i < rest.len() implies is_white(#[trigger] rest[i]) by {
            assert(rest[i] == text[i]);
        }
        lemma_trailing(rest, n);
    }
}

/// White space goes from both ends of a text, and nothing else does.
pub proof fn trimming_keeps_the_middle(text: Seq<char>, from: int, to: int)
    requires
        0 <= from <= to <= text.len(),
        forall|i: int| 0 <= i < from ==> is_white(#[trigger] text[i]),
        forall|i: int| to <= i < text.len() ==> is_white(#[trigger] text[i]),
        from < to ==> !is_white(text[from]) && !is_white(text[to - 1]),
    ensures
        trimmed(text) == text.subrange(from, to),
{
    if from < to {
        lemma_leading(text, true, from);
        let rest = text.skip(from);
        assert forall|i: int| to - from <= i < rest.len() implies is_white(
            #[trigger] rest[i],
        ) by {
            assert(rest[i] == text[from + i]);
        }
        lemma_trailing(rest, to - from);
        assert(trimmed(text) =~= text.subrange(from, to));
    } else {
        lemma_leading(text, true, text.len() as int);
        assert(trimmed(text) =~= text.subrange(from, to));
    }
}

/// The first word is what stands between the white space before it and the next white space or the
/// end; with nothing but white space there is none.
pub proof fn first_word_is_between_white_space(text: Seq<char>, from: int, to: int)
    requires
        0 <= from <= to <= text.len(),
        forall|i: int| 0 <= i < from ==> is_white(#[trigger] text[i]),
        forall|i: int| from <= i < to ==> !is_white(#[trigger] text[i]),
        to < text.len() ==> from < to && is_white(text[to]),
    ensures
        first_word(text) == text.subrange(from, to),
{
    lemma_leading(text, true, from);
    let rest = text.skip(from);
    assert forall|i: int| 0 <= i < to - from implies is_white(#[trigger] rest[i]) == false by {
        assert(rest[i] == text[from + i]);
    }
    lemma_leading(rest, false, to - from);
    assert(first_word(text) =~= text.subrange(from, to));
}

/// The version that a compiler prints: `line` stands behind the first `Swift version ` and reaches
/// to the end or to the next one, and the version is the first word of it.
pub proof fn version_stands_behind_its_marker(
    head: Seq<char>,
    line: Seq<char>,
    more: Seq<char>,
    from: int,
    to: int,
)
    requires
        ({
            let marker = "Swift version "@;
            let out = head + marker + line + more;
            &&& forall|i: int| i < head.len() ==> !#[trigger] occurs_at(out, marker, i)
            &&& forall|i: int|
                i < line.len() ==> !#[trigger] occurs_at(line + more, marker, i)
            &&& more.len() == 0 || more.len() >= marker.len() && more.take(marker.len() as int)
                == marker
        }),
        0 <= from <= to <= line.len(),
        forall|i: int| 0 <= i < from ==> is_white(#[trigger] line[i]),
        forall|i: int| from <= i < to ==> !is_white(#[trigger] line[i]),
        to < line.len() ==> from < to && is_white(line[to]),
    ensures
        spec_swift_version(head + "Swift version "@ + line + more) == line.subrange(from, to),
{
    let marker = "Swift version "@;
    reveal_strlit("Swift version ");
    let out = head + marker + line + more;
    assert(out.subrange(head.len() as int, head.len() as int + marker.len()) =~= marker);
    first_occurrence_is_first(out, marker);
    assert(occurs_at(out, marker, head.len() as int));
    assert(first_occurrence(out, marker) == Some(head.len() as int));
    let rest = line + more;
    assert(out.skip(head.len() as int + marker.len()) =~= rest);
    first_occurrence_is_first(rest, marker);
    if more.len() == 0 {
        assert(rest =~= line);
        if let Some(at) = first_occurrence(rest, marker) {
            assert(occurs_at(rest, marker, at));
        }
    } else {
        assert(rest.subrange(line.len() as int, line.len() as int + marker.len()) =~= marker);
        assert(occurs_at(rest, marker, line.len() as int));
        assert(first_occurrence(rest, marker) == Some(line.len() as int));
        assert(rest.take(line.len() as int) =~= line);
    }
    assert(before(rest, marker) == line);
    first_word_is_between_white_space(line, from, to);
}

/// A compiler that nowhere prints `Swift version ` prints no version.
pub proof fn no_marker_no_version(out: Seq<char>)
    requires
        forall|i: int| !#[trigger] occurs_at(out, "Swift version "@, i),
    ensures
        spec_swift_version(out).len() == 0,
{
    first_occurrence_is_first(out, "Swift version "@);
}

/// Digits are read as they are written: each one more makes ten times the number, and the digit's
/// value on top of it.
pub proof fn digits_are_decimal(digits: Seq<char>, digit: char)
    ensures
        decimal(Seq::empty()) == 0,
        decimal(digits.push(digit)) == 10 * decimal(digits) + (digit as int - 0x30),
        is_digit(digit) <==> 0x30 <= digit as int <= 0x39,
        all_digits(digits) <==> forall|i: int|
            0 <= i < digits.len() ==> 0x30 <= #[trigger] digits[i] as int <= 0x39,
{
    assert(digits.push(digit).drop_last() =~= digits);
    assert forall|i: int| all_digits(digits) && 0 <= i < digits.len() implies 0x30
        <= #[trigger] digits[i] as int <= 0x39 by {
        assert(is_digit(digits[i]));
    }
}

/// A number is its digits, with or without a plus sign before them. What is no number counts as 0:
/// nothing, a sign alone, anything else among the digits, or more than fits.
pub proof fn numbers_are_read_or_zero(digits: Seq<char>)
    ensures
        digits.len() > 0 && all_digits(digits) && decimal(digits) <= u32::MAX ==> {
            &&& number_or_zero(digits) == decimal(digits)
            &&& number_or_zero(seq!['+'] + digits) == decimal(digits)
        },
        digits.len() == 0 || !all_digits(digits) || decimal(digits) > u32::MAX ==> number_or_zero(
            seq!['+'] + digits,
        ) == 0,
        digits.len() == 0 || (!all_digits(digits) && digits[0] != '+') || (all_digits(digits)
            && decimal(digits) > u32::MAX) ==> number_or_zero(digits) == 0,
{
    assert((seq!['+'] + digits).drop_first() =~= digits);
    if digits.len() > 0 && all_digits(digits) {
        assert(is_digit(digits[0]));
        lemma_decimal_grows(digits, 0);
        assert(digits.take(0).len() == 0);
    }
}

proof fn lemma_cut(head: Seq<char>, tail: Seq<char>)
    requires
        !head.contains('.'),
    ensures
        before(head + seq!['.'] + tail, seq!['.']) == head,
        behind(head + seq!['.'] + tail, seq!['.']) == Some(tail),
        before(head, seq!['.']) == head,
        behind(head, seq!['.']) is None,
{
    let dot = seq!['.'];
    let text = head + dot + tail;
    first_occurrence_is_first(text, dot);
    assert(text.subrange(head.len() as int, head.len() as int + 1) =~= dot);
    assert(occurs_at(text, dot, head.len() as int));
    assert forall|i: int| i < head.len() implies !#[trigger] occurs_at(text, dot, i) by {
        if occurs_at(text, dot, i) {
            assert(text.subrange(i, i + 1)[0] == '.');
            assert(head[i] == '.');
        }
    }
    assert(first_occurrence(text, dot) == Some(head.len() as int));
    assert(text.take(head.len() as int) =~= head);
    assert(text.skip(head.len() as int + 1) =~= tail);
    first_occurrence_is_first(head, dot);
    if let Some(at) = first_occurrence(head, dot) {
        assert(head.subrange(at, at + 1)[0] == '.');
        assert(head[at] == '.');
    }
}

/// The numbers of a version are what stands before its first dot, and what stands behind that and
/// before the next one; whatever follows makes no difference, and without a dot the minor number
/// is 0.
pub proof fn version_is_read_up_to_the_second_dot(
    major: Seq<char>,
    minor: Seq<char>,
    more: Seq<char>,
)
    requires
        !major.contains('.'),
        !minor.contains('.'),
    ensures
        version_numbers(major) == (number_or_zero(major), 0u32),
        version_numbers(major + seq!['.'] + minor) == (
            number_or_zero(major),
            number_or_zero(minor),
        ),
        version_numbers(major + seq!['.'] + (minor + seq!['.'] + more)) == (
            number_or_zero(major),
            number_or_zero(minor),
        ),
{
    lemma_cut(major, minor);
    lemma_cut(major, minor + seq!['.'] + more);
    lemma_cut(minor, more);
}

/// What a compiler prints decides as it stands there: where the first word behind the first
/// `Swift version ` is digits, a dot, digits and whatever may follow behind another dot, the
/// toolchain is refused exactly where these digits make a version older than 5.9, and the error
/// then holds that word.
pub proof fn printed_version_decides(
    out: &str,
    result: Result<(), SwiftVersionError>,
    head: Seq<char>,
    line: Seq<char>,
    more: Seq<char>,
    from: int,
    to: int,
    major: Seq<char>,
    minor: Seq<char>,
    patch: Seq<char>,
)
    requires
        call_ensures(check_swift_version, (out,), result),
        out@ == head + "Swift version "@ + line + more,
        ({
            let marker = "Swift version "@;
            &&& forall|i: int| i < head.len() ==> !#[trigger] occurs_at(out@, marker, i)
            &&& forall|i: int|
                i < line.len() ==> !#[trigger] occurs_at(line + more, marker, i)
            &&& more.len() == 0 || more.len() >= marker.len() && more.take(marker.len() as int)
                == marker
        }),
        0 <= from < to <= line.len(),
        forall|i: int| 0 <= i < from ==> is_white(#[trigger] line[i]),
        forall|i: int| from <= i < to ==> !is_white(#[trigger] line[i]),
        to < line.len() ==> is_white(line[to]),
        major.len() > 0 && all_digits(major) && decimal(major) <= u32::MAX,
        minor.len() > 0 && all_digits(minor) && decimal(minor) <= u32::MAX,
        line.subrange(from, to) == major + seq!['.'] + minor || line.subrange(from, to) == major
            + seq!['.'] + (minor + seq!['.'] + patch),
    ensures
        result is Ok <==> decimal(major) > 5 || (decimal(major) == 5 && decimal(minor) >= 9),
        result is Err ==> result->Err_0 is TooOld && result->Err_0->TooOld_0@ == line.subrange(
            from,
            to,
        ),
{
    version_stands_behind_its_marker(head, line, more, from, to);
    assert(!major.contains('.')) by {
        if major.contains('.') {
            let i = choose|i: int| 0 <= i < major.len() && major[i] == '.';
            assert(is_digit(major[i]));
        }
    }
    assert(!minor.contains('.')) by {
        if minor.contains('.') {
            let i = choose|i: int| 0 <= i < minor.len() && minor[i] == '.';
            assert(is_digit(minor[i]));
        }
    }
    version_is_read_up_to_the_second_dot(major, minor, patch);
    numbers_are_read_or_zero(major);
    numbers_are_read_or_zero(minor);
    lemma_decimal_grows(major, 0);
    lemma_decimal_grows(minor, 0);
}

/// The version that is read is the version that is checked, and the numbers that are read of it
/// decide.
pub proof fn check_reads_the_version(
    out: &str,
    version: String,
    version_text: &str,
    numbers: (u32, u32),
    result: Result<(), SwiftVersionError>,
)
    requires
        call_ensures(swift_version, (out,), version),
        version_text@ == version@,
        call_ensures(parse_version, (version_text,), numbers),
        call_ensures(check_swift_version, (out,), result),
    ensures
        result is Ok <==> version@.len() > 0 && !older(numbers.0, numbers.1, 5, 9),
        result is Err && result->Err_0 is Unparsable <==> version@.len() == 0,
        result is Err && result->Err_0 is TooOld ==> result->Err_0->TooOld_0@ == version@,
{
}

/// The path of the SDK is what was printed, without the white space before and behind it, and the
/// Swift libraries are in `usr/lib/swift` under that path.
pub proof fn libraries_are_under_the_sdk(
    out: &str,
    path: String,
    dir: String,
    from: int,
    to: int,
)
    requires
        call_ensures(sdk_path, (out,), path),
        call_ensures(sdk_library_dir, (out,), dir),
        0 <= from <= to <= out@.len(),
        forall|i: int| 0 <= i < from ==> is_white(#[trigger] out@[i]),
        forall|i: int| to <= i < out@.len() ==> is_white(#[trigger] out@[i]),
        from < to ==> !is_white(out@[from]) && !is_white(out@[to - 1]),
    ensures
        path@ == out@.subrange(from, to),
        dir@ == path@ + "/usr/lib/swift"@,
{
    trimming_keeps_the_middle(out@, from, to);
}

/// The archives are in `macosx` under the directory of runtime resources that the description of
/// the target names. Where it names none, or cannot be read, there is an error that says which.
pub proof fn archives_are_under_the_resources(
    info: &str,
    dir: Result<String, TargetInfoError>,
    found: Result<Option<String>, serde_json::Error>,
    found_dir: Result<String, TargetInfoError>,
)
    requires
        call_ensures(compatibility_archives, (info,), dir),
        call_ensures(archive_dir, (found,), found_dir),
    ensures
        match json_string_at(info@, "paths"@, "runtimeResourcePath"@) {
            Some(Some(path)) => dir is Ok && dir->Ok_0@ == path + "/macosx"@,
            Some(None) => dir is Err && dir->Err_0 is NoRuntimePath,
            None => dir is Err && dir->Err_0 is Unparsable,
        },
        match found {
            Ok(Some(path)) => found_dir is Ok && found_dir->Ok_0@ == path@ + "/macosx"@,
            Ok(None) => found_dir is Err && found_dir->Err_0 is NoRuntimePath,
            Err(error) => found_dir is Err && found_dir->Err_0 == TargetInfoError::Unparsable(
                error,
            ),
        },
{
}

} // verus!
