//! The Swift toolchain that the enclave shim is built with.

use vstd::prelude::*;

verus! {

/// Oldest Swift toolchain the shim is known to link with: the major number.
pub const MIN_SWIFT_MAJOR: u32 = 5;

/// Oldest Swift toolchain the shim is known to link with: the minor number.
pub const MIN_SWIFT_MINOR: u32 = 9;

/// Why a toolchain cannot build the shim.
#[derive(Debug)]
pub enum SwiftVersionError {
    /// The output of the compiler names no version.
    Unparsable,
    /// The compiler is of this version, which is too old.
    TooOld(String),
}

/// Why the description of a toolchain's target does not lead to its archives.
#[derive(Debug)]
pub enum TargetInfoError {
    /// It cannot be read as JSON.
    Unparsable(serde_json::Error),
    /// It names no directory of runtime resources.
    NoRuntimePath,
}

/// Where `pattern` first occurs in `text`.
pub open spec fn first_occurrence(text: Seq<char>, pattern: Seq<char>) -> Option<int>
    decreases text.len(),
{
    if text.len() < pattern.len() {
        None
    } else if text.take(pattern.len() as int) == pattern {
        Some(0int)
    } else if text.len() == 0 {
        None
    } else {
        match first_occurrence(text.drop_first(), pattern) {
            Some(i) => Some(i + 1),
            None => None,
        }
    }
}

/// `text` up to the first `pattern` in it, all of it where there is none.
pub open spec fn before(text: Seq<char>, pattern: Seq<char>) -> Seq<char> {
    match first_occurrence(text, pattern) {
        Some(i) => text.take(i),
        None => text,
    }
}

/// `text` behind the first `pattern` in it, if there is one.
pub open spec fn behind(text: Seq<char>, pattern: Seq<char>) -> Option<Seq<char>> {
    match first_occurrence(text, pattern) {
        Some(i) => Some(text.skip(i + pattern.len())),
        None => None,
    }
}

/// Whether `c` has the Unicode property `White_Space`.
pub open spec fn is_white(c: char) -> bool {
    ||| '\u{9}' <= c <= '\u{d}'
    ||| c == ' '
    ||| c == '\u{85}'
    ||| c == '\u{a0}'
    ||| c == '\u{1680}'
    ||| '\u{2000}' <= c <= '\u{200a}'
    ||| c == '\u{2028}'
    ||| c == '\u{2029}'
    ||| c == '\u{202f}'
    ||| c == '\u{205f}'
    ||| c == '\u{3000}'
}

/// How many white-space characters (`white`), or other characters, `text` starts with.
pub open spec fn leading(text: Seq<char>, white: bool) -> nat
    decreases text.len(),
{
    if text.len() == 0 || is_white(text[0]) != white {
        0
    } else {
        1 + leading(text.drop_first(), white)
    }
}

/// The first word of `text`, words being set apart by white space; empty where there is none.
pub open spec fn first_word(text: Seq<char>) -> Seq<char> {
    let rest = text.skip(leading(text, true) as int);
    rest.take(leading(rest, false) as int)
}

/// The version in the output of `swiftc --version`: the first word behind the first
/// `Swift version ` and before any second one; empty where there is none.
pub open spec fn spec_swift_version(out: Seq<char>) -> Seq<char> {
    match behind(out, "Swift version "@) {
        Some(rest) => first_word(before(rest, "Swift version "@)),
        None => Seq::empty(),
    }
}

/// Whether `c` is a decimal digit.
pub open spec fn is_digit(c: char) -> bool {
    '0' <= c <= '9'
}

/// The number that decimal digits stand for.
pub open spec fn decimal(digits: Seq<char>) -> int
    decreases digits.len(),
{
    if digits.len() == 0 {
        0
    } else {
        10 * decimal(digits.drop_last()) + (digits.last() as int - '0' as int)
    }
}

/// `text` without a leading plus sign.
pub open spec fn strip_plus(text: Seq<char>) -> Seq<char> {
    if text.len() > 0 && text[0] == '+' {
        text.drop_first()
    } else {
        text
    }
}

/// Whether all of `text` is decimal digits.
pub open spec fn all_digits(text: Seq<char>) -> bool {
    forall|i: int| 0 <= i < text.len() ==> is_digit(#[trigger] text[i])
}

/// The number that `text` stands for: decimal digits behind an optional plus sign, at least one
/// and of a value that fits; 0 for any other text.
pub open spec fn number_or_zero(text: Seq<char>) -> u32 {
    let digits = strip_plus(text);
    if digits.len() > 0 && all_digits(digits) && decimal(digits) <= u32::MAX {
        decimal(digits) as u32
    } else {
        0
    }
}

/// The first two numbers of a dotted version.
pub open spec fn version_numbers(version: Seq<char>) -> (u32, u32) {
    (
        number_or_zero(before(version, seq!['.'])),
        match behind(version, seq!['.']) {
            Some(rest) => number_or_zero(before(rest, seq!['.'])),
            None => 0,
        },
    )
}

/// Whether a version is at least as new as the oldest supported one.
pub open spec fn is_supported(major: u32, minor: u32) -> bool {
    major > MIN_SWIFT_MAJOR || (major == MIN_SWIFT_MAJOR && minor >= MIN_SWIFT_MINOR)
}

/// Whether `c` has the Unicode property `White_Space`.
fn white(c: char) -> (r: bool)
    ensures
        r == is_white(c),
{
    ('\u{9}' <= c && c <= '\u{d}') || c == ' ' || c == '\u{85}' || c == '\u{a0}' || c == '\u{1680}'
        || ('\u{2000}' <= c && c <= '\u{200a}') || c == '\u{2028}' || c == '\u{2029}' || c
        == '\u{202f}' || c == '\u{205f}' || c == '\u{3000}'
}

/// The characters of `text`.
fn chars_of(text: &str) -> (chars: Vec<char>)
    ensures
        chars@ == text@,
{
    let mut chars: Vec<char> = Vec::new();
    for c in it: text.chars()
        invariant
            it.seq() == text@,
            chars@ == text@.take(it.index()),
    {
        chars.push(c);
    }
    assert(text@.take(text@.len() as int) =~= text@);
    chars
}

/// Finds the first `pattern` in `text[from..to]`, as an index into `text`.
fn find(text: &[char], from: usize, to: usize, pattern: &[char]) -> (at: Option<usize>)
    requires
        from <= to <= text@.len(),
    ensures
        match at {
            Some(i) => first_occurrence(text@.subrange(from as int, to as int), pattern@) == Some(
                i - from,
            ) && from <= i && i + pattern@.len() <= to,
            None => first_occurrence(text@.subrange(from as int, to as int), pattern@) is None,
        },
{
    let mut i: usize = from;
    let ghost all = text@.subrange(from as int, to as int);
    loop
        invariant
            from <= i <= to <= text@.len(),
            all == text@.subrange(from as int, to as int),
            first_occurrence(all, pattern@) == match first_occurrence(
                text@.subrange(i as int, to as int),
                pattern@,
            ) {
                Some(k) => Some(k + (i - from)),
                None => None,
            },
        decreases to - i,
    {
        let ghost rest = text@.subrange(i as int, to as int);
        if to - i < pattern.len() {
            return None;
        }
        let mut k: usize = 0;
        while k < pattern.len() && text[i + k] == pattern[k]
            invariant
                i <= to <= text@.len(),
                k <= pattern@.len() <= to - i,
                forall|j: int| 0 <= j < k ==> text@[i + j] == pattern@[j],
            decreases pattern@.len() - k,
        {
            k = k + 1;
        }
        if k == pattern.len() {
            assert(rest.take(pattern@.len() as int) =~= pattern@);
            return Some(i);
        }
        assert(rest.take(pattern@.len() as int)[k as int] != pattern@[k as int]);
        assert(rest.drop_first() =~= text@.subrange(i + 1, to as int));
        i = i + 1;
    }
}

/// Cuts `text[from..to]` at the first `pattern` in it: gives where the part before it ends, and
/// where the part behind it starts.
fn cut(text: &[char], from: usize, to: usize, pattern: &[char]) -> (r: (usize, Option<usize>))
    requires
        from <= to <= text@.len(),
    ensures
        from <= r.0 <= to,
        before(text@.subrange(from as int, to as int), pattern@) == text@.subrange(
            from as int,
            r.0 as int,
        ),
        match r.1 {
            Some(next) => next <= to && behind(text@.subrange(from as int, to as int), pattern@)
                == Some(text@.subrange(next as int, to as int)),
            None => behind(text@.subrange(from as int, to as int), pattern@) is None,
        },
{
    let ghost all = text@.subrange(from as int, to as int);
    match find(text, from, to, pattern) {
        Some(at) => {
            let next: usize = at + pattern.len();
            assert(all.take(at - from) =~= text@.subrange(from as int, at as int));
            assert(all.skip(at - from + pattern@.len()) =~= text@.subrange(
                next as int,
                to as int,
            ));
            (at, Some(next))
        },
        None => (to, None),
    }
}

/// The end of the run of white-space characters (`kind`), or of others, that `text[from..to]`
/// starts with.
fn run_end(text: &[char], from: usize, to: usize, kind: bool) -> (end: usize)
    requires
        from <= to <= text@.len(),
    ensures
        end == from + leading(text@.subrange(from as int, to as int), kind),
        from <= end <= to,
{
    let mut i: usize = from;
    while i < to && white(text[i]) == kind
        invariant
            from <= i <= to <= text@.len(),
            leading(text@.subrange(from as int, to as int), kind) == (i - from) + leading(
                text@.subrange(i as int, to as int),
                kind,
            ),
        decreases to - i,
    {
        assert(text@.subrange(i as int, to as int).drop_first() =~= text@.subrange(
            i + 1,
            to as int,
        ));
        i = i + 1;
    }
    i
}

/// More digits make no smaller number.
pub proof fn lemma_decimal_grows(digits: Seq<char>, n: int)
    requires
        0 <= n <= digits.len(),
        all_digits(digits),
    ensures
        0 <= decimal(digits.take(n)) <= decimal(digits),
    decreases digits.len(),
{
    if n == digits.len() {
        assert(digits.take(n) =~= digits);
    }
    if digits.len() > 0 {
        let head = digits.drop_last();
        assert forall|i: int| 0 <= i < head.len() implies is_digit(#[trigger] head[i]) by {
            assert(head[i] == digits[i]);
        }
        assert(is_digit(digits[digits.len() - 1]));
        if n < digits.len() {
            lemma_decimal_grows(head, n);
            assert(head.take(n) =~= digits.take(n));
        } else {
            lemma_decimal_grows(head, n - 1);
        }
    }
}

/// Reads `text[from..to]` as a number, anything that is none as 0.
fn parse_number(text: &[char], from: usize, to: usize) -> (number: u32)
    requires
        from <= to <= text@.len(),
    ensures
        number == number_or_zero(text@.subrange(from as int, to as int)),
{
    let ghost all = text@.subrange(from as int, to as int);
    let start: usize = if from < to && text[from] == '+' {
        from + 1
    } else {
        from
    };
    let ghost digits = text@.subrange(start as int, to as int);
    assert(digits =~= strip_plus(all));
    if start == to {
        return 0;
    }
    let mut value: u32 = 0;
    let mut i: usize = start;
    while i < to
        invariant
            from <= start <= i <= to <= text@.len(),
            all == text@.subrange(from as int, to as int),
            digits == text@.subrange(start as int, to as int),
            digits == strip_plus(all),
            value == decimal(digits.take(i - start)),
            forall|k: int| 0 <= k < i - start ==> is_digit(#[trigger] digits[k]),
        decreases to - i,
    {
        let c = text[i];
        assert(c == digits[i - start]);
        if c < '0' || c > '9' {
            assert(!is_digit(digits[i - start]));
            return 0;
        }
        let grown: u64 = value as u64 * 10 + (c as u32 - '0' as u32) as u64;
        assert(digits.take(i - start + 1).drop_last() =~= digits.take(i - start));
        assert(grown == decimal(digits.take(i - start + 1)));
        if grown > u32::MAX as u64 {
            proof {
                if all_digits(digits) {
                    lemma_decimal_grows(digits, i - start + 1);
                }
            }
            return 0;
        }
        value = grown as u32;
        i = i + 1;
    }
    assert(digits.take(digits.len() as int) =~= digits);
    value
}

/// The version in the output of `swiftc --version`; empty where it names none.
pub fn swift_version(out: &str) -> (version: String)
    ensures
        version@ == spec_swift_version(out@),
{
    let text = chars_of(out);
    let marker = chars_of("Swift version ");
    assert(text@.subrange(0, text@.len() as int) =~= out@);
    match cut(text.as_slice(), 0, text.len(), marker.as_slice()).1 {
        None => String::new(),
        Some(from) => {
            let to: usize = cut(text.as_slice(), from, text.len(), marker.as_slice()).0;
            let ghost part = text@.subrange(from as int, to as int);
            let start: usize = run_end(text.as_slice(), from, to, true);
            let end: usize = run_end(text.as_slice(), start, to, false);
            assert(part.skip(start - from) =~= text@.subrange(start as int, to as int));
            assert(first_word(part) =~= out@.subrange(start as int, end as int));
            out.substring_char(start, end).to_owned()
        },
    }
}

/// The first two numbers of a dotted version, each 0 where it is missing or no number.
pub fn parse_version(version: &str) -> (numbers: (u32, u32))
    ensures
        numbers == version_numbers(version@),
{
    let text = chars_of(version);
    let dot: Vec<char> = vec!['.'];
    assert(dot@ =~= seq!['.']);
    assert(text@.subrange(0, text@.len() as int) =~= version@);
    let (end, next) = cut(text.as_slice(), 0, text.len(), dot.as_slice());
    let major: u32 = parse_number(text.as_slice(), 0, end);
    let minor: u32 = match next {
        Some(from) => {
            let (to, _) = cut(text.as_slice(), from, text.len(), dot.as_slice());
            parse_number(text.as_slice(), from, to)
        },
        None => 0,
    };
    (major, minor)
}

/// Rejects toolchains older than the oldest supported one before anything is compiled with them.
/// `out` is the output of `swiftc --version`.
pub fn check_swift_version(out: &str) -> (result: Result<(), SwiftVersionError>)
    ensures
        ({
            let version = spec_swift_version(out@);
            let (major, minor) = version_numbers(version);
            match result {
                Ok(()) => version.len() > 0 && is_supported(major, minor),
                Err(SwiftVersionError::Unparsable) => version.len() == 0,
                Err(SwiftVersionError::TooOld(found)) => found@ == version && version.len() > 0
                    && !is_supported(major, minor),
            }
        }),
{
    let version = swift_version(out);
    if version.as_str().is_empty() {
        return Err(SwiftVersionError::Unparsable);
    }
    let (major, minor) = parse_version(version.as_str());
    if major > MIN_SWIFT_MAJOR || (major == MIN_SWIFT_MAJOR && minor >= MIN_SWIFT_MINOR) {
        Ok(())
    } else {
        Err(SwiftVersionError::TooOld(version))
    }
}

/// Whether the shim is built: only with the feature on, and only for macOS.
pub open spec fn is_shim_target(feature: bool, os: Option<Seq<char>>) -> bool {
    feature && os == Some("macos"@)
}

/// Whether the shim is built, given whether the feature is on and the target's operating system,
/// where that is known.
pub fn builds_shim(feature: bool, os: Option<&str>) -> (r: bool)
    ensures
        r == is_shim_target(
            feature,
            match os {
                Some(name) => Some(name@),
                None => None,
            },
        ),
{
    match os {
        Some(name) => feature && name.to_owned() == "macos".to_owned(),
        None => false,
    }
}

/// The target that the Swift compiler is given: Rust's name of the architecture in Apple's words
/// (Apple Silicon, plus Intel Macs whose T2 chip provides a Secure Enclave), and the deployment
/// target, macOS 11 unless one is asked for.
pub open spec fn spec_swift_target(arch: Seq<char>, deployment: Option<Seq<char>>) -> Seq<char> {
    let apple = if arch == "aarch64"@ {
        "arm64"@
    } else {
        arch
    };
    let version = match deployment {
        Some(version) => version,
        None => "11"@,
    };
    apple + "-apple-macos"@ + version
}

/// The target that the Swift compiler is given for an architecture and a deployment target.
pub fn swift_target(arch: &str, deployment: Option<&str>) -> (target: String)
    ensures
        target@ == spec_swift_target(
            arch@,
            match deployment {
                Some(version) => Some(version@),
                None => None,
            },
        ),
{
    let mut target = if arch.to_owned() == "aarch64".to_owned() {
        "arm64".to_owned()
    } else {
        arch.to_owned()
    };
    target.append("-apple-macos");
    target.append(
        match deployment {
            Some(version) => version,
            None => "11",
        },
    );
    target
}

/// How many white-space characters `text` ends with.
pub open spec fn trailing(text: Seq<char>) -> nat
    decreases text.len(),
{
    if text.len() == 0 || !is_white(text.last()) {
        0
    } else {
        1 + trailing(text.drop_last())
    }
}

/// `text` without the white space at both ends.
pub open spec fn trimmed(text: Seq<char>) -> Seq<char> {
    let rest = text.skip(leading(text, true) as int);
    rest.take(rest.len() - trailing(rest))
}

/// The path of the SDK, as `out`, the output of `xcrun --show-sdk-path`, tells it.
pub fn sdk_path(out: &str) -> (path: String)
    ensures
        path@ == trimmed(out@),
{
    let text = chars_of(out);
    assert(text@.subrange(0, text@.len() as int) =~= out@);
    let start: usize = run_end(text.as_slice(), 0, text.len(), true);
    let mut end: usize = text.len();
    let ghost rest = out@.skip(start as int);
    assert(rest =~= text@.subrange(start as int, end as int));
    while start < end && white(text[end - 1])
        invariant
            start <= end <= text@.len(),
            rest == text@.subrange(start as int, text@.len() as int),
            trailing(rest) == (text@.len() - end) + trailing(
                text@.subrange(start as int, end as int),
            ),
        decreases end,
    {
        assert(text@.subrange(start as int, end as int).drop_last() =~= text@.subrange(
            start as int,
            end - 1,
        ));
        end = end - 1;
    }
    assert(trimmed(out@) =~= out@.subrange(start as int, end as int));
    out.substring_char(start, end).to_owned()
}

/// The directory of the SDK's Swift libraries. `sdk` is the output of `xcrun --show-sdk-path`.
pub fn sdk_library_dir(sdk: &str) -> (dir: String)
    ensures
        dir@ == trimmed(sdk@) + "/usr/lib/swift"@,
{
    let mut dir = sdk_path(sdk);
    dir.append("/usr/lib/swift");
    dir
}

/// What `serde_json` finds in the JSON text `text` under the key `outer` and, in what is there,
/// under the key `inner`: `None` where `serde_json` refuses `text`, `Some(None)` where no string is
/// there.
pub uninterp spec fn json_string_at(
    text: Seq<char>,
    outer: Seq<char>,
    inner: Seq<char>,
) -> Option<Option<Seq<char>>>;

/// Calls `serde_json::from_str`, indexes the value twice and takes the string found there with
/// `serde_json::Value::as_str`: what comes out is a function of the text and of the two keys, and
/// there is an error exactly where `from_str` refuses the text. Which texts it refuses (those that
/// are not JSON, and some that are nested too deeply or hold numbers out of range) is left unsaid.
#[verifier::external_body]
fn read_json_string(text: &str, outer: &str, inner: &str) -> (found: Result<
    Option<String>,
    serde_json::Error,
>)
    ensures
        match found {
            Ok(Some(s)) => json_string_at(text@, outer@, inner@) == Some(Some(s@)),
            Ok(None) => json_string_at(text@, outer@, inner@) == Some(None::<Seq<char>>),
            Err(_) => json_string_at(text@, outer@, inner@) is None,
        },
{
    let value: serde_json::Value = serde_json::from_str(text)?;
    Ok(value[outer][inner].as_str().map(String::from))
}

/// The directory with the archives that are linked where the deployment target predates the
/// host's Swift runtime, given the directory of runtime resources, if one was found.
pub fn archive_dir(found: Result<Option<String>, serde_json::Error>) -> (dir: Result<
    String,
    TargetInfoError,
>)
    ensures
        match dir {
            Ok(d) => found matches Ok(Some(path)) && d@ == path@ + "/macosx"@,
            Err(TargetInfoError::NoRuntimePath) => found matches Ok(None),
            Err(TargetInfoError::Unparsable(error)) => found == Err::<
                Option<String>,
                serde_json::Error,
            >(error),
        },
{
    match found {
        Ok(Some(path)) => {
            let mut dir = path;
            dir.append("/macosx");
            Ok(dir)
        },
        Ok(None) => Err(TargetInfoError::NoRuntimePath),
        Err(error) => Err(TargetInfoError::Unparsable(error)),
    }
}

/// The directory with the compatibility archives, as `info`, the output of
/// `swiftc -print-target-info`, tells it.
pub fn compatibility_archives(info: &str) -> (dir: Result<String, TargetInfoError>)
    ensures
        match dir {
            Ok(d) => json_string_at(info@, "paths"@, "runtimeResourcePath"@) matches Some(
                Some(path),
            ) && d@ == path + "/macosx"@,
            Err(TargetInfoError::NoRuntimePath) => json_string_at(
                info@,
                "paths"@,
                "runtimeResourcePath"@,
            ) == Some(None::<Seq<char>>),
            Err(TargetInfoError::Unparsable(_)) => json_string_at(
                info@,
                "paths"@,
                "runtimeResourcePath"@,
            ) is None,
        },
{
    archive_dir(read_json_string(info, "paths", "runtimeResourcePath"))
}

} // verus!
