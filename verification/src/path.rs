//! Paths of keystores and of the sidecar files next to them.
//!
//! A path is the sequence of bytes that a Unix file system knows it by.

use vstd::prelude::*;

verus! {

/// The byte that separates the components of a path.
pub const SEPARATOR: u8 = 0x2f;

/// The byte of a dot.
pub const DOT: u8 = 0x2e;

/// Extension of the sidecar file stored next to the keystore JSON.
pub const SIDECAR_EXT: &'static str = "touchid";

/// What a sidecar path has behind the keystore path: `.touchid`.
pub open spec fn sidecar_suffix() -> Seq<u8> {
    seq![
        '.' as u8,
        't' as u8,
        'o' as u8,
        'u' as u8,
        'c' as u8,
        'h' as u8,
        'i' as u8,
        'd' as u8,
    ]
}

/// The path of the sidecar of `keystore`: the keystore path with `.touchid` appended, whatever
/// dots the path already holds.
pub open spec fn spec_sidecar_path(keystore: Seq<u8>) -> Seq<u8> {
    keystore + sidecar_suffix()
}

/// Returns the sidecar path for a keystore: the keystore path with `.touchid` appended.
pub fn sidecar_path(keystore: &[u8]) -> (path: Vec<u8>)
    ensures
        path@ == spec_sidecar_path(keystore@),
{
    let mut path: Vec<u8> = vstd::slice::slice_to_vec(keystore);
    path.push(DOT);
    path.extend_from_slice(SIDECAR_EXT.as_bytes());
    proof {
        reveal_strlit("touchid");
        vstd::utf8::is_ascii_chars_encode_utf8(SIDECAR_EXT@);
    }
    path
}

/// The index behind the last separator of `path`, 0 where it has none: where the last component
/// starts.
pub open spec fn component_start(path: Seq<u8>) -> nat
    decreases path.len(),
{
    if path.len() == 0 || path.last() == SEPARATOR {
        path.len()
    } else {
        component_start(path.drop_last())
    }
}

/// The last component of `path` that is neither empty nor a single dot, which both stand for the
/// directory before them; `None` where there is none, or where it is two dots and so names no
/// file.
pub open spec fn spec_file_name(path: Seq<u8>) -> Option<Seq<u8>>
    decreases path.len(),
{
    let start = component_start(path) as int;
    let last = path.skip(start);
    if last.len() == 0 || last == seq![DOT] {
        if 0 < start <= path.len() {
            spec_file_name(path.take(start - 1))
        } else {
            None
        }
    } else if last == seq![DOT, DOT] {
        None
    } else {
        Some(last)
    }
}

/// `component_start` is an index into the path, a separator stands before it, and none behind it.
pub proof fn lemma_component_start(path: Seq<u8>)
    ensures
        component_start(path) <= path.len(),
        component_start(path) > 0 ==> path[component_start(path) - 1] == SEPARATOR,
        forall|i: int| component_start(path) <= i < path.len() ==> path[i] != SEPARATOR,
    decreases path.len(),
{
    if path.len() > 0 && path.last() != SEPARATOR {
        let head = path.drop_last();
        lemma_component_start(head);
        assert forall|i: int| component_start(path) <= i < path.len() implies path[i]
            != SEPARATOR by {
            if i < head.len() {
                assert(path[i] == head[i]);
            }
        }
    }
}

/// The file name of a path, if it has one.
pub fn file_name(path: &[u8]) -> (name: Option<Vec<u8>>)
    ensures
        match name {
            Some(n) => spec_file_name(path@) == Some(n@),
            None => spec_file_name(path@) is None,
        },
{
    let mut end: usize = path.len();
    assert(path@.take(end as int) =~= path@);
    loop
        invariant
            end <= path@.len(),
            spec_file_name(path@) == spec_file_name(path@.take(end as int)),
        decreases end,
    {
        let ghost head = path@.take(end as int);
        let mut start: usize = end;
        while start > 0 && path[start - 1] != SEPARATOR
            invariant
                start <= end <= path@.len(),
                head == path@.take(end as int),
                component_start(head) == component_start(path@.take(start as int)),
            decreases start,
        {
            assert(path@.take(start as int).drop_last() =~= path@.take(start - 1));
            start = start - 1;
        }
        assert(component_start(head) == start);
        let last: &[u8] = vstd::slice::slice_subrange(path, start, end);
        assert(last@ =~= head.skip(start as int));
        if last.len() == 0 || (last.len() == 1 && last[0] == DOT) {
            assert(last.len() == 1 ==> last@ =~= seq![DOT]);
            if start == 0 {
                return None;
            }
            assert(head.take(start - 1) =~= path@.take(start - 1));
            end = start - 1;
        } else if last.len() == 2 && last[0] == DOT && last[1] == DOT {
            assert(last@ =~= seq![DOT, DOT]);
            return None;
        } else {
            return Some(vstd::slice::slice_to_vec(last));
        }
    }
}

/// A path of a directory and a name in it has that name.
pub proof fn file_name_in_directory(directory: Seq<u8>, name: Seq<u8>)
    requires
        forall|i: int| 0 <= i < name.len() ==> name[i] != '/' as u8,
        name.len() > 0,
        name != seq!['.' as u8],
        name != seq!['.' as u8, '.' as u8],
    ensures
        spec_file_name(directory.push('/' as u8) + name) == Some(name),
{
    let head = directory.push(SEPARATOR);
    lemma_start_before_suffix(head, name);
    assert((head + name).skip(head.len() as int) =~= name);
}

/// A trailing separator, with or without a dot behind it, does not change the name of a path.
pub proof fn file_name_ignores_trailing_dot(path: Seq<u8>)
    ensures
        spec_file_name(path.push('/' as u8)) == spec_file_name(path),
        spec_file_name(path.push('/' as u8).push('.' as u8)) == spec_file_name(path),
{
    let slash = path.push(SEPARATOR);
    let dotted = slash.push(DOT);
    assert(slash.skip(slash.len() as int) =~= Seq::empty());
    assert(slash.take(path.len() as int) =~= path);
    assert(dotted.drop_last() =~= slash);
    assert(component_start(dotted) == slash.len());
    assert(dotted.skip(slash.len() as int) =~= seq![DOT]);
    assert(dotted.take(path.len() as int) =~= path);
}

/// The sidecar path is the keystore path, byte for byte and whatever it is, followed by the text
/// `.touchid` and nothing else.
pub proof fn sidecar_path_only_appends(keystore: Seq<u8>)
    ensures
        spec_sidecar_path(keystore).len() == keystore.len() + 8,
        spec_sidecar_path(keystore).take(keystore.len() as int) == keystore,
        spec_sidecar_path(keystore).skip(keystore.len() as int) == vstd::utf8::encode_utf8(
            ".touchid"@,
        ),
{
    let path = spec_sidecar_path(keystore);
    reveal_strlit(".touchid");
    vstd::utf8::is_ascii_chars_encode_utf8(".touchid"@);
    assert(path.take(keystore.len() as int) =~= keystore);
    assert(path.skip(keystore.len() as int) =~= vstd::utf8::encode_utf8(".touchid"@));
}

/// A path without a separator is its own name, unless it is empty, a dot or two dots: those have
/// none.
pub proof fn file_name_alone(name: Seq<u8>)
    requires
        forall|i: int| 0 <= i < name.len() ==> name[i] != '/' as u8,
    ensures
        spec_file_name(name) == if name.len() == 0 || name == seq!['.' as u8] || name
            == seq!['.' as u8, '.' as u8] {
            None
        } else {
            Some(name)
        },
{
    assert(Seq::<u8>::empty() + name =~= name);
    lemma_start_before_suffix(Seq::empty(), name);
    assert(name.skip(0) =~= name);
}

/// A path that ends in a parent component has no name, whatever stands before.
pub proof fn file_name_of_parent(directory: Seq<u8>)
    ensures
        spec_file_name(directory.push('/' as u8) + seq!['.' as u8, '.' as u8]) is None,
{
    let head = directory.push('/' as u8);
    let parent = seq!['.' as u8, '.' as u8];
    lemma_start_before_suffix(head, parent);
    assert((head + parent).skip(head.len() as int) =~= parent);
}

/// A name is never empty, a dot or two dots, and it holds no separator.
pub proof fn file_name_is_a_name(path: Seq<u8>)
    ensures
        spec_file_name(path) matches Some(name) ==> {
            &&& name.len() > 0
            &&& name != seq!['.' as u8]
            &&& name != seq!['.' as u8, '.' as u8]
            &&& forall|i: int| 0 <= i < name.len() ==> name[i] != '/' as u8
        },
    decreases path.len(),
{
    lemma_component_start(path);
    let start = component_start(path) as int;
    let last = path.skip(start);
    assert forall|i: int| 0 <= i < last.len() implies last[i] != '/' as u8 by {
        assert(last[i] == path[start + i]);
    }
    if (last.len() == 0 || last == seq![DOT]) && 0 < start <= path.len() {
        file_name_is_a_name(path.take(start - 1));
    }
}

/// A suffix without a separator does not move the start of the last component.
pub proof fn lemma_start_before_suffix(path: Seq<u8>, suffix: Seq<u8>)
    requires
        forall|i: int| 0 <= i < suffix.len() ==> suffix[i] != SEPARATOR,
    ensures
        component_start(path + suffix) == component_start(path),
    decreases suffix.len(),
{
    if suffix.len() == 0 {
        assert(path + suffix =~= path);
    } else {
        let head = suffix.drop_last();
        assert forall|i: int| 0 <= i < head.len() implies head[i] != SEPARATOR by {
            assert(head[i] == suffix[i]);
        }
        lemma_start_before_suffix(path, head);
        assert((path + suffix).drop_last() =~= path + head);
        assert((path + suffix).last() == suffix.last());
    }
}

} // verus!
