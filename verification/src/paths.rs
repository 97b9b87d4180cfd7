//! Reading the parts of a file-system path through `std::path`.
//!
//! How a path splits into components depends on the host's path syntax,
//! so these contracts state only what holds on every host; the payload
//! classifiers take the parts as arguments and are exact in them.

use vstd::prelude::*;
use crate::lines::lacks;

verus! {

/// `part` is a contiguous piece of `whole`.
pub open spec fn is_piece_of(part: Seq<char>, whole: Seq<char>) -> bool {
    exists|i: int, j: int| 0 <= i <= j <= whole.len() && whole.subrange(i, j) == part
}

/// `/` and `\\`, the separators of some host.
pub open spec fn is_separator(c: char) -> bool {
    c == '/' || c == '\\'
}

/// A separator, or the `:` that ends a Windows drive prefix.
pub open spec fn is_delimiter(c: char) -> bool {
    is_separator(c) || c == ':'
}

/// Whether `path` starts with two separators, as Windows UNC, device and
/// verbatim prefixes do.
pub open spec fn has_double_separator_start(path: Seq<char>) -> bool {
    path.len() >= 2 && is_separator(path[0]) && is_separator(path[1])
}

/// The text of `path` after its last delimiter (all of it when it has none).
pub open spec fn last_segment(path: Seq<char>) -> Seq<char>
    decreases path.len(),
{
    if path.len() == 0 {
        path
    } else if is_delimiter(path.last()) {
        Seq::empty()
    } else {
        last_segment(path.drop_last()).push(path.last())
    }
}

/// `k` is the position of the last `c` in `s`.
pub open spec fn last_at(s: Seq<char>, c: char, k: int) -> bool {
    0 <= k < s.len() && s[k] == c && forall|j: int| k < j < s.len() ==> s[j] != c
}

/// `k` is the last `.` of a segment, neither its first character nor its
/// last.
pub open spec fn extension_dot(segment: Seq<char>, k: int) -> bool {
    last_at(segment, '.', k) && 1 <= k && k + 1 < segment.len()
}

/// The extension every host reads from `path`: when the path has no
/// double-separator start and its last segment has a `.` that is neither
/// its first nor its last character, the text after the last such `.`.
pub open spec fn evident_extension(path: Seq<char>) -> Option<Seq<char>> {
    let segment = last_segment(path);
    if !has_double_separator_start(path) && exists|k: int| #[trigger] extension_dot(segment, k) {
        let k = choose|k: int| #[trigger] extension_dot(segment, k);
        Some(segment.subrange(k + 1, segment.len() as int))
    } else {
        None
    }
}

/// The end of the file name every host reads from `path`: its last
/// segment, when the path has no double-separator start and that segment
/// is neither empty, `.` nor `..`.
pub open spec fn evident_file_name(path: Seq<char>) -> Option<Seq<char>> {
    let segment = last_segment(path);
    if !has_double_separator_start(path) && segment.len() > 0 && segment != "."@ && segment
        != ".."@ {
        Some(segment)
    } else {
        None
    }
}

/// `s` ends with `suffix`.
pub open spec fn ends_with(s: Seq<char>, suffix: Seq<char>) -> bool {
    s.len() >= suffix.len() && s.subrange(s.len() - suffix.len(), s.len() as int) == suffix
}

/// The extension of `path` (std `Path::extension`): the part of the file
/// name after its final `.`, if the file name has such a part.
/// Claims: an extension holds no `.` and is a piece of the path text; and
/// where every host reads the same extension (`evident_extension`), it is
/// that one. Elsewhere the answer depends on the host's path syntax and
/// is left unsaid.
#[verifier::external_body]
pub(crate) fn path_extension(path: &str) -> (r: Option<String>)
    ensures
        r matches Some(e) ==> lacks(e@, '.') && is_piece_of(e@, path@),
        r is Some || evident_extension(path@) is None,
        r matches Some(e) ==> (evident_extension(path@) matches Some(x) ==> e@ == x),
{
    match std::path::Path::new(path).extension() {
        Some(e) => Some(e.to_string_lossy().into_owned()),
        None => None,
    }
}

/// The final component of `path` (std `Path::file_name`).
/// Claims: a file name is a piece of the path text; and where the path has
/// an evident last segment (`evident_file_name`), the file name is a
/// suffix of the path that ends with that segment. How much more of the
/// path the file name holds depends on the host's separators and is left
/// unsaid.
#[verifier::external_body]
pub(crate) fn path_file_name(path: &str) -> (r: Option<String>)
    ensures
        r matches Some(f) ==> is_piece_of(f@, path@),
        r is Some || evident_file_name(path@) is None,
        r matches Some(f) ==> (evident_file_name(path@) matches Some(seg) ==> ends_with(f@, seg)
            && ends_with(path@, f@)),
{
    match std::path::Path::new(path).file_name() {
        Some(f) => Some(f.to_string_lossy().into_owned()),
        None => None,
    }
}

/// A path with an evident extension has an evident file name, whose
/// last characters are `.` and that extension.
pub proof fn lemma_extension_has_file_name(path: Seq<char>)
    requires
        evident_extension(path) is Some,
    ensures
        evident_file_name(path) is Some,
        ends_with(evident_file_name(path)->0, seq!['.'] + evident_extension(path)->0),
{
    let segment = last_segment(path);
    let k = choose|k: int| #[trigger] extension_dot(segment, k);
    assert(extension_dot(segment, k));
    reveal_strlit(".");
    reveal_strlit("..");
    assert(segment != "."@);
    assert(segment != ".."@);
    let x = segment.subrange(k + 1, segment.len() as int);
    assert(segment.subrange(segment.len() - (x.len() + 1), segment.len() as int) =~= seq!['.'] + x);
}

/// What the host's path syntax is known to give as the extension and file
/// name of `source_path`: pieces of it, the extension without a `.`.
pub open spec fn path_parts_fit(
    source_path: Seq<char>,
    extension: Option<Seq<char>>,
    file_name: Option<Seq<char>>,
) -> bool {
    &&& extension matches Some(e) ==> lacks(e, '.') && is_piece_of(e, source_path)
    &&& file_name matches Some(n) ==> is_piece_of(n, source_path)
    &&& evident_extension(source_path) matches Some(x) ==> extension == Some(x)
    &&& evident_file_name(source_path) matches Some(seg) ==> (file_name matches Some(n)
        && ends_with(n, seg) && ends_with(source_path, n))
}

}
