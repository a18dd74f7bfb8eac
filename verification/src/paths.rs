//! Path-string logic of the scanner: splitting a path into base name, stem
//! and extension, and the case-insensitive audio-extension allow-list.
//!
//! Paths are plain strings whose components are separated by `/`.

use vstd::prelude::*;

verus! {

/// Index of the last occurrence of `c` in `s` strictly before position `n`,
/// or -1 when there is none.
pub open spec fn last_index_before(s: Seq<char>, c: char, n: int) -> int
    decreases n,
{
    if n <= 0 {
        -1
    } else if s[n - 1] == c {
        n - 1
    } else {
        last_index_before(s, c, n - 1)
    }
}

/// Index of the last occurrence of `c` in `s`, or -1 when there is none.
pub open spec fn last_index_of(s: Seq<char>, c: char) -> int {
    last_index_before(s, c, s.len() as int)
}

/// The base name of a path: everything after the last `/`, or the whole
/// path when it has no `/`.
pub open spec fn file_name_of(path: Seq<char>) -> Seq<char> {
    path.subrange(last_index_of(path, '/') + 1, path.len() as int)
}

/// The extension of a base name: everything after the last `.`, provided
/// that dot is neither absent nor the leading character (a name such as
/// `.config` has no extension).
pub open spec fn extension_of(name: Seq<char>) -> Option<Seq<char>> {
    let d = last_index_of(name, '.');
    if d <= 0 {
        None
    } else {
        Some(name.subrange(d + 1, name.len() as int))
    }
}

/// The stem of a base name: everything before the dot that starts its
/// extension, or the whole name when it has no extension.
pub open spec fn stem_of(name: Seq<char>) -> Seq<char> {
    let d = last_index_of(name, '.');
    if d <= 0 {
        name
    } else {
        name.subrange(0, d)
    }
}

/// The extension of the base name of `path`.
pub open spec fn path_extension_of(path: Seq<char>) -> Option<Seq<char>> {
    extension_of(file_name_of(path))
}

/// The stem of the base name of `path`.
pub open spec fn path_stem_of(path: Seq<char>) -> Seq<char> {
    stem_of(file_name_of(path))
}

/// `c` read case-insensitively is the character `d`, where `d` is lower case
/// ASCII: either the characters are equal, or `c` is the upper-case ASCII
/// letter whose lower-case form is `d`.
pub open spec fn char_matches_lower(c: char, d: char) -> bool {
    c == d || ('A' as u32 <= c as u32 && c as u32 <= 'Z' as u32 && d as u32 == c as u32 + 32)
}

/// `s` equals the lower-case ASCII pattern `pat` up to ASCII case.
pub open spec fn matches_ignore_ascii_case(s: Seq<char>, pat: Seq<char>) -> bool {
    s.len() == pat.len() && forall|i: int|
        0 <= i < s.len() ==> char_matches_lower(s[i], #[trigger] pat[i])
}

/// The fixed allow-list of audio file extensions, matched without regard
/// to ASCII case.
pub open spec fn is_audio_extension(ext: Seq<char>) -> bool {
    ||| matches_ignore_ascii_case(ext, "mp3"@)
    ||| matches_ignore_ascii_case(ext, "flac"@)
    ||| matches_ignore_ascii_case(ext, "wav"@)
    ||| matches_ignore_ascii_case(ext, "m4a"@)
    ||| matches_ignore_ascii_case(ext, "ogg"@)
    ||| matches_ignore_ascii_case(ext, "opus"@)
    ||| matches_ignore_ascii_case(ext, "aac"@)
    ||| matches_ignore_ascii_case(ext, "wma"@)
}

/// A path names an audio file when its base name has an extension on the
/// allow-list.
pub open spec fn is_audio_path(path: Seq<char>) -> bool {
    match path_extension_of(path) {
        Some(ext) => is_audio_extension(ext),
        None => false,
    }
}

/// Position of the last occurrence of `c` in `s`, scanning from the end.
fn last_index_of_char(s: &str, c: char) -> (r: Option<usize>)
    ensures
        match r {
            Some(k) => k < s@.len() && last_index_of(s@, c) == k,
            None => last_index_of(s@, c) == -1,
        },
{
    let n = s.unicode_len();
    let mut i: usize = n;
    while i > 0
        invariant
            i <= n,
            n == s@.len(),
            last_index_before(s@, c, n as int) == last_index_before(s@, c, i as int),
        decreases i,
    {
        if s.get_char(i - 1) == c {
            return Some(i - 1);
        }
        i = i - 1;
    }
    None
}

/// The base name of `path`: everything after its last `/`.
pub fn file_name(path: &str) -> (r: String)
    ensures
        r@ == file_name_of(path@),
{
    let n = path.unicode_len();
    match last_index_of_char(path, '/') {
        Some(k) => path.substring_char(k + 1, n).to_owned(),
        None => {
            proof {
                assert(path@.subrange(0, path@.len() as int) =~= path@);
            }
            path.to_owned()
        },
    }
}

/// The stem of the base name of `path`: the title used when a file supplies
/// no usable title tag.
pub fn path_file_stem(path: &str) -> (r: String)
    ensures
        r@ == path_stem_of(path@),
{
    let name = file_name(path);
    let name_str = name.as_str();
    let n = name_str.unicode_len();
    match last_index_of_char(name_str, '.') {
        Some(k) if k > 0 => name_str.substring_char(0, k).to_owned(),
        _ => {
            proof {
                assert(name@.subrange(0, name@.len() as int) =~= name@);
            }
            name_str.to_owned()
        },
    }
}

/// Whether `s` equals the lower-case ASCII pattern `pat` up to ASCII case.
fn str_matches_ignore_ascii_case(s: &str, pat: &str) -> (r: bool)
    ensures
        r == matches_ignore_ascii_case(s@, pat@),
{
    let n = s.unicode_len();
    if n != pat.unicode_len() {
        return false;
    }
    let mut i: usize = 0;
    while i < n
        invariant
            i <= n,
            n == s@.len(),
            n == pat@.len(),
            forall|j: int| 0 <= j < i ==> char_matches_lower(s@[j], #[trigger] pat@[j]),
        decreases n - i,
    {
        let c = s.get_char(i);
        let d = pat.get_char(i);
        let cu = c as u32;
        let du = d as u32;
        if !(c == d || ('A' as u32 <= cu && cu <= 'Z' as u32 && du == cu + 32)) {
            return false;
        }
        i = i + 1;
    }
    true
}

/// Whether the extension string `ext` is on the audio allow-list.
fn is_audio_extension_str(ext: &str) -> (r: bool)
    ensures
        r == is_audio_extension(ext@),
{
    str_matches_ignore_ascii_case(ext, "mp3")
        || str_matches_ignore_ascii_case(ext, "flac")
        || str_matches_ignore_ascii_case(ext, "wav")
        || str_matches_ignore_ascii_case(ext, "m4a")
        || str_matches_ignore_ascii_case(ext, "ogg")
        || str_matches_ignore_ascii_case(ext, "opus")
        || str_matches_ignore_ascii_case(ext, "aac")
        || str_matches_ignore_ascii_case(ext, "wma")
}

/// Whether `path` names a file the scan keeps: its base name carries an
/// extension on the audio allow-list, matched case-insensitively.
pub fn has_audio_extension(path: &str) -> (r: bool)
    ensures
        r == is_audio_path(path@),
{
    let name = file_name(path);
    let name_str = name.as_str();
    let n = name_str.unicode_len();
    match last_index_of_char(name_str, '.') {
        Some(k) if k > 0 => is_audio_extension_str(name_str.substring_char(k + 1, n)),
        _ => false,
    }
}

} // verus!
