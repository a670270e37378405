//! Which file name suffixes each tag backend accepts. Matching is
//! case-insensitive through lowercasing the file name.

use vstd::prelude::*;

use crate::strings::{lower_of, lowercase, to_chars};
use crate::text_edit::spec_match_at;

verus! {

/// Whether `s` ends with `suf`.
pub open spec fn spec_has_suffix(s: Seq<char>, suf: Seq<char>) -> bool {
    suf.len() <= s.len() && spec_match_at(s, suf, s.len() - suf.len())
}

/// The suffixes the taglib-style backend accepts.
pub open spec fn spec_taglib_suffixes() -> Seq<Seq<char>> {
    seq![
        ".aac"@,
        ".mp3"@,
        ".ogg"@,
        ".flac"@,
        ".mpc"@,
        ".wv"@,
        ".spx"@,
        ".tta"@,
        ".mp4"@,
        ".m4a"@,
        ".asf"@,
        ".aif"@,
        ".aiff"@,
        ".wav"@,
        ".ape"@,
        ".mod"@,
        ".s3m"@,
        ".xm"@,
        ".opus"@,
        ".dsf"@,
        ".dff"@,
    ]
}

/// The suffixes the audiotags backend accepts.
pub open spec fn spec_audio_tags_suffixes() -> Seq<Seq<char>> {
    seq![".mp3"@, ".m4a"@, ".m4b"@, ".m4p"@, ".m4v"@, ".isom"@, ".mp4"@, ".flac"@]
}

fn taglib_suffix_list() -> (r: Vec<Vec<char>>)
    ensures
        r@.len() == spec_taglib_suffixes().len(),
        forall|i: int| 0 <= i < r@.len() ==> r@[i]@ == spec_taglib_suffixes()[i],
{
    let mut r: Vec<Vec<char>> = Vec::new();
    r.push(to_chars(".aac"));
    r.push(to_chars(".mp3"));
    r.push(to_chars(".ogg"));
    r.push(to_chars(".flac"));
    r.push(to_chars(".mpc"));
    r.push(to_chars(".wv"));
    r.push(to_chars(".spx"));
    r.push(to_chars(".tta"));
    r.push(to_chars(".mp4"));
    r.push(to_chars(".m4a"));
    r.push(to_chars(".asf"));
    r.push(to_chars(".aif"));
    r.push(to_chars(".aiff"));
    r.push(to_chars(".wav"));
    r.push(to_chars(".ape"));
    r.push(to_chars(".mod"));
    r.push(to_chars(".s3m"));
    r.push(to_chars(".xm"));
    r.push(to_chars(".opus"));
    r.push(to_chars(".dsf"));
    r.push(to_chars(".dff"));
    r
}

fn audio_tags_suffix_list() -> (r: Vec<Vec<char>>)
    ensures
        r@.len() == spec_audio_tags_suffixes().len(),
        forall|i: int| 0 <= i < r@.len() ==> r@[i]@ == spec_audio_tags_suffixes()[i],
{
    let mut r: Vec<Vec<char>> = Vec::new();
    r.push(to_chars(".mp3"));
    r.push(to_chars(".m4a"));
    r.push(to_chars(".m4b"));
    r.push(to_chars(".m4p"));
    r.push(to_chars(".m4v"));
    r.push(to_chars(".isom"));
    r.push(to_chars(".mp4"));
    r.push(to_chars(".flac"));
    r
}

fn ends_with_chars(s: &Vec<char>, suf: &Vec<char>) -> (r: bool)
    ensures
        r == spec_has_suffix(s@, suf@),
{
    if suf.len() > s.len() {
        return false;
    }
    let start = s.len() - suf.len();
    let m = suf.len();
    let n = s.len();
    let mut k: usize = 0;
    while k < m
        invariant
            k <= m,
            start + m == n,
            n == s@.len(),
            m == suf@.len(),
            forall|q: int| 0 <= q < k ==> s@[start + q] == suf@[q],
        decreases m - k,
    {
        if s[start + k] != suf[k] {
            proof {
                assert(s@.subrange(start as int, start + m as int)[k as int] != suf@[k as int]);
            }
            return false;
        }
        k = k + 1;
    }
    proof {
        assert(s@.subrange(start as int, start + m as int) =~= suf@);
    }
    true
}

fn any_suffix_matches(name: &str, list: &Vec<Vec<char>>) -> (r: bool)
    ensures
        r == exists|i: int|
            0 <= i < list@.len() && spec_has_suffix(lower_of(name@), list@[i]@),
{
    let lowered = lowercase(name);
    let lv = to_chars(lowered.as_str());
    let mut i: usize = 0;
    while i < list.len()
        invariant
            i <= list@.len(),
            lv@ == lower_of(name@),
            forall|j: int| 0 <= j < i ==> !spec_has_suffix(lower_of(name@), list@[j]@),
        decreases list.len() - i,
    {
        if ends_with_chars(&lv, &list[i]) {
            proof {
                assert(0 <= i < list@.len() && spec_has_suffix(lower_of(name@), list@[i as int]@));
            }
            return true;
        }
        i = i + 1;
    }
    false
}

/// Whether the lowercased file name ends with a suffix the taglib-style
/// backend accepts.
pub fn available_suffix(file_name: &str) -> (r: bool)
    ensures
        r == exists|i: int|
            0 <= i < spec_taglib_suffixes().len() && spec_has_suffix(
                lower_of(file_name@),
                spec_taglib_suffixes()[i],
            ),
{
    let list = taglib_suffix_list();
    let r = any_suffix_matches(file_name, &list);
    proof {
        assert forall|i: int|
            0 <= i < list@.len() && spec_has_suffix(lower_of(file_name@), list@[i]@)
                implies spec_has_suffix(lower_of(file_name@), spec_taglib_suffixes()[i]) by {}
        assert forall|i: int|
            0 <= i < spec_taglib_suffixes().len() && spec_has_suffix(
                lower_of(file_name@),
                spec_taglib_suffixes()[i],
            ) implies spec_has_suffix(lower_of(file_name@), list@[i]@) by {}
    }
    r
}

/// Whether the lowercased file name ends with a suffix the audiotags
/// backend accepts.
pub fn audio_tags_available_suffix(file_name: &str) -> (r: bool)
    ensures
        r == exists|i: int|
            0 <= i < spec_audio_tags_suffixes().len() && spec_has_suffix(
                lower_of(file_name@),
                spec_audio_tags_suffixes()[i],
            ),
{
    let list = audio_tags_suffix_list();
    let r = any_suffix_matches(file_name, &list);
    proof {
        assert forall|i: int|
            0 <= i < list@.len() && spec_has_suffix(lower_of(file_name@), list@[i]@)
                implies spec_has_suffix(lower_of(file_name@), spec_audio_tags_suffixes()[i]) by {}
        assert forall|i: int|
            0 <= i < spec_audio_tags_suffixes().len() && spec_has_suffix(
                lower_of(file_name@),
                spec_audio_tags_suffixes()[i],
            ) implies spec_has_suffix(lower_of(file_name@), list@[i]@) by {}
    }
    r
}

/// Whether the file name suits the configured backend: the audiotags
/// suffix list when the configuration names that backend, the taglib list
/// otherwise.
pub fn is_available_suffix(file_name: &str, tag_lib: &Option<String>) -> (r: bool)
    ensures
        r == (if (match tag_lib {
            Some(s) => s@ == "audiotags"@,
            None => false,
        }) {
            exists|i: int|
                0 <= i < spec_audio_tags_suffixes().len() && spec_has_suffix(
                    lower_of(file_name@),
                    spec_audio_tags_suffixes()[i],
                )
        } else {
            exists|i: int|
                0 <= i < spec_taglib_suffixes().len() && spec_has_suffix(
                    lower_of(file_name@),
                    spec_taglib_suffixes()[i],
                )
        }),
{
    let use_audio = match tag_lib {
        Some(s) => crate::strings::str_eq(s.as_str(), "audiotags"),
        None => false,
    };
    if use_audio {
        audio_tags_available_suffix(file_name)
    } else {
        available_suffix(file_name)
    }
}

} // verus!
