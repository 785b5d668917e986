//! Media file names: subtitle detection, supported formats, URL segments.

use crate::text::{is_text, small_letters, to_small_letters};
use crate::types::SubtitleType;
use crate::utils::path::{extension, path_extension, path_with_extension, with_extension};
use vstd::prelude::*;
use vstd::string::*;

verus! {

/// The extension of a path in small letters; empty where it has none. The
/// letters are made small as far as that gives ASCII letters, which is all
/// that matters for the extensions that are known.
pub open spec fn lower_extension(path: Seq<char>) -> Seq<char> {
    match extension(path) {
        Some(e) => small_letters(e),
        None => Seq::<char>::empty(),
    }
}

/// Whether an extension, in small letters, is one of a video container.
pub open spec fn is_video_extension(e: Seq<char>) -> bool {
    e == "mp4"@ || e == "avi"@ || e == "mkv"@ || e == "mov"@ || e == "wmv"@ || e == "flv"@ || e
        == "webm"@ || e == "m4v"@ || e == "3gp"@ || e == "ogv"@
}

/// Whether an extension, in small letters, is one of an audio container.
pub open spec fn is_audio_extension(e: Seq<char>) -> bool {
    e == "mp3"@ || e == "wav"@ || e == "flac"@ || e == "aac"@ || e == "ogg"@ || e == "wma"@ || e
        == "m4a"@ || e == "opus"@
}

/// The subtitle type that a path's extension names, if any.
pub open spec fn subtitle_type_of(path: Seq<char>) -> Option<SubtitleType> {
    let e = lower_extension(path);
    if e == SubtitleType::Srt.extension_text() {
        Some(SubtitleType::Srt)
    } else if e == SubtitleType::Ass.extension_text() {
        Some(SubtitleType::Ass)
    } else if e == SubtitleType::Ssa.extension_text() {
        Some(SubtitleType::Ssa)
    } else {
        None
    }
}

/// The subtitle paths tried for a video, in order of preference.
pub open spec fn candidates_of(video_path: Seq<char>) -> Seq<Seq<char>> {
    Seq::new(
        SubtitleType::ordered().len(),
        |i: int| with_extension(video_path, SubtitleType::ordered()[i].extension_text()),
    )
}

/// Whether `item` is one of `list`.
pub open spec fn lists(list: Seq<String>, item: Seq<char>) -> bool {
    exists|k: int| 0 <= k < list.len() && (#[trigger] list[k])@ == item
}

/// The first candidate of a video that is among `present`.
pub open spec fn first_present(video_path: Seq<char>, present: Seq<String>, from: int) -> Option<
    Seq<char>,
>
    decreases candidates_of(video_path).len() - from,
{
    let c = candidates_of(video_path);
    if from < 0 || from >= c.len() {
        None
    } else if lists(present, c[from]) {
        Some(c[from])
    } else {
        first_present(video_path, present, from + 1)
    }
}

/// The extension of a path in small letters.
fn lowered_extension(path: &str) -> (e: Vec<char>)
    ensures
        e@ == lower_extension(path@),
{
    match path_extension(path) {
        Some(e) => to_small_letters(&e),
        None => {
            let e: Vec<char> = Vec::new();
            assert(e@ == Seq::<char>::empty());
            e
        },
    }
}

/// The subtitle paths to look for beside a video, in order of preference.
pub fn subtitle_candidates(video_path: &str) -> (r: Vec<String>)
    ensures
        r.len() == candidates_of(video_path@).len(),
        forall|i: int| 0 <= i < r.len() ==> (#[trigger] r[i])@ == candidates_of(video_path@)[i],
{
    let types = SubtitleType::all();
    let mut r: Vec<String> = Vec::new();
    let mut i: usize = 0;
    while i < types.len()
        invariant
            i <= types.len(),
            types@ == SubtitleType::ordered(),
            r.len() == i,
            forall|k: int| 0 <= k < i ==> (#[trigger] r[k])@ == candidates_of(video_path@)[k],
        decreases types.len() - i,
    {
        let t = types[i];
        r.push(path_with_extension(video_path, t.extension()));
        i += 1;
    }
    r
}

fn is_listed(list: &Vec<String>, item: &str) -> (r: bool)
    ensures
        r == lists(list@, item@),
{
    let mut k: usize = 0;
    while k < list.len()
        invariant
            k <= list.len(),
            forall|j: int| 0 <= j < k ==> (#[trigger] list[j])@ != item@,
        decreases list.len() - k,
    {
        if crate::text::str_eq(list[k].as_str(), item) {
            return true;
        }
        k += 1;
    }
    false
}

/// Infers the subtitle of a video: the first of its candidates, in order of
/// preference, that is among the files known to be present.
pub fn infer_subtitle_from_video(video_path: &str, present: &Vec<String>) -> (r: Option<String>)
    ensures
        match r {
            Some(p) => first_present(video_path@, present@, 0) == Some(p@),
            None => first_present(video_path@, present@, 0).is_none(),
        },
{
    let candidates = subtitle_candidates(video_path);
    let mut i: usize = 0;
    while i < candidates.len()
        invariant
            i <= candidates.len(),
            candidates.len() == candidates_of(video_path@).len(),
            forall|k: int|
                0 <= k < candidates.len() ==> (#[trigger] candidates[k])@ == candidates_of(
                    video_path@,
                )[k],
            first_present(video_path@, present@, 0) == first_present(
                video_path@,
                present@,
                i as int,
            ),
        decreases candidates.len() - i,
    {
        if is_listed(present, candidates[i].as_str()) {
            return Some(candidates[i].clone());
        }
        i += 1;
    }
    None
}

/// Detects subtitle type from file extension
pub fn detect_subtitle_type(path: &str) -> (r: Option<SubtitleType>)
    ensures
        r == subtitle_type_of(path@),
{
    let e = lowered_extension(path);
    if is_text(&e, SubtitleType::Srt.extension()) {
        Some(SubtitleType::Srt)
    } else if is_text(&e, SubtitleType::Ass.extension()) {
        Some(SubtitleType::Ass)
    } else if is_text(&e, SubtitleType::Ssa.extension()) {
        Some(SubtitleType::Ssa)
    } else {
        None
    }
}

/// Validates if a file path has a supported video extension
pub fn is_supported_video_file(path: &str) -> (r: bool)
    ensures
        r == (extension(path@).is_some() && is_video_extension(lower_extension(path@))),
{
    match path_extension(path) {
        Some(ext) => {
            let e = to_small_letters(&ext);
            is_text(&e, "mp4") || is_text(&e, "avi") || is_text(&e, "mkv") || is_text(&e, "mov")
                || is_text(&e, "wmv") || is_text(&e, "flv") || is_text(&e, "webm") || is_text(
                &e,
                "m4v",
            ) || is_text(&e, "3gp") || is_text(&e, "ogv")
        },
        None => false,
    }
}

/// Validates if a file path has a supported audio extension
pub fn is_supported_audio_file(path: &str) -> (r: bool)
    ensures
        r == (extension(path@).is_some() && is_audio_extension(lower_extension(path@))),
{
    match path_extension(path) {
        Some(ext) => {
            let e = to_small_letters(&ext);
            is_text(&e, "mp3") || is_text(&e, "wav") || is_text(&e, "flac") || is_text(&e, "aac")
                || is_text(&e, "ogg") || is_text(&e, "wma") || is_text(&e, "m4a") || is_text(
                &e,
                "opus",
            )
        },
        None => false,
    }
}

/// Whether a path has a supported video or audio extension.
pub open spec fn is_media_path(path: Seq<char>) -> bool {
    extension(path).is_some() && (is_video_extension(lower_extension(path)) || is_audio_extension(
        lower_extension(path),
    ))
}

/// Validates if a file path has a supported media extension (video or audio)
pub fn is_supported_media_file(path: &str) -> (r: bool)
    ensures
        r == is_media_path(path@),
{
    is_supported_video_file(path) || is_supported_audio_file(path)
}

/// What `slugify::slugify` makes of a text, given the words to drop, the
/// separator and the largest length.
pub uninterp spec fn slugify_text(
    text: Seq<char>,
    stop_words: Seq<char>,
    sep: Seq<char>,
    max_length: Option<usize>,
) -> Seq<char>;

/// Whether a character may stand in a slug: a small ASCII letter, a digit,
/// or the separator.
pub open spec fn is_slug_char(c: char, sep: char) -> bool {
    ('a' <= c && c <= 'z') || ('0' <= c && c <= '9') || c == sep
}

/// Whether a text holds nothing but what may stand in a slug.
pub open spec fn is_slug_text(s: Seq<char>, sep: char) -> bool {
    forall|i: int| 0 <= i < s.len() ==> is_slug_char(#[trigger] s[i], sep)
}

/// Calls `slugify::slugify`, which transliterates the text to ASCII, makes
/// it lower case and joins its runs of letters and digits with the first
/// character of the separator, so that the result holds nothing but small
/// ASCII letters, digits and that character. The function indexes the
/// separator at 0 and writes that character as one byte, so the separator
/// must start with an ASCII character.
#[verifier::external_body]
fn slugify_with(text: &str, stop_words: &str, sep: &str, max_length: Option<usize>) -> (r: String)
    requires
        sep@.len() >= 1,
        (sep@[0] as u32) < 128,
    ensures
        r@ == slugify_text(text@, stop_words@, sep@, max_length),
        is_slug_text(r@, sep@[0]),
{
    slugify::slugify(text, stop_words, sep, max_length)
}

/// The URL segment under which a file is served.
pub open spec fn url_segment(filename: Seq<char>) -> Seq<char> {
    slugify_text(filename, ""@, "."@, None)
}

/// Sanitizes a filename for use in URLs: the result holds nothing but small
/// ASCII letters, digits and dots
pub fn sanitize_filename_for_url(filename: &str) -> (r: String)
    ensures
        r@ == url_segment(filename@),
        is_slug_text(r@, '.'),
{
    proof {
        reveal_strlit(".");
    }
    slugify_with(filename, "", ".", None)
}

} // verus!
