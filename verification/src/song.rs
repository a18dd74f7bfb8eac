//! The `Song` record and the per-file extraction rules: which tag values are
//! taken over, and which fallbacks stand in when a value is missing.

use vstd::prelude::*;

use crate::paths::path_stem_of;
use crate::paths::path_file_stem;

verus! {

/// One scanned audio file. Built exactly once per discovered file; `id` is
/// always unset here, an external persistence layer assigns it later.
pub struct Song {
    pub id: Option<i64>,
    pub title: String,
    pub artist: String,
    pub album: String,
    pub duration: i32,
    pub file_path: String,
}

/// The values a successful tag parse hands over: the three text fields of
/// the primary tag block where present, and the decoded duration in whole
/// seconds.
pub struct TagInfo {
    pub title: Option<String>,
    pub artist: Option<String>,
    pub album: Option<String>,
    pub duration_secs: u64,
}

/// Mathematical image of a `TagInfo`.
pub ghost struct TagView {
    pub title: Option<Seq<char>>,
    pub artist: Option<Seq<char>>,
    pub album: Option<Seq<char>>,
    pub duration_secs: u64,
}

impl View for TagInfo {
    type V = TagView;

    open spec fn view(&self) -> TagView {
        TagView {
            title: match self.title {
                Some(t) => Some(t@),
                None => None,
            },
            artist: match self.artist {
                Some(a) => Some(a@),
                None => None,
            },
            album: match self.album {
                Some(a) => Some(a@),
                None => None,
            },
            duration_secs: self.duration_secs,
        }
    }
}

/// The view of an optional parse outcome; `None` is a file whose tags could
/// not be parsed at all.
pub open spec fn opt_tag_view(parsed: Option<TagInfo>) -> Option<TagView> {
    match parsed {
        Some(info) => Some(info@),
        None => None,
    }
}

/// The title the tag block supplies, or the empty string when there is none.
pub open spec fn tag_title(parsed: Option<TagView>) -> Seq<char> {
    match parsed {
        Some(info) => match info.title {
            Some(t) => t,
            None => Seq::empty(),
        },
        None => Seq::empty(),
    }
}

/// The title of the song for `path`: the tag title when it is non-empty,
/// otherwise the file's stem.
pub open spec fn spec_title(path: Seq<char>, parsed: Option<TagView>) -> Seq<char> {
    if tag_title(parsed).len() == 0 {
        path_stem_of(path)
    } else {
        tag_title(parsed)
    }
}

/// The artist of the song: the tag value where present, otherwise the
/// fixed fallback.
pub open spec fn spec_artist(parsed: Option<TagView>) -> Seq<char> {
    match parsed {
        Some(info) => match info.artist {
            Some(a) => a,
            None => "Unknown Artist"@,
        },
        None => "Unknown Artist"@,
    }
}

/// The album of the song: the tag value where present, otherwise the
/// fixed fallback.
pub open spec fn spec_album(parsed: Option<TagView>) -> Seq<char> {
    match parsed {
        Some(info) => match info.album {
            Some(a) => a,
            None => "Unknown Album"@,
        },
        None => "Unknown Album"@,
    }
}

/// The duration of the song in whole seconds: what the parse decoded,
/// saturated at the widest value the record holds, and zero when the parse
/// failed entirely.
pub open spec fn spec_duration(parsed: Option<TagView>) -> int {
    match parsed {
        Some(info) => if info.duration_secs > i32::MAX as u64 {
            i32::MAX as int
        } else {
            info.duration_secs as int
        },
        None => 0,
    }
}

/// The record built for the file at `path` whose parse outcome is `parsed`.
pub open spec fn song_matches(song: Song, path: Seq<char>, parsed: Option<TagView>) -> bool {
    &&& song.id is None
    &&& song.title@ == spec_title(path, parsed)
    &&& song.artist@ == spec_artist(parsed)
    &&& song.album@ == spec_album(parsed)
    &&& song.duration == spec_duration(parsed)
    &&& song.file_path@ == path
}

/// Builds the `Song` for the file at `path` from its tag-parse outcome,
/// applying the documented fallbacks field by field.
pub fn build_song(path: &str, parsed: Option<TagInfo>) -> (song: Song)
    ensures
        song_matches(song, path@, opt_tag_view(parsed)),
{
    let mut title: String = String::new();
    let mut artist: String = "Unknown Artist".to_owned();
    let mut album: String = "Unknown Album".to_owned();
    let mut duration: i32 = 0;

    match &parsed {
        Some(info) => {
            if let Some(t) = &info.title {
                title = t.clone();
            }
            if let Some(a) = &info.artist {
                artist = a.clone();
            }
            if let Some(a) = &info.album {
                album = a.clone();
            }
            duration = if info.duration_secs > i32::MAX as u64 {
                i32::MAX
            } else {
                info.duration_secs as i32
            };
        },
        None => {},
    }

    if title.as_str().is_empty() {
        title = path_file_stem(path);
    }

    Song {
        id: None,
        title,
        artist,
        album,
        duration,
        file_path: path.to_owned(),
    }
}

/// A successfully parsed, non-empty title tag is taken over exactly.
pub proof fn lemma_title_from_tag(path: Seq<char>, parsed: Option<TagView>)
    requires
        parsed is Some,
        parsed->Some_0.title is Some,
        parsed->Some_0.title->Some_0.len() > 0,
    ensures
        spec_title(path, parsed) == parsed->Some_0.title->Some_0,
{
}

/// With no parseable tag block, or an absent or empty title tag, the title
/// is the file's base name with its final extension segment removed.
pub proof fn lemma_title_fallback(path: Seq<char>, parsed: Option<TagView>)
    requires
        parsed is Some ==> parsed->Some_0.title is None || parsed->Some_0.title->Some_0.len()
            == 0,
    ensures
        spec_title(path, parsed) == path_stem_of(path),
{
}

/// The artist is the fallback value exactly when no artist tag value was
/// present; stated for tags that do not themselves spell the fallback value.
pub proof fn lemma_artist_default(parsed: Option<TagView>)
    requires
        parsed is Some && parsed->Some_0.artist is Some ==> parsed->Some_0.artist->Some_0
            != "Unknown Artist"@,
    ensures
        spec_artist(parsed) == "Unknown Artist"@ <==> !(parsed is Some
            && parsed->Some_0.artist is Some),
{
}

/// The album is the fallback value exactly when no album tag value was
/// present; stated for tags that do not themselves spell the fallback value.
pub proof fn lemma_album_default(parsed: Option<TagView>)
    requires
        parsed is Some && parsed->Some_0.album is Some ==> parsed->Some_0.album->Some_0
            != "Unknown Album"@,
    ensures
        spec_album(parsed) == "Unknown Album"@ <==> !(parsed is Some
            && parsed->Some_0.album is Some),
{
}

/// The duration is never negative; it is zero whenever the parse failed
/// entirely or the file reported a zero duration.
pub proof fn lemma_duration_non_negative(parsed: Option<TagView>)
    ensures
        spec_duration(parsed) >= 0,
        parsed is None ==> spec_duration(parsed) == 0,
        parsed is Some && parsed->Some_0.duration_secs == 0 ==> spec_duration(parsed) == 0,
{
}

} // verus!
