//! The tag-probing step: the one call into the audio-tag library, behind a
//! trusted wrapper, and the verified extraction built on top of it.

use vstd::prelude::*;

use lofty::file::TaggedFileExt;
use lofty::prelude::AudioFile;
use lofty::tag::Accessor;

use crate::song::Song;
use crate::song::TagInfo;
use crate::song::TagView;
use crate::song::opt_tag_view;
use crate::song::song_matches;
use crate::song::build_song;

verus! {

/// The tag-parse outcome for a byte string: `None` when the bytes are not a
/// parseable audio container, otherwise the primary tag block's title,
/// artist and album where present, and the decoded whole-second duration.
pub uninterp spec fn parsed_tags_of(bytes: Seq<u8>) -> Option<TagView>;

/// Relies on lofty's `Probe::guess_file_type` and `Probe::read`, on
/// `TaggedFile::primary_tag` with the `Accessor` title/artist/album getters,
/// and on `FileProperties::duration`: the parse outcome is a function of the
/// bytes alone.
#[verifier::external_body]
fn probe_tag_bytes(bytes: &[u8]) -> (r: Option<TagInfo>)
    ensures
        opt_tag_view(r) == parsed_tags_of(bytes@),
{
    let probe = lofty::probe::Probe::new(std::io::Cursor::new(bytes));
    let tagged = match probe.guess_file_type().map(|p| p.read()) {
        Ok(Ok(t)) => t,
        _ => return None,
    };
    let tag = tagged.primary_tag();
    Some(TagInfo {
        title: tag.and_then(|t| t.title()).map(|v| v.to_string()),
        artist: tag.and_then(|t| t.artist()).map(|v| v.to_string()),
        album: tag.and_then(|t| t.album()).map(|v| v.to_string()),
        duration_secs: tagged.properties().duration().as_secs(),
    })
}

/// The view of the optional contents of a file: `None` is a file that could
/// not be read at all.
pub open spec fn opt_bytes_view(bytes: Option<&[u8]>) -> Option<Seq<u8>> {
    match bytes {
        Some(b) => Some(b@),
        None => None,
    }
}

/// The parse outcome for a file's optional contents: an unreadable file is
/// treated exactly like one whose tags do not parse.
pub open spec fn scanned_tags_of(bytes: Option<Seq<u8>>) -> Option<TagView> {
    match bytes {
        Some(b) => parsed_tags_of(b),
        None => None,
    }
}

/// Builds the `Song` for the file at `path` whose contents are `bytes`
/// (`None` when the file could not be read): probes the tag block and
/// applies the documented per-field fallbacks.
pub fn extract_song(path: &str, bytes: Option<&[u8]>) -> (song: Song)
    ensures
        song_matches(song, path@, scanned_tags_of(opt_bytes_view(bytes))),
{
    let parsed = match bytes {
        Some(b) => probe_tag_bytes(b),
        None => None,
    };
    build_song(path, parsed)
}

} // verus!
