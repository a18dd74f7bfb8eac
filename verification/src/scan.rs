//! The scan pipeline: keep the audio files of a directory listing, build one
//! `Song` per kept file, and account for one progress notification per file.

use vstd::prelude::*;

use crate::paths::is_audio_path;
use crate::paths::has_audio_extension;
use crate::song::Song;
use crate::song::TagView;
use crate::song::song_matches;
use crate::tags::extract_song;
use crate::tags::scanned_tags_of;

verus! {

/// One entry of the directory listing handed to the scan: the file's path
/// and its contents, `None` when the file could not be read.
pub struct FileEntry {
    pub path: String,
    pub bytes: Option<Vec<u8>>,
}

/// Mathematical image of a `FileEntry`.
pub ghost struct FileEntryView {
    pub path: Seq<char>,
    pub bytes: Option<Seq<u8>>,
}

impl View for FileEntry {
    type V = FileEntryView;

    open spec fn view(&self) -> FileEntryView {
        FileEntryView {
            path: self.path@,
            bytes: match self.bytes {
                Some(b) => Some(b@),
                None => None,
            },
        }
    }
}

/// The views of a sequence of entries.
pub open spec fn entries_view(entries: Seq<FileEntry>) -> Seq<FileEntryView> {
    entries.map_values(|e: FileEntry| e@)
}

/// The filter the scan applies to the listing.
pub open spec fn audio_pred() -> spec_fn(FileEntryView) -> bool {
    |e: FileEntryView| is_audio_path(e.path)
}

/// The entries the scan keeps: those whose path carries an allow-listed
/// audio extension, in listing order.
pub open spec fn audio_entries(entries: Seq<FileEntryView>) -> Seq<FileEntryView> {
    entries.filter(audio_pred())
}

/// The tag-parse outcome owed for one entry.
pub open spec fn entry_tags(e: FileEntryView) -> Option<TagView> {
    scanned_tags_of(e.bytes)
}

/// A progress notification handed to the host shell after one file has been
/// fully processed: `current` is the 1-based count of files done so far,
/// `total` the stable count of matching files in the whole scan.
pub struct ProgressEvent {
    pub current: usize,
    pub total: usize,
}

/// The notification owed after the file at `index` (0-based) of `total`
/// has been processed.
pub fn progress_for(index: usize, total: usize) -> (e: ProgressEvent)
    requires
        index < total,
    ensures
        e.current == index + 1,
        e.total == total,
{
    ProgressEvent { current: index + 1, total }
}

/// What a whole scan of `entries` returns: the songs in processing order
/// and the progress notifications emitted along the way, one per song.
pub struct ScanOutcome {
    pub songs: Vec<Song>,
    pub events: Vec<ProgressEvent>,
}

/// The outcome owed for the listing `entries`: exactly one song per kept
/// entry, in order, each built by the documented extraction rules; and
/// exactly one notification per kept entry, `current` counting 1 up to the
/// number of kept entries and `total` constant at that number.
pub open spec fn scan_outcome_matches(out: ScanOutcome, entries: Seq<FileEntryView>) -> bool {
    let kept = audio_entries(entries);
    &&& out.songs@.len() == kept.len()
    &&& out.events@.len() == kept.len()
    &&& forall|i: int|
        0 <= i < kept.len() ==> song_matches(
            #[trigger] out.songs@[i],
            kept[i].path,
            entry_tags(kept[i]),
        )
    &&& forall|i: int|
        0 <= i < kept.len() ==> (#[trigger] out.events@[i]).current == i + 1
            && out.events@[i].total == kept.len()
}

/// Filtering one more element keeps the filtered prefix and appends the
/// element exactly when it passes the predicate.
proof fn lemma_filter_push<A>(s: Seq<A>, p: spec_fn(A) -> bool, x: A)
    ensures
        s.push(x).filter(p) == if p(x) {
            s.filter(p).push(x)
        } else {
            s.filter(p)
        },
{
    reveal(Seq::filter);
    assert(s.push(x).drop_last() =~= s);
}

/// Keeps the entries whose path carries an audio extension, in order.
fn keep_audio_entries(entries: Vec<FileEntry>) -> (kept: Vec<FileEntry>)
    ensures
        entries_view(kept@) == audio_entries(entries_view(entries@)),
{
    let mut input = entries;
    let ghost orig: Seq<FileEntry> = input@;
    let mut kept: Vec<FileEntry> = Vec::new();
    proof {
        assert(entries_view(kept@) =~= entries_view(orig.subrange(0, 0)));
        reveal(Seq::filter);
    }
    while input.len() > 0
        invariant
            input.len() <= orig.len(),
            input@ == orig.subrange(orig.len() - input.len(), orig.len() as int),
            entries_view(kept@) == audio_entries(
                entries_view(orig.subrange(0, orig.len() - input.len())),
            ),
        decreases input.len(),
    {
        let ghost done: int = orig.len() - input.len();
        let e = input.remove(0);
        proof {
            assert(input@ =~= orig.subrange(done + 1, orig.len() as int));
            let prefix = entries_view(orig.subrange(0, done));
            assert(entries_view(orig.subrange(0, done + 1)) =~= prefix.push(e@));
            lemma_filter_push(prefix, audio_pred(), e@);
        }
        if has_audio_extension(e.path.as_str()) {
            let ghost kept_before = entries_view(kept@);
            kept.push(e);
            proof {
                assert(entries_view(kept@) =~= kept_before.push(e@));
            }
        }
    }
    proof {
        assert(orig.subrange(0, orig.len() as int) =~= orig);
    }
    kept
}

/// Scans a directory listing: keeps the audio files, builds one `Song` per
/// kept file in order, and returns the progress notifications owed, one per
/// file, with a stable total.
pub fn scan_music_files(entries: Vec<FileEntry>) -> (out: ScanOutcome)
    ensures
        scan_outcome_matches(out, entries_view(entries@)),
{
    let ghost all = entries_view(entries@);
    let kept = keep_audio_entries(entries);
    let ghost keptv = entries_view(kept@);
    let total = kept.len();
    let mut songs: Vec<Song> = Vec::new();
    let mut events: Vec<ProgressEvent> = Vec::new();
    let mut i: usize = 0;
    while i < total
        invariant
            total == kept.len(),
            keptv == entries_view(kept@),
            keptv == audio_entries(all),
            i <= total,
            songs@.len() == i,
            events@.len() == i,
            forall|k: int|
                0 <= k < i ==> song_matches(
                    #[trigger] songs@[k],
                    keptv[k].path,
                    entry_tags(keptv[k]),
                ),
            forall|k: int|
                0 <= k < i ==> (#[trigger] events@[k]).current == k + 1 && events@[k].total
                    == total,
        decreases total - i,
    {
        let e = &kept[i];
        proof {
            assert(keptv[i as int] == kept@[i as int]@);
        }
        let bytes_ref: Option<&[u8]> = match &e.bytes {
            Some(b) => Some(b.as_slice()),
            None => None,
        };
        let song = extract_song(e.path.as_str(), bytes_ref);
        songs.push(song);
        events.push(progress_for(i, total));
        i = i + 1;
    }
    ScanOutcome { songs, events }
}

/// The whole operation: fails with a single descriptive message when the
/// traversal of the root could not be started, and otherwise returns the
/// full scan outcome; per-file failures never fail the operation.
pub fn scan_music_directory(root_readable: bool, entries: Vec<FileEntry>) -> (r: Result<
    ScanOutcome,
    String,
>)
    ensures
        root_readable ==> r is Ok && scan_outcome_matches(r->Ok_0, entries_view(entries@)),
        !root_readable ==> r is Err && r->Err_0@ == "could not read the music directory"@,
{
    if !root_readable {
        return Err("could not read the music directory".to_owned());
    }
    Ok(scan_music_files(entries))
}

/// Every entry the scan keeps passes the audio-extension filter: no song is
/// ever produced for a file whose extension is off the allow-list.
pub proof fn lemma_scan_keeps_only_audio(entries: Seq<FileEntryView>)
    ensures
        forall|j: int|
            0 <= j < audio_entries(entries).len() ==> is_audio_path(
                #[trigger] audio_entries(entries)[j].path,
            ),
{
    assert forall|j: int|
        0 <= j < audio_entries(entries).len() implies is_audio_path(
        audio_entries(entries)[j].path,
    ) by {
        entries.lemma_filter_pred(audio_pred(), j);
    }
}

} // verus!
