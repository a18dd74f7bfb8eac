//! Extraction run against real tag parsing: the fixtures are WAV byte
//! strings built in memory, with and without an embedded ID3v2 tag block.

use music_scan::scan::scan_music_files;
use music_scan::scan::FileEntry;
use music_scan::tags::extract_song;

/// One ID3v2.3 text frame with Latin-1 content.
fn id3v2_text_frame(id: &[u8; 4], text: &str) -> Vec<u8> {
    let mut content = vec![0u8];
    content.extend_from_slice(text.as_bytes());
    let mut f = Vec::new();
    f.extend_from_slice(id);
    f.extend_from_slice(&(content.len() as u32).to_be_bytes());
    f.extend_from_slice(&[0, 0]);
    f.extend_from_slice(&content);
    f
}

/// A whole ID3v2.3 tag block around the given frames.
fn id3v2_tag(frames: &[Vec<u8>]) -> Vec<u8> {
    let body: Vec<u8> = frames.concat();
    let size = body.len() as u32;
    let mut t = Vec::new();
    t.extend_from_slice(b"ID3");
    t.extend_from_slice(&[3, 0, 0]);
    t.push(((size >> 21) & 0x7F) as u8);
    t.push(((size >> 14) & 0x7F) as u8);
    t.push(((size >> 7) & 0x7F) as u8);
    t.push((size & 0x7F) as u8);
    t.extend_from_slice(&body);
    t
}

/// A PCM WAV file of exactly `seconds` seconds (8-bit mono at 8000 Hz, so
/// one byte per sample), optionally carrying an ID3v2 tag chunk.
fn wav_bytes(seconds: u32, id3: Option<Vec<u8>>) -> Vec<u8> {
    let data_len = 8000 * seconds;
    let mut fmt = Vec::new();
    fmt.extend_from_slice(&1u16.to_le_bytes());
    fmt.extend_from_slice(&1u16.to_le_bytes());
    fmt.extend_from_slice(&8000u32.to_le_bytes());
    fmt.extend_from_slice(&8000u32.to_le_bytes());
    fmt.extend_from_slice(&1u16.to_le_bytes());
    fmt.extend_from_slice(&8u16.to_le_bytes());
    let mut body = Vec::new();
    body.extend_from_slice(b"WAVE");
    body.extend_from_slice(b"fmt ");
    body.extend_from_slice(&(fmt.len() as u32).to_le_bytes());
    body.extend_from_slice(&fmt);
    body.extend_from_slice(b"data");
    body.extend_from_slice(&data_len.to_le_bytes());
    body.resize(body.len() + data_len as usize, 0);
    if let Some(tag) = id3 {
        body.extend_from_slice(b"id3 ");
        body.extend_from_slice(&(tag.len() as u32).to_le_bytes());
        body.extend_from_slice(&tag);
        if tag.len() % 2 == 1 {
            body.push(0);
        }
    }
    let mut out = Vec::new();
    out.extend_from_slice(b"RIFF");
    out.extend_from_slice(&(body.len() as u32).to_le_bytes());
    out.extend_from_slice(&body);
    out
}

#[test]
fn tagged_wav_yields_the_tag_values() {
    let tag = id3v2_tag(&[
        id3v2_text_frame(b"TIT2", "Test Song"),
        id3v2_text_frame(b"TPE1", "Test Artist"),
    ]);
    let bytes = wav_bytes(180, Some(tag));
    let song = extract_song("library/song.wav", Some(&bytes));
    assert_eq!(song.id, None);
    assert_eq!(song.title, "Test Song");
    assert_eq!(song.artist, "Test Artist");
    assert_eq!(song.album, "Unknown Album");
    assert_eq!(song.duration, 180);
    assert_eq!(song.file_path, "library/song.wav");
}

#[test]
fn untagged_wav_keeps_its_decoded_duration() {
    let bytes = wav_bytes(2, None);
    let song = extract_song("library/plain.wav", Some(&bytes));
    assert_eq!(song.title, "plain");
    assert_eq!(song.artist, "Unknown Artist");
    assert_eq!(song.album, "Unknown Album");
    assert_eq!(song.duration, 2);
}

#[test]
fn unreadable_tag_block_falls_back_entirely() {
    let bytes = b"this is no audio container at all".to_vec();
    let song = extract_song("library/untagged.wav", Some(&bytes));
    assert_eq!(song.title, "untagged");
    assert_eq!(song.artist, "Unknown Artist");
    assert_eq!(song.album, "Unknown Album");
    assert_eq!(song.duration, 0);
}

#[test]
fn scan_parses_tags_through_the_whole_pipeline() {
    let tag = id3v2_tag(&[id3v2_text_frame(b"TIT2", "Named In Tag")]);
    let listing = vec![
        FileEntry { path: "a/tagged.wav".to_string(), bytes: Some(wav_bytes(3, Some(tag))) },
        FileEntry { path: "a/notes.txt".to_string(), bytes: None },
        FileEntry { path: "a/broken.mp3".to_string(), bytes: None },
    ];
    let out = scan_music_files(listing);
    assert_eq!(out.songs.len(), 2);
    assert_eq!(out.songs[0].title, "Named In Tag");
    assert_eq!(out.songs[0].duration, 3);
    assert_eq!(out.songs[1].title, "broken");
    assert_eq!(out.songs[1].duration, 0);
    assert_eq!(out.events.len(), 2);
    assert_eq!(out.events[0].current, 1);
    assert_eq!(out.events[1].current, 2);
    assert_eq!(out.events[0].total, 2);
    assert_eq!(out.events[1].total, 2);
}
