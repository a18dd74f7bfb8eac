use music_scan::paths::has_audio_extension;
use music_scan::paths::path_file_stem;

#[test]
fn accepts_every_allow_listed_extension() {
    for name in [
        "a.mp3", "b.flac", "c.wav", "d.m4a", "e.ogg", "f.opus", "g.aac", "h.wma",
    ] {
        assert!(has_audio_extension(name), "{name}");
    }
}

#[test]
fn matching_is_case_insensitive() {
    assert!(has_audio_extension("music/Track.MP3"));
    assert!(has_audio_extension("music/Track.FlAc"));
    assert!(has_audio_extension("music/Track.Wav"));
    assert!(has_audio_extension("music/Track.OPUS"));
}

#[test]
fn rejects_extensions_off_the_allow_list() {
    assert!(!has_audio_extension("notes.txt"));
    assert!(!has_audio_extension("music/cover.jpg"));
    assert!(!has_audio_extension("music/track.mp4"));
    assert!(!has_audio_extension("music/track.mp33"));
    assert!(!has_audio_extension("music/track.amp3"));
}

#[test]
fn rejects_files_without_an_extension() {
    assert!(!has_audio_extension("music/README"));
    assert!(!has_audio_extension(""));
    assert!(!has_audio_extension("music/trailingdot."));
}

#[test]
fn a_leading_dot_alone_is_no_extension() {
    assert!(!has_audio_extension("music/.mp3"));
    assert!(!has_audio_extension(".flac"));
}

#[test]
fn stem_strips_the_final_extension_segment() {
    assert_eq!(path_file_stem("music/untagged.wav"), "untagged");
    assert_eq!(path_file_stem("a/b/c/song.tagged.mp3"), "song.tagged");
    assert_eq!(path_file_stem("song.mp3"), "song");
}

#[test]
fn stem_of_a_name_without_extension_is_the_name() {
    assert_eq!(path_file_stem("music/README"), "README");
    assert_eq!(path_file_stem("music/.config"), ".config");
    assert_eq!(path_file_stem("music/trailingdot."), "trailingdot");
}
