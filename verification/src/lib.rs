//! Backend core of a desktop music-library application: walks a directory
//! listing, keeps the audio files, extracts title/artist/album/duration from
//! each file's tag block, and produces one progress notification per file
//! together with the final song list.

pub mod paths;
pub mod scan;
pub mod song;
pub mod tags;
