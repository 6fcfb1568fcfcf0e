//! The records of the metadata store: tracks, artists, albums and playlists,
//! keyed by integer surrogate identifiers.  An absent identifier means the
//! record has not been persisted (or the reference is unset).

use vstd::prelude::*;

verus! {

/// A track: its display name, the file location used to load it for
/// playback, references to its artist and album, and its duration in whole
/// seconds.
pub struct Track {
    pub track_id: Option<i32>,
    pub name: String,
    pub path: String,
    pub artist_id: Option<i32>,
    pub album_id: Option<i32>,
    pub duration: Option<i32>,
}

/// An artist.
pub struct Artist {
    pub artist_id: Option<i32>,
    pub name: String,
}

/// An album, by one artist.
pub struct Album {
    pub album_id: Option<i32>,
    pub name: String,
    pub artist_id: Option<i32>,
}

/// A playlist.
pub struct Playlist {
    pub playlist_id: Option<i32>,
    pub name: String,
}

impl Album {
    /// The placeholder returned when an album lookup finds no row.
    pub fn unknown() -> (a: Album)
        ensures
            a.album_id is None,
            a.name@ == "Unknown"@,
            a.artist_id is None,
    {
        Album { album_id: None, name: "Unknown".to_owned(), artist_id: None }
    }
}

impl Artist {
    /// The placeholder returned when an artist lookup finds no row.
    pub fn unknown() -> (a: Artist)
        ensures
            a.artist_id is None,
            a.name@ == "Unknown Artist"@,
    {
        Artist { artist_id: None, name: "Unknown Artist".to_owned() }
    }
}

} // verus!
