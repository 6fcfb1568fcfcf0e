//! Track metadata as read from an audio file's tags, and the defaulting rule
//! applied when a tag is missing.

use vstd::prelude::*;

verus! {

/// Best-effort metadata of one audio file.
pub struct Tags {
    pub title: String,
    pub artist: String,
    pub album: String,
    /// Total duration in whole seconds; zero when unknown.
    pub duration: u64,
}

/// Assemble [`Tags`] from whatever the tag reader could extract, filling
/// each missing part with its placeholder: `UnknownTrack`, `UnknownArtist`,
/// `UnknownAlbum`, and a zero duration.
pub fn tags_with_defaults(
    title: Option<String>,
    artist: Option<String>,
    album: Option<String>,
    duration: Option<u64>,
) -> (t: Tags)
    ensures
        match title {
            Some(s) => t.title == s,
            None => t.title@ == "UnknownTrack"@,
        },
        match artist {
            Some(s) => t.artist == s,
            None => t.artist@ == "UnknownArtist"@,
        },
        match album {
            Some(s) => t.album == s,
            None => t.album@ == "UnknownAlbum"@,
        },
        match duration {
            Some(d) => t.duration == d,
            None => t.duration == 0,
        },
{
    let title = match title {
        Some(s) => s,
        None => "UnknownTrack".to_owned(),
    };
    let artist = match artist {
        Some(s) => s,
        None => "UnknownArtist".to_owned(),
    };
    let album = match album {
        Some(s) => s,
        None => "UnknownAlbum".to_owned(),
    };
    let duration = match duration {
        Some(d) => d,
        None => 0,
    };
    Tags { title, artist, album, duration }
}

} // verus!
