//! Playlist bookkeeping rules: which of the storage layer's findings makes a
//! playlist operation fail, and with which error — in the exact order the
//! checks are made.  The storage layer only reports whether the rows exist;
//! the decisions live here.

use vstd::prelude::*;

verus! {

/// Why a playlist operation was refused.
#[derive(Clone, Copy, Debug, PartialEq, Eq, Structural)]
pub enum PlaylistError {
    /// A playlist with the requested name already exists.
    AlreadyExists,
    /// No playlist has the requested identifier.
    PlaylistNotFound,
    /// No track has the requested identifier.
    TrackNotFound,
    /// The track is already a member of the playlist.
    TrackAlreadyInPlaylist,
}

impl PlaylistError {
    /// The message reported to the caller, exactly as the storage commands
    /// word it.
    pub fn message(&self) -> (s: String)
        ensures
            self is AlreadyExists ==> s@ == "Playlist already exists"@,
            self is PlaylistNotFound ==> s@ == "Playlist not found"@,
            self is TrackNotFound ==> s@ == "Track not found"@,
            self is TrackAlreadyInPlaylist ==> s@ == "Track is already in the playlist"@,
    {
        match self {
            PlaylistError::AlreadyExists => "Playlist already exists".to_owned(),
            PlaylistError::PlaylistNotFound => "Playlist not found".to_owned(),
            PlaylistError::TrackNotFound => "Track not found".to_owned(),
            PlaylistError::TrackAlreadyInPlaylist => "Track is already in the playlist".to_owned(),
        }
    }
}

/// Creating a playlist is refused exactly when its name is already taken.
pub fn create_playlist_check(name_taken: bool) -> (r: Result<(), PlaylistError>)
    ensures
        r == if name_taken {
            Err::<(), PlaylistError>(PlaylistError::AlreadyExists)
        } else {
            Ok::<(), PlaylistError>(())
        },
{
    if name_taken {
        Err(PlaylistError::AlreadyExists)
    } else {
        Ok(())
    }
}

/// Adding a track to a playlist checks, in this order: the playlist exists,
/// the track exists, the track is not yet a member.  The first failing check
/// names the error; only when all three pass is the membership row inserted.
pub fn add_track_check(
    playlist_exists: bool,
    track_exists: bool,
    already_in_playlist: bool,
) -> (r: Result<(), PlaylistError>)
    ensures
        r == if !playlist_exists {
            Err::<(), PlaylistError>(PlaylistError::PlaylistNotFound)
        } else if !track_exists {
            Err::<(), PlaylistError>(PlaylistError::TrackNotFound)
        } else if already_in_playlist {
            Err::<(), PlaylistError>(PlaylistError::TrackAlreadyInPlaylist)
        } else {
            Ok::<(), PlaylistError>(())
        },
{
    if !playlist_exists {
        Err(PlaylistError::PlaylistNotFound)
    } else if !track_exists {
        Err(PlaylistError::TrackNotFound)
    } else if already_in_playlist {
        Err(PlaylistError::TrackAlreadyInPlaylist)
    } else {
        Ok(())
    }
}

/// Removing a track from a playlist checks that the playlist exists, then
/// that the track exists; the membership row itself need not exist (deleting
/// a non-member is not an error).
pub fn remove_track_check(playlist_exists: bool, track_exists: bool) -> (r: Result<
    (),
    PlaylistError,
>)
    ensures
        r == if !playlist_exists {
            Err::<(), PlaylistError>(PlaylistError::PlaylistNotFound)
        } else if !track_exists {
            Err::<(), PlaylistError>(PlaylistError::TrackNotFound)
        } else {
            Ok::<(), PlaylistError>(())
        },
{
    if !playlist_exists {
        Err(PlaylistError::PlaylistNotFound)
    } else if !track_exists {
        Err(PlaylistError::TrackNotFound)
    } else {
        Ok(())
    }
}

/// Renaming a playlist requires only that the playlist exists.
pub fn rename_playlist_check(playlist_exists: bool) -> (r: Result<(), PlaylistError>)
    ensures
        r == if !playlist_exists {
            Err::<(), PlaylistError>(PlaylistError::PlaylistNotFound)
        } else {
            Ok::<(), PlaylistError>(())
        },
{
    if !playlist_exists {
        Err(PlaylistError::PlaylistNotFound)
    } else {
        Ok(())
    }
}

} // verus!
