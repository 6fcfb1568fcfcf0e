use rwave::entities::{Album, Artist};
use rwave::ingest::{
    ingest_step, outcome_message, request_of, DbReply, DbRequest, IngestOutcome, IngestState,
    TxAction,
};
use rwave::migrations::get_migrations;
use rwave::playlist::{
    add_track_check, create_playlist_check, remove_track_check, rename_playlist_check,
    PlaylistError,
};
use rwave::tags::tags_with_defaults;

#[test]
fn tags_keep_what_the_reader_found() {
    let t = tags_with_defaults(
        Some(String::from("Cave Dungeon")),
        Some(String::from("Some Artist")),
        Some(String::from("Some Album")),
        Some(245),
    );
    assert_eq!(t.title, "Cave Dungeon");
    assert_eq!(t.artist, "Some Artist");
    assert_eq!(t.album, "Some Album");
    assert_eq!(t.duration, 245);
}

#[test]
fn tags_fill_missing_parts_with_placeholders() {
    let t = tags_with_defaults(None, None, None, None);
    assert_eq!(t.title, "UnknownTrack");
    assert_eq!(t.artist, "UnknownArtist");
    assert_eq!(t.album, "UnknownAlbum");
    assert_eq!(t.duration, 0);
}

#[test]
fn playlist_create_rejects_taken_name() {
    assert_eq!(create_playlist_check(true), Err(PlaylistError::AlreadyExists));
    assert_eq!(create_playlist_check(false), Ok(()));
}

#[test]
fn playlist_add_checks_in_order() {
    assert_eq!(add_track_check(false, false, false), Err(PlaylistError::PlaylistNotFound));
    assert_eq!(add_track_check(true, false, false), Err(PlaylistError::TrackNotFound));
    assert_eq!(add_track_check(true, true, true), Err(PlaylistError::TrackAlreadyInPlaylist));
    assert_eq!(add_track_check(true, true, false), Ok(()));
}

#[test]
fn playlist_remove_checks_in_order() {
    assert_eq!(remove_track_check(false, true), Err(PlaylistError::PlaylistNotFound));
    assert_eq!(remove_track_check(true, false), Err(PlaylistError::TrackNotFound));
    assert_eq!(remove_track_check(true, true), Ok(()));
}

#[test]
fn playlist_rename_requires_existing_playlist() {
    assert_eq!(rename_playlist_check(false), Err(PlaylistError::PlaylistNotFound));
    assert_eq!(rename_playlist_check(true), Ok(()));
}

#[test]
fn playlist_error_messages() {
    assert_eq!(PlaylistError::AlreadyExists.message(), "Playlist already exists");
    assert_eq!(PlaylistError::PlaylistNotFound.message(), "Playlist not found");
    assert_eq!(PlaylistError::TrackNotFound.message(), "Track not found");
    assert_eq!(
        PlaylistError::TrackAlreadyInPlaylist.message(),
        "Track is already in the playlist"
    );
}

#[test]
fn ingest_duplicate_name_ends_immediately() {
    let s = IngestState::CheckingDuplicate;
    assert_eq!(request_of(&s), DbRequest::QueryTrackIdByName);
    let (s, tx) = ingest_step(&s, &DbReply::Row { value: 9 });
    assert_eq!(s, IngestState::Done { outcome: IngestOutcome::AlreadyExists });
    assert_eq!(tx, TxAction::NoAction);
    assert_eq!(request_of(&s), DbRequest::NoRequest);
}

#[test]
fn ingest_happy_path_with_fresh_artist_and_album() {
    let s = IngestState::CheckingDuplicate;
    let (s, _) = ingest_step(&s, &DbReply::NoRow);
    assert_eq!(request_of(&s), DbRequest::QueryArtistIdByName);
    let (s, _) = ingest_step(&s, &DbReply::NoRow);
    assert_eq!(request_of(&s), DbRequest::ExecInsertArtist);
    let (s, _) = ingest_step(&s, &DbReply::ExecOk { last_insert_rowid: 3 });
    assert_eq!(request_of(&s), DbRequest::QueryAlbumId { artist_id: 3 });
    let (s, _) = ingest_step(&s, &DbReply::NoRow);
    assert_eq!(request_of(&s), DbRequest::ExecInsertAlbum { artist_id: 3 });
    let (s, _) = ingest_step(&s, &DbReply::ExecOk { last_insert_rowid: 8 });
    assert_eq!(request_of(&s), DbRequest::ExecInsertTrack { artist_id: 3, album_id: 8 });
    let (s, tx) = ingest_step(&s, &DbReply::ExecOk { last_insert_rowid: 21 });
    assert_eq!(tx, TxAction::NoAction);
    assert_eq!(request_of(&s), DbRequest::ExecLinkDefaultPlaylist { track_id: 21 });
    let (s, tx) = ingest_step(&s, &DbReply::ExecOk { last_insert_rowid: 1 });
    assert_eq!(s, IngestState::Done { outcome: IngestOutcome::Created });
    assert_eq!(tx, TxAction::Commit);
}

#[test]
fn ingest_known_artist_and_album_skip_inserts() {
    let s = IngestState::CheckingDuplicate;
    let (s, _) = ingest_step(&s, &DbReply::NoRow);
    let (s, _) = ingest_step(&s, &DbReply::Row { value: 5 });
    assert_eq!(request_of(&s), DbRequest::QueryAlbumId { artist_id: 5 });
    let (s, _) = ingest_step(&s, &DbReply::Row { value: 11 });
    assert_eq!(request_of(&s), DbRequest::ExecInsertTrack { artist_id: 5, album_id: 11 });
}

#[test]
fn ingest_track_insert_failure_rolls_back() {
    let s = IngestState::InsertingTrack { artist_id: 5, album_id: 11 };
    let (s, tx) = ingest_step(&s, &DbReply::ExecFailed);
    assert_eq!(s, IngestState::Done { outcome: IngestOutcome::Failed });
    assert_eq!(tx, TxAction::Rollback);
}

#[test]
fn ingest_outcome_messages() {
    assert_eq!(outcome_message(&IngestOutcome::AlreadyExists), "Track already exists");
    assert_eq!(outcome_message(&IngestOutcome::Created), "Track created");
    assert_eq!(outcome_message(&IngestOutcome::Failed), "Invalid Operation");
}

#[test]
fn migrations_are_consecutive_forward_steps() {
    let ms = get_migrations();
    assert_eq!(ms.len(), 8);
    for (i, m) in ms.iter().enumerate() {
        assert_eq!(m.version, i as u64 + 1);
        assert!(m.up);
        assert!(!m.sql.is_empty());
        assert!(!m.description.is_empty());
    }
    assert_eq!(ms[0].description, "Create Artists Table");
    assert_eq!(
        ms[7].sql,
        "INSERT OR IGNORE INTO Playlists (PlaylistID, Name) VALUES (1, 'All Tracks');"
    );
    assert!(ms[4].sql.contains("CREATE TABLE IF NOT EXISTS Tracks"));
}

#[test]
fn unknown_album_and_artist_placeholders() {
    let a = Album::unknown();
    assert_eq!(a.album_id, None);
    assert_eq!(a.name, "Unknown");
    assert_eq!(a.artist_id, None);
    let r = Artist::unknown();
    assert_eq!(r.artist_id, None);
    assert_eq!(r.name, "Unknown Artist");
}
