//! Adding a track to the metadata store is a fixed conversation with the
//! database: check the name for a duplicate, look up or insert the artist,
//! look up or insert the album, insert the track inside a transaction, link
//! it into the default playlist, then commit — or roll back if the track
//! insert is refused.  The database does the queries; every decision in
//! between is the step function here.
//!
//! The embedding application drives the loop: it asks [`request_of`] what to
//! run, runs it, and hands the reply to [`ingest_step`] until the state is
//! `Done`.

use vstd::prelude::*;

verus! {

/// Where the ingest conversation stands.
#[derive(Clone, Copy, Debug, PartialEq, Eq, Structural)]
pub enum IngestState {
    /// Ask whether a track of this name already exists.
    CheckingDuplicate,
    /// Ask for the artist's identifier by name.
    ResolvingArtist,
    /// The artist was absent: insert it.
    InsertingArtist,
    /// Ask for the album's identifier by name and artist.
    ResolvingAlbum { artist_id: i64 },
    /// The album was absent: insert it under this artist.
    InsertingAlbum { artist_id: i64 },
    /// Insert the track row under this artist and album.
    InsertingTrack { artist_id: i64, album_id: i64 },
    /// Add the new track to the default playlist.
    LinkingDefaultPlaylist { track_id: i64 },
    /// The conversation is over.
    Done { outcome: IngestOutcome },
}

/// How the conversation ended.
#[derive(Clone, Copy, Debug, PartialEq, Eq, Structural)]
pub enum IngestOutcome {
    /// A track of this name is already in the store; nothing was changed.
    AlreadyExists,
    /// The track was inserted and linked into the default playlist.
    Created,
    /// The track insert was refused; the transaction was rolled back.
    Failed,
}

/// What the state machine asks the database to run next.
#[derive(Clone, Copy, Debug, PartialEq, Eq, Structural)]
pub enum DbRequest {
    /// `SELECT TrackID FROM Tracks WHERE Name = ?` with the track's name.
    QueryTrackIdByName,
    /// `SELECT ArtistID FROM Artists WHERE Name = ?` with the artist's name.
    QueryArtistIdByName,
    /// `INSERT INTO Artists (Name) VALUES (?)` with the artist's name.
    ExecInsertArtist,
    /// `SELECT AlbumID FROM Albums WHERE Name = ? AND ArtistID = ?`.
    QueryAlbumId { artist_id: i64 },
    /// `INSERT INTO Albums (Name, ArtistID) VALUES (?, ?)`.
    ExecInsertAlbum { artist_id: i64 },
    /// `INSERT INTO Tracks (Name, Path, ArtistID, AlbumID, Duration)`.
    ExecInsertTrack { artist_id: i64, album_id: i64 },
    /// `INSERT INTO TrackPlaylist (TrackID, PlaylistID)` with the default
    /// playlist's identifier (one).
    ExecLinkDefaultPlaylist { track_id: i64 },
    /// Nothing: the conversation is over.
    NoRequest,
}

/// What the transaction must do after a step.
#[derive(Clone, Copy, Debug, PartialEq, Eq, Structural)]
pub enum TxAction {
    NoAction,
    Commit,
    Rollback,
}

/// The database's answer to a request: a row's single integer column, no
/// row, or a statement's outcome with the fresh row identifier.
#[derive(Clone, Copy, Debug, PartialEq, Eq, Structural)]
pub enum DbReply {
    Row { value: i64 },
    NoRow,
    ExecOk { last_insert_rowid: i64 },
    ExecFailed,
}

/// The request each state needs answered.
pub open spec fn spec_request_of(s: IngestState) -> DbRequest {
    match s {
        IngestState::CheckingDuplicate => DbRequest::QueryTrackIdByName,
        IngestState::ResolvingArtist => DbRequest::QueryArtistIdByName,
        IngestState::InsertingArtist => DbRequest::ExecInsertArtist,
        IngestState::ResolvingAlbum { artist_id } => DbRequest::QueryAlbumId { artist_id },
        IngestState::InsertingAlbum { artist_id } => DbRequest::ExecInsertAlbum { artist_id },
        IngestState::InsertingTrack { artist_id, album_id } => DbRequest::ExecInsertTrack {
            artist_id,
            album_id,
        },
        IngestState::LinkingDefaultPlaylist { track_id } => DbRequest::ExecLinkDefaultPlaylist {
            track_id,
        },
        IngestState::Done { .. } => DbRequest::NoRequest,
    }
}

/// Whether `reply` is an answer the request of state `s` can produce: a
/// query is answered by a row or by no row; an insert is answered by its
/// outcome.  The artist, album and playlist-link inserts always succeed in
/// this conversation (their rows carry no uniqueness constraint that the
/// machine's own checks have not already ruled out), so only the track
/// insert may answer `ExecFailed`.
pub open spec fn reply_matches(s: IngestState, reply: DbReply) -> bool {
    match s {
        IngestState::CheckingDuplicate
        | IngestState::ResolvingArtist
        | IngestState::ResolvingAlbum { .. } => reply is Row || reply is NoRow,
        IngestState::InsertingArtist | IngestState::InsertingAlbum { .. } => reply is ExecOk,
        IngestState::InsertingTrack { .. } => reply is ExecOk || reply is ExecFailed,
        IngestState::LinkingDefaultPlaylist { .. } => reply is ExecOk,
        IngestState::Done { .. } => false,
    }
}

/// The state after one exchange.
pub open spec fn spec_ingest_step(s: IngestState, reply: DbReply) -> IngestState {
    match s {
        IngestState::CheckingDuplicate => match reply {
            DbReply::Row { .. } => IngestState::Done { outcome: IngestOutcome::AlreadyExists },
            _ => IngestState::ResolvingArtist,
        },
        IngestState::ResolvingArtist => match reply {
            DbReply::Row { value } => IngestState::ResolvingAlbum { artist_id: value },
            _ => IngestState::InsertingArtist,
        },
        IngestState::InsertingArtist => match reply {
            DbReply::ExecOk { last_insert_rowid } => IngestState::ResolvingAlbum {
                artist_id: last_insert_rowid,
            },
            _ => s,
        },
        IngestState::ResolvingAlbum { artist_id } => match reply {
            DbReply::Row { value } => IngestState::InsertingTrack { artist_id, album_id: value },
            _ => IngestState::InsertingAlbum { artist_id },
        },
        IngestState::InsertingAlbum { artist_id } => match reply {
            DbReply::ExecOk { last_insert_rowid } => IngestState::InsertingTrack {
                artist_id,
                album_id: last_insert_rowid,
            },
            _ => s,
        },
        IngestState::InsertingTrack { .. } => match reply {
            DbReply::ExecOk { last_insert_rowid } => IngestState::LinkingDefaultPlaylist {
                track_id: last_insert_rowid,
            },
            _ => IngestState::Done { outcome: IngestOutcome::Failed },
        },
        IngestState::LinkingDefaultPlaylist { .. } => IngestState::Done {
            outcome: IngestOutcome::Created,
        },
        IngestState::Done { .. } => s,
    }
}

/// What the transaction does on this exchange: commit once the track is
/// linked, roll back when the track insert is refused, nothing otherwise.
pub open spec fn spec_ingest_tx(s: IngestState, reply: DbReply) -> TxAction {
    match s {
        IngestState::InsertingTrack { .. } => match reply {
            DbReply::ExecOk { .. } => TxAction::NoAction,
            _ => TxAction::Rollback,
        },
        IngestState::LinkingDefaultPlaylist { .. } => TxAction::Commit,
        _ => TxAction::NoAction,
    }
}

/// How many exchanges can still follow; each step strictly lowers it, so
/// the drive loop terminates.
pub open spec fn spec_ingest_rank(s: IngestState) -> nat {
    match s {
        IngestState::CheckingDuplicate => 7,
        IngestState::ResolvingArtist => 6,
        IngestState::InsertingArtist => 5,
        IngestState::ResolvingAlbum { .. } => 4,
        IngestState::InsertingAlbum { .. } => 3,
        IngestState::InsertingTrack { .. } => 2,
        IngestState::LinkingDefaultPlaylist { .. } => 1,
        IngestState::Done { .. } => 0,
    }
}

/// The request the database must answer before the next step; `NoRequest`
/// exactly when the conversation is over.
pub fn request_of(s: &IngestState) -> (r: DbRequest)
    ensures
        r == spec_request_of(*s),
        (r == DbRequest::NoRequest) == (*s is Done),
{
    match *s {
        IngestState::CheckingDuplicate => DbRequest::QueryTrackIdByName,
        IngestState::ResolvingArtist => DbRequest::QueryArtistIdByName,
        IngestState::InsertingArtist => DbRequest::ExecInsertArtist,
        IngestState::ResolvingAlbum { artist_id } => DbRequest::QueryAlbumId { artist_id },
        IngestState::InsertingAlbum { artist_id } => DbRequest::ExecInsertAlbum { artist_id },
        IngestState::InsertingTrack { artist_id, album_id } => DbRequest::ExecInsertTrack {
            artist_id,
            album_id,
        },
        IngestState::LinkingDefaultPlaylist { track_id } => DbRequest::ExecLinkDefaultPlaylist {
            track_id,
        },
        IngestState::Done { .. } => DbRequest::NoRequest,
    }
}

/// One exchange: from the current state and the database's reply to the
/// state's request, the next state and what the transaction must do.  The
/// rank strictly falls, so a loop that steps until `Done` terminates.
pub fn ingest_step(s: &IngestState, reply: &DbReply) -> (r: (IngestState, TxAction))
    requires
        reply_matches(*s, *reply),
    ensures
        r.0 == spec_ingest_step(*s, *reply),
        r.1 == spec_ingest_tx(*s, *reply),
        spec_ingest_rank(r.0) < spec_ingest_rank(*s),
{
    match *s {
        IngestState::CheckingDuplicate => match *reply {
            DbReply::Row { .. } => (
                IngestState::Done { outcome: IngestOutcome::AlreadyExists },
                TxAction::NoAction,
            ),
            _ => (IngestState::ResolvingArtist, TxAction::NoAction),
        },
        IngestState::ResolvingArtist => match *reply {
            DbReply::Row { value } => (
                IngestState::ResolvingAlbum { artist_id: value },
                TxAction::NoAction,
            ),
            _ => (IngestState::InsertingArtist, TxAction::NoAction),
        },
        IngestState::InsertingArtist => match *reply {
            DbReply::ExecOk { last_insert_rowid } => (
                IngestState::ResolvingAlbum { artist_id: last_insert_rowid },
                TxAction::NoAction,
            ),
            _ => (*s, TxAction::NoAction),
        },
        IngestState::ResolvingAlbum { artist_id } => match *reply {
            DbReply::Row { value } => (
                IngestState::InsertingTrack { artist_id, album_id: value },
                TxAction::NoAction,
            ),
            _ => (IngestState::InsertingAlbum { artist_id }, TxAction::NoAction),
        },
        IngestState::InsertingAlbum { artist_id } => match *reply {
            DbReply::ExecOk { last_insert_rowid } => (
                IngestState::InsertingTrack { artist_id, album_id: last_insert_rowid },
                TxAction::NoAction,
            ),
            _ => (*s, TxAction::NoAction),
        },
        IngestState::InsertingTrack { .. } => match *reply {
            DbReply::ExecOk { last_insert_rowid } => (
                IngestState::LinkingDefaultPlaylist { track_id: last_insert_rowid },
                TxAction::NoAction,
            ),
            _ => (IngestState::Done { outcome: IngestOutcome::Failed }, TxAction::Rollback),
        },
        IngestState::LinkingDefaultPlaylist { .. } => (
            IngestState::Done { outcome: IngestOutcome::Created },
            TxAction::Commit,
        ),
        IngestState::Done { .. } => (*s, TxAction::NoAction),
    }
}

/// The message each outcome reports to the caller.
pub fn outcome_message(o: &IngestOutcome) -> (s: String)
    ensures
        o is AlreadyExists ==> s@ == "Track already exists"@,
        o is Created ==> s@ == "Track created"@,
        o is Failed ==> s@ == "Invalid Operation"@,
{
    match o {
        IngestOutcome::AlreadyExists => "Track already exists".to_owned(),
        IngestOutcome::Created => "Track created".to_owned(),
        IngestOutcome::Failed => "Invalid Operation".to_owned(),
    }
}

/// Law: the transaction commits only on the exchange that linked the track
/// into the default playlist, and rolls back only on the exchange whose
/// track insert was refused — never both, never elsewhere.
pub proof fn lemma_tx_discipline(s: IngestState, reply: DbReply)
    ensures
        spec_ingest_tx(s, reply) == TxAction::Commit <==> (s is LinkingDefaultPlaylist),
        spec_ingest_tx(s, reply) == TxAction::Rollback <==> (s is InsertingTrack
            && !(reply is ExecOk)),
{
}

} // verus!
