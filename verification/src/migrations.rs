//! The schema migrations of the metadata store, as plain data: version,
//! description, the SQL to run, and the direction.  The embedding
//! application hands them to its database layer; the contract pins the
//! version numbering (consecutive from one, in order) and the text of every
//! statement.

use vstd::prelude::*;

verus! {

/// One schema migration step.
pub struct Migration {
    /// Position in the schema history; applied in ascending order.
    pub version: u64,
    pub description: &'static str,
    pub sql: &'static str,
    /// True for a forward (up) migration.
    pub up: bool,
}

/// The description of the migration at position `i` (zero-based).
pub open spec fn migration_description(i: int) -> Seq<char> {
    if i == 0 {
        "Create Artists Table"@
    } else if i == 1 {
        "Create Album Table"@
    } else if i == 2 {
        "Create ArtistID Index"@
    } else if i == 3 {
        "Create AlbumID Index"@
    } else if i == 4 {
        "Create Tracks Table"@
    } else if i == 5 {
        "Create Playlists Table"@
    } else if i == 6 {
        "Create TrackPlaylist Relationship Table"@
    } else {
        "Insert a default playlist `All Tracks`, which would store all tracks"@
    }
}

/// The SQL of the migration at position `i` (zero-based).
pub open spec fn migration_sql(i: int) -> Seq<char> {
    if i == 0 {
        "
            CREATE TABLE IF NOT EXISTS Artists (
            ArtistID INTEGER PRIMARY KEY,
            Name TEXT NOT NULL
            );
            "@
    } else if i == 1 {
        "
            CREATE TABLE IF NOT EXISTS Albums (
            AlbumID INTEGER PRIMARY KEY,
            Name TEXT NOT NULL,
            ArtistID INTEGER NOT NULL,
            FOREIGN KEY(ArtistID) REFERENCES Artists(ArtistID)
            );
            "@
    } else if i == 2 {
        "CREATE INDEX IF NOT EXISTS idx_Artists_ArtistID ON Artists(ArtistID);"@
    } else if i == 3 {
        "CREATE INDEX IF NOT EXISTS idx_Albums_AlbumID ON Albums(AlbumID);"@
    } else if i == 4 {
        "
            CREATE TABLE IF NOT EXISTS Tracks (
            TrackID INTEGER PRIMARY KEY,
            Name TEXT NOT NULL,
            Path TEXT NOT NULL,
            ArtistID INTEGER NOT NULL,
            AlbumID INTEGER NOT NULL,
            Duration INTEGER DEFAULT 0,
            FOREIGN KEY(ArtistID) REFERENCES Artists(ArtistID),
            FOREIGN KEY(AlbumID) REFERENCES Albums(AlbumID)
            );
            "@
    } else if i == 5 {
        "
            CREATE TABLE IF NOT EXISTS Playlists (
            PlaylistID INTEGER PRIMARY KEY,
            Name TEXT NOT NULL
            );
            "@
    } else if i == 6 {
        "
            CREATE TABLE IF NOT EXISTS TrackPlaylist (
            TrackID INTEGER NOT NULL,
            PlaylistID INTEGER NOT NULL,
            PRIMARY KEY(TrackID, PlaylistID),
            FOREIGN KEY(TrackID) REFERENCES Tracks(TrackID),
            FOREIGN KEY(PlaylistID) REFERENCES Playlists(PlaylistID)
            );
            "@
    } else {
        "INSERT OR IGNORE INTO Playlists (PlaylistID, Name) VALUES (1, 'All Tracks');"@
    }
}

/// The full migration history: eight forward steps, numbered consecutively
/// from one, each carrying exactly the description and SQL given by
/// [`migration_description`] and [`migration_sql`].
pub fn get_migrations() -> (r: Vec<Migration>)
    ensures
        r@.len() == 8,
        forall|i: int|
            0 <= i < 8 ==> {
                &&& (#[trigger] r@[i]).version == i + 1
                &&& r@[i].up
                &&& r@[i].description@ == migration_description(i)
                &&& r@[i].sql@ == migration_sql(i)
            },
{
    let mut r: Vec<Migration> = Vec::new();
    r.push(
        Migration {
            version: 1,
            description: "Create Artists Table",
            sql: "
            CREATE TABLE IF NOT EXISTS Artists (
            ArtistID INTEGER PRIMARY KEY,
            Name TEXT NOT NULL
            );
            ",
            up: true,
        },
    );
    r.push(
        Migration {
            version: 2,
            description: "Create Album Table",
            sql: "
            CREATE TABLE IF NOT EXISTS Albums (
            AlbumID INTEGER PRIMARY KEY,
            Name TEXT NOT NULL,
            ArtistID INTEGER NOT NULL,
            FOREIGN KEY(ArtistID) REFERENCES Artists(ArtistID)
            );
            ",
            up: true,
        },
    );
    r.push(
        Migration {
            version: 3,
            description: "Create ArtistID Index",
            sql: "CREATE INDEX IF NOT EXISTS idx_Artists_ArtistID ON Artists(ArtistID);",
            up: true,
        },
    );
    r.push(
        Migration {
            version: 4,
            description: "Create AlbumID Index",
            sql: "CREATE INDEX IF NOT EXISTS idx_Albums_AlbumID ON Albums(AlbumID);",
            up: true,
        },
    );
    r.push(
        Migration {
            version: 5,
            description: "Create Tracks Table",
            sql: "
            CREATE TABLE IF NOT EXISTS Tracks (
            TrackID INTEGER PRIMARY KEY,
            Name TEXT NOT NULL,
            Path TEXT NOT NULL,
            ArtistID INTEGER NOT NULL,
            AlbumID INTEGER NOT NULL,
            Duration INTEGER DEFAULT 0,
            FOREIGN KEY(ArtistID) REFERENCES Artists(ArtistID),
            FOREIGN KEY(AlbumID) REFERENCES Albums(AlbumID)
            );
            ",
            up: true,
        },
    );
    r.push(
        Migration {
            version: 6,
            description: "Create Playlists Table",
            sql: "
            CREATE TABLE IF NOT EXISTS Playlists (
            PlaylistID INTEGER PRIMARY KEY,
            Name TEXT NOT NULL
            );
            ",
            up: true,
        },
    );
    r.push(
        Migration {
            version: 7,
            description: "Create TrackPlaylist Relationship Table",
            sql: "
            CREATE TABLE IF NOT EXISTS TrackPlaylist (
            TrackID INTEGER NOT NULL,
            PlaylistID INTEGER NOT NULL,
            PRIMARY KEY(TrackID, PlaylistID),
            FOREIGN KEY(TrackID) REFERENCES Tracks(TrackID),
            FOREIGN KEY(PlaylistID) REFERENCES Playlists(PlaylistID)
            );
            ",
            up: true,
        },
    );
    r.push(
        Migration {
            version: 8,
            description: "Insert a default playlist `All Tracks`, which would store all tracks",
            sql: "INSERT OR IGNORE INTO Playlists (PlaylistID, Name) VALUES (1, 'All Tracks');",
            up: true,
        },
    );
    proof {
        assert forall|i: int| 0 <= i < 8 implies {
            &&& (#[trigger] r@[i]).version == i + 1
            &&& r@[i].up
            &&& r@[i].description@ == migration_description(i)
            &&& r@[i].sql@ == migration_sql(i)
        } by {
            if i == 0 {
            } else if i == 1 {
            } else if i == 2 {
            } else if i == 3 {
            } else if i == 4 {
            } else if i == 5 {
            } else if i == 6 {
            } else {
            }
        }
    }
    r
}

} // verus!
