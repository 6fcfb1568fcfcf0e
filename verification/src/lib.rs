//! Backend core of a desktop music-library application.
//!
//! The heart of the crate is the playback actor: a single worker owns the
//! audio output device and processes transport commands strictly in order,
//! while a periodic poller samples the playback position and a broadcaster
//! fans events out to a dynamic set of subscribers.  This library holds the
//! verified logic of that actor — the worker's state machine, the command
//! queue's ordering discipline, the subscription registry, and the event
//! rules — together with the pure decision logic of the surrounding
//! application (tag defaulting, playlist bookkeeping, track ingestion,
//! request routing).  Thread spawning, audio output, file reading and
//! database access are left to the embedding application.

pub mod channel;
pub mod entities;
pub mod http;
pub mod ingest;
pub mod migrations;
pub mod player;
pub mod playlist;
pub mod registry;
pub mod tags;
pub mod worker;

pub use player::PlaybackCommand;
pub use player::PlayerError;
pub use player::PlayerEvent;
