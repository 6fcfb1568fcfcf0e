//! The playback actor's caller-facing surface: the commands a caller may
//! submit, the events broadcast to subscribers, the error taxonomy, and the
//! [`Player`] facade that owns the command channel and the subscription
//! registry.

use vstd::prelude::*;
use crate::channel::CommandQueue;
use crate::registry::{contains_id, index_of_id, Registry};

verus! {

/// A transport command, consumed exactly once and in submission order by the
/// playback worker.  Immutable once created.
#[derive(Clone, Debug)]
pub enum PlaybackCommand {
    /// Decode the audio source at the given path and start playing it,
    /// replacing any previously loaded source.
    Load(String),
    /// Resume output of the loaded source.
    Play,
    /// Suspend output of the loaded source.
    Pause,
    /// Move the play head of the loaded source to the given position
    /// (whole seconds from the start).
    Seek(u64),
    /// Stop output, release the audio device and end the worker. Terminal.
    Terminate,
}

/// A state-change event, broadcast as an immutable snapshot to every
/// subscriber registered at the moment of delivery.
#[derive(Clone, Copy, Debug, PartialEq, Eq, Structural)]
pub enum PlayerEvent {
    /// Output is running (emitted on a successful load and on resume).
    Playing,
    /// Output is suspended.
    Paused,
    /// Periodic progress sample taken by the position poller.
    PositionUpdate { position: u64, duration: u64 },
    /// The play head moved to the given position without a phase change.
    Seeked { position: u64 },
}

/// The errors a playback operation can report.  Per-command errors are
/// returned to the caller that issued the command; they are never broadcast
/// and never alter the playback state.
#[derive(Clone, Copy, Debug, PartialEq, Eq, Structural)]
pub enum PlayerError {
    /// A command was submitted after the worker exited; the player instance
    /// is no longer usable.
    ChannelClosed,
    /// The file handed to a load command could not be opened or decoded.
    DecodeError,
    /// A seek position was out of range, or the source does not support
    /// seeking, or no source is loaded.
    SeekError,
    /// The audio output device was unavailable when the worker started;
    /// fatal to that worker instance.
    DeviceError,
}

/// The player facade: what a caller holds.  It owns the sending side of the
/// command channel and a handle to the subscription registry.  `E` is the
/// delivery endpoint type handed in at subscription time.
///
/// Destroying the player must terminate the worker: the embedding
/// application calls [`Player::terminate`] and then joins the worker's
/// thread, which guarantees the audio device is released.
pub struct Player<E> {
    /// The command channel.  Submissions append here; the worker drains it
    /// in submission order.
    pub queue: CommandQueue,
    /// The subscription registry, shared with the event broadcaster.
    pub registry: Registry<E>,
}

impl<E> Player<E> {
    /// A fresh player: open command channel, no pending commands, no
    /// subscribers.  The embedding application then spawns the worker, the
    /// position poller and the broadcaster around it.
    pub fn spawn() -> (p: Player<E>)
        ensures
            p.queue.commands() == Seq::<PlaybackCommand>::empty(),
            p.queue.is_open(),
            p.registry@ == Seq::<(u64, E)>::empty(),
            p.registry.wf(),
            p.registry.fresh_id() == 0,
    {
        Player { queue: CommandQueue::new(), registry: Registry::new() }
    }

    /// Submit a load command for the track at `file_path`.
    pub fn load(&mut self, file_path: String) -> (r: Result<(), PlayerError>)
        ensures
            final(self).registry == old(self).registry,
            old(self).queue.is_open() ==> {
                &&& r == Ok::<(), PlayerError>(())
                &&& final(self).queue.commands() == old(self).queue.commands().push(
                    PlaybackCommand::Load(file_path),
                )
                &&& final(self).queue.is_open()
            },
            !old(self).queue.is_open() ==> r == Err::<(), PlayerError>(PlayerError::ChannelClosed)
                && *final(self) == *old(self),
    {
        self.queue.submit(PlaybackCommand::Load(file_path))
    }

    /// Submit a play command.
    pub fn play(&mut self) -> (r: Result<(), PlayerError>)
        ensures
            final(self).registry == old(self).registry,
            old(self).queue.is_open() ==> {
                &&& r == Ok::<(), PlayerError>(())
                &&& final(self).queue.commands() == old(self).queue.commands().push(
                    PlaybackCommand::Play,
                )
                &&& final(self).queue.is_open()
            },
            !old(self).queue.is_open() ==> r == Err::<(), PlayerError>(PlayerError::ChannelClosed)
                && *final(self) == *old(self),
    {
        self.queue.submit(PlaybackCommand::Play)
    }

    /// Submit a pause command.
    pub fn pause(&mut self) -> (r: Result<(), PlayerError>)
        ensures
            final(self).registry == old(self).registry,
            old(self).queue.is_open() ==> {
                &&& r == Ok::<(), PlayerError>(())
                &&& final(self).queue.commands() == old(self).queue.commands().push(
                    PlaybackCommand::Pause,
                )
                &&& final(self).queue.is_open()
            },
            !old(self).queue.is_open() ==> r == Err::<(), PlayerError>(PlayerError::ChannelClosed)
                && *final(self) == *old(self),
    {
        self.queue.submit(PlaybackCommand::Pause)
    }

    /// Submit a seek command to `position` (whole seconds from the start).
    pub fn seek(&mut self, position: u64) -> (r: Result<(), PlayerError>)
        ensures
            final(self).registry == old(self).registry,
            old(self).queue.is_open() ==> {
                &&& r == Ok::<(), PlayerError>(())
                &&& final(self).queue.commands() == old(self).queue.commands().push(
                    PlaybackCommand::Seek(position),
                )
                &&& final(self).queue.is_open()
            },
            !old(self).queue.is_open() ==> r == Err::<(), PlayerError>(PlayerError::ChannelClosed)
                && *final(self) == *old(self),
    {
        self.queue.submit(PlaybackCommand::Seek(position))
    }

    /// Submit a terminate command and close the channel.  The terminate
    /// command is the last one the worker will ever receive; afterwards
    /// every submission fails with `ChannelClosed` and the player must be
    /// reconstructed to resume operation.
    pub fn terminate(&mut self) -> (r: Result<(), PlayerError>)
        ensures
            final(self).registry == old(self).registry,
            old(self).queue.is_open() ==> {
                &&& r == Ok::<(), PlayerError>(())
                &&& final(self).queue.commands() == old(self).queue.commands().push(
                    PlaybackCommand::Terminate,
                )
                &&& !final(self).queue.is_open()
            },
            !old(self).queue.is_open() ==> r == Err::<(), PlayerError>(PlayerError::ChannelClosed)
                && *final(self) == *old(self),
    {
        let r = self.queue.submit(PlaybackCommand::Terminate);
        if r.is_ok() {
            self.queue.close();
        }
        r
    }

    /// Take the oldest pending command; the worker's side of the channel.
    pub fn next_command(&mut self) -> (r: Option<PlaybackCommand>)
        ensures
            final(self).registry == old(self).registry,
            old(self).queue.commands().len() > 0 ==> {
                &&& r == Some(old(self).queue.commands()[0])
                &&& final(self).queue.commands() == old(self).queue.commands().drop_first()
                &&& final(self).queue.is_open() == old(self).queue.is_open()
            },
            old(self).queue.commands().len() == 0 ==> r is None && *final(self) == *old(self),
    {
        self.queue.recv()
    }

    /// Subscribe a delivery endpoint to player events; returns the fresh
    /// subscription identifier.  Never fails.
    pub fn subscribe_event(&mut self, endpoint: E) -> (id: u64)
        requires
            old(self).registry.wf(),
            old(self).registry.fresh_id() < u64::MAX,
        ensures
            final(self).queue == old(self).queue,
            final(self).registry.wf(),
            id == old(self).registry.fresh_id(),
            !contains_id(old(self).registry@, id),
            contains_id(final(self).registry@, id),
            final(self).registry@ == old(self).registry@.push((id, endpoint)),
            final(self).registry.fresh_id() == old(self).registry.fresh_id() + 1,
    {
        self.registry.subscribe(endpoint)
    }

    /// Drop the subscription with the given identifier, if it is live;
    /// report whether removal occurred.  Idempotent: a second call with the
    /// same identifier returns false.
    pub fn unsubscribe_event(&mut self, id: u64) -> (removed: bool)
        requires
            old(self).registry.wf(),
        ensures
            final(self).queue == old(self).queue,
            final(self).registry.wf(),
            removed == contains_id(old(self).registry@, id),
            removed ==> final(self).registry@ == old(self).registry@.remove(
                index_of_id(old(self).registry@, id),
            ),
            !removed ==> final(self).registry@ == old(self).registry@,
            !contains_id(final(self).registry@, id),
            final(self).registry.fresh_id() == old(self).registry.fresh_id(),
    {
        self.registry.unsubscribe(id)
    }
}

} // verus!
