//! The command channel: an ordered, multi-producer/single-consumer queue of
//! playback commands.
//!
//! Submission never blocks and never drops a command; the consumer (the
//! playback worker) receives commands in submission order.  Once the channel
//! is closed — the worker has exited — every further submission fails with
//! `ChannelClosed` instead of silently succeeding.  This type is the
//! verified model of that discipline; the embedding application realizes it
//! with an operating-system channel and checks the same conditions.

use vstd::prelude::*;
use crate::player::{PlaybackCommand, PlayerError};

verus! {

/// An ordered queue of pending playback commands, with a flag that records
/// whether the consuming worker is still there to receive them.
pub struct CommandQueue {
    items: Vec<PlaybackCommand>,
    accepting: bool,
}

impl CommandQueue {
    /// The pending commands, oldest first.
    pub closed spec fn commands(self) -> Seq<PlaybackCommand> {
        self.items@
    }

    /// Whether the consumer is still there: submissions succeed only while
    /// the queue is open.
    pub closed spec fn is_open(self) -> bool {
        self.accepting
    }

    /// A fresh, open, empty queue.
    pub fn new() -> (q: CommandQueue)
        ensures
            q.commands() == Seq::<PlaybackCommand>::empty(),
            q.is_open(),
    {
        CommandQueue { items: Vec::new(), accepting: true }
    }

    /// Submit a command.  While the queue is open the command is appended
    /// after every previously submitted one and the call succeeds; once the
    /// queue is closed the queue is unchanged and the caller gets
    /// `ChannelClosed`.
    pub fn submit(&mut self, cmd: PlaybackCommand) -> (r: Result<(), PlayerError>)
        ensures
            old(self).is_open() ==> {
                &&& r == Ok::<(), PlayerError>(())
                &&& final(self).commands() == old(self).commands().push(cmd)
                &&& final(self).is_open()
            },
            !old(self).is_open() ==> {
                &&& r == Err::<(), PlayerError>(PlayerError::ChannelClosed)
                &&& *final(self) == *old(self)
            },
    {
        if self.accepting {
            self.items.push(cmd);
            Ok(())
        } else {
            Err(PlayerError::ChannelClosed)
        }
    }

    /// Close the queue: the consumer is gone.  Pending commands are kept so
    /// the consumer side of the model can still drain them, but nothing can
    /// be submitted any more.
    pub fn close(&mut self)
        ensures
            !final(self).is_open(),
            final(self).commands() == old(self).commands(),
    {
        self.accepting = false;
    }

    /// Take the oldest pending command, if any.  Commands leave the queue in
    /// exactly the order they were submitted.
    pub fn recv(&mut self) -> (r: Option<PlaybackCommand>)
        ensures
            old(self).commands().len() > 0 ==> {
                &&& r == Some(old(self).commands()[0])
                &&& final(self).commands() == old(self).commands().drop_first()
                &&& final(self).is_open() == old(self).is_open()
            },
            old(self).commands().len() == 0 ==> {
                &&& r is None
                &&& *final(self) == *old(self)
            },
    {
        if self.items.len() > 0 {
            let cmd = self.items.remove(0);
            proof {
                assert(old(self).commands().remove(0) =~= old(self).commands().drop_first());
            }
            Some(cmd)
        } else {
            None
        }
    }

    /// The number of pending commands.
    pub fn len(&self) -> (n: usize)
        ensures
            n == self.commands().len(),
    {
        self.items.len()
    }

    /// Whether the consumer is still there.
    pub fn still_open(&self) -> (b: bool)
        ensures
            b == self.is_open(),
    {
        self.accepting
    }
}

} // verus!
