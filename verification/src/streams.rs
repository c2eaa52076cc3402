//! Handles that an opened call hands back: the receiver of a deferred unary
//! response, the sender and receiver of a client-streaming health call, and
//! the receiver of a server-streaming watch subscription.

use vstd::prelude::*;
use crate::messages::{Empty, GameServer, GameServerView};
use crate::errors::SdkError;

verus! {

/// The receiving end of a unary call issued without suspending: the
/// response is already determined and `recv` hands it out.
pub struct UnaryReceiver<T> {
    pub outcome: Result<T, SdkError>,
}

impl<T> UnaryReceiver<T> {
    /// Resolves the deferred call to its response.
    pub fn recv(self) -> (r: Result<T, SdkError>)
        ensures
            r == self.outcome,
    {
        self.outcome
    }
}

/// The sending half of a health stream. Every attempted heartbeat is
/// recorded in `log`; its fate is the next entry of `fates`, and a
/// heartbeat past the end of `fates` finds the stream closed.
pub struct HealthSender {
    pub fates: Vec<bool>,
    pub cursor: usize,
    pub log: Vec<Empty>,
}

/// What one heartbeat send on `s` comes back with.
pub open spec fn send_verdict(s: HealthSender) -> Result<(), SdkError> {
    if s.cursor >= s.fates@.len() {
        Err(SdkError::StreamClosed)
    } else if s.fates@[s.cursor as int] {
        Ok(())
    } else {
        Err(SdkError::Transport)
    }
}

/// The sender after one heartbeat: the attempt is logged and the next fate,
/// if any, is consumed.
pub open spec fn sender_after_send(s: HealthSender) -> HealthSender {
    HealthSender {
        fates: s.fates,
        cursor: if s.cursor < s.fates@.len() {
            (s.cursor + 1) as usize
        } else {
            s.cursor
        },
        log: s.log,
    }
}

impl HealthSender {
    /// Pushes one heartbeat onto the stream. The attempt is always
    /// recorded, whatever its fate.
    pub fn send(&mut self, heartbeat: &Empty) -> (r: Result<(), SdkError>)
        ensures
            final(self).fates == old(self).fates,
            final(self).cursor == sender_after_send(*old(self)).cursor,
            final(self).log@ == old(self).log@.push(*heartbeat),
            r == send_verdict(*old(self)),
    {
        self.log.push(*heartbeat);
        if self.cursor < self.fates.len() {
            let accepted = self.fates[self.cursor];
            self.cursor = self.cursor + 1;
            if accepted {
                Ok(())
            } else {
                Err(SdkError::Transport)
            }
        } else {
            Err(SdkError::StreamClosed)
        }
    }

    /// How many heartbeats have been attempted on this stream.
    pub fn attempts(&self) -> (r: usize)
        ensures
            r == self.log@.len(),
    {
        self.log.len()
    }
}

/// The receiving half of a health stream: resolves to the remote side's
/// acknowledgement once the sending half is done.
pub struct HealthReceiver {
    pub response: Result<Empty, SdkError>,
}

impl HealthReceiver {
    /// Resolves to the stream's acknowledgement.
    pub fn recv(self) -> (r: Result<Empty, SdkError>)
        ensures
            r == self.response,
    {
        self.response
    }
}

/// The receiving end of a watch subscription: a lazy, non-restartable
/// sequence of state snapshots.
pub struct WatchReceiver {
    pub feed: Vec<GameServer>,
    pub cursor: usize,
}

impl WatchReceiver {
    /// The snapshots still to be delivered, as views, in delivery order.
    pub open spec fn remaining(&self) -> Seq<GameServerView> {
        if self.cursor as int <= self.feed@.len() {
            self.feed@.skip(self.cursor as int).map_values(|g: GameServer| g@)
        } else {
            Seq::empty()
        }
    }

    /// Delivers the next snapshot, or `None` once the stream has ended.
    pub fn next(&mut self) -> (r: Option<GameServer>)
        ensures
            old(self).remaining().len() == 0 ==> r is None && *final(self) == *old(self),
            old(self).remaining().len() > 0 ==> {
                &&& r matches Some(g) && g@ == old(self).remaining()[0]
                &&& final(self).remaining() == old(self).remaining().skip(1)
                &&& final(self).feed == old(self).feed
            },
    {
        if self.cursor < self.feed.len() {
            let g = self.feed[self.cursor].duplicate();
            self.cursor = self.cursor + 1;
            assert(self.remaining() =~= old(self).remaining().skip(1));
            Some(g)
        } else {
            assert(old(self).remaining().len() == 0);
            None
        }
    }
}

} // verus!
