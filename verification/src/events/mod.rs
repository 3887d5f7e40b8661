//! Requests to the internal event scheduler and the events it produces.

use vstd::prelude::*;
use crate::messages::Message;

pub mod channel;
pub mod internal;

verus! {

/// Height of a block in the chain.
#[derive(Debug, Clone, Copy, PartialEq, Eq, Structural)]
pub struct Height(pub u64);

/// Round of the consensus algorithm at one height.
#[derive(Debug, Clone, Copy, PartialEq, Eq, Structural)]
pub struct Round(pub u32);

/// What the consensus loop asked to be reminded of. The scheduler hands the
/// token back unread when the timer fires.
#[derive(Debug, Clone, Copy, PartialEq, Eq, Structural)]
pub struct NodeTimeout(pub u64);

/// A point in time: the nanoseconds that have passed since the Unix epoch.
#[derive(Debug, Clone, Copy, PartialEq, Eq, Structural)]
pub struct Timestamp(pub u128);

/// A span of time in nanoseconds.
#[derive(Debug, Clone, Copy, PartialEq, Eq, Structural)]
pub struct Delay(pub u128);

impl Timestamp {
    /// The point in time that lies `elapsed` nanoseconds behind the Unix
    /// epoch. A clock that stands before the epoch has no such number
    /// (`None`) and counts as standing at the epoch.
    pub fn since_epoch(elapsed: Option<u128>) -> (time: Timestamp)
        ensures
            time == match elapsed {
                Some(nanos) => Timestamp(nanos),
                None => Timestamp(0),
            },
    {
        match elapsed {
            Some(nanos) => Timestamp(nanos),
            None => Timestamp(0),
        }
    }

    /// The time to wait at `now` until this point in time is reached: the
    /// difference of the two, and nothing when this point has passed.
    pub open spec fn spec_delay_from(self, now: Timestamp) -> Delay {
        if self.0 > now.0 {
            Delay((self.0 - now.0) as u128)
        } else {
            Delay(0)
        }
    }

    /// The time to wait at `now` until this point in time is reached. A
    /// point that has passed, or that is reached just now, is waited for no
    /// time at all.
    pub fn delay_from(self, now: Timestamp) -> (delay: Delay)
        ensures
            delay == self.spec_delay_from(now),
            self.0 <= now.0 ==> delay == Delay(0),
            self.0 > now.0 ==> delay.0 + now.0 == self.0,
    {
        if self.0 > now.0 {
            Delay(self.0 - now.0)
        } else {
            Delay(0)
        }
    }
}

/// A request to fire a timeout at a point in time.
#[derive(Debug, Clone, Copy, PartialEq, Eq, Structural)]
pub struct TimeoutRequest(pub Timestamp, pub NodeTimeout);

/// What the consensus core and the dispatcher ask of the scheduler.
#[derive(Debug, Clone, PartialEq, Eq)]
pub enum InternalRequest {
    /// Check the signature of a raw message.
    VerifyMessage(Vec<u8>),
    /// Fire a timeout at the given time.
    Timeout(TimeoutRequest),
    /// Tell the consensus loop to jump to a round.
    JumpToRound(Height, Round),
    /// Tell the consensus loop to shut down.
    Shutdown,
    /// Rebuild the API surface of the node's services. The dispatcher asks
    /// for it when a service was started; it is the node's own matter, and
    /// nothing is reported to the consensus loop.
    RestartApi,
}

/// What the scheduler reports to the consensus loop.
#[derive(Debug, Clone, PartialEq, Eq)]
pub enum InternalEvent {
    /// A message passed the signature check.
    MessageVerified(Message),
    /// A timeout fired.
    Timeout(NodeTimeout),
    /// Jump to the given round.
    JumpToRound(Height, Round),
    /// Shut down.
    Shutdown,
}

impl InternalEvent {
    /// The event for a message that passed the signature check.
    pub fn message_verified(message: Message) -> (event: InternalEvent)
        ensures
            event == InternalEvent::MessageVerified(message),
    {
        InternalEvent::MessageVerified(message)
    }

    /// The event for a timeout that fired.
    pub fn timeout(timeout: NodeTimeout) -> (event: InternalEvent)
        ensures
            event == InternalEvent::Timeout(timeout),
    {
        InternalEvent::Timeout(timeout)
    }

    /// The event that asks for a jump to a round.
    pub fn jump_to_round(height: Height, round: Round) -> (event: InternalEvent)
        ensures
            event == InternalEvent::JumpToRound(height, round),
    {
        InternalEvent::JumpToRound(height, round)
    }

    /// The event that asks for a shutdown.
    pub fn shutdown() -> (event: InternalEvent)
        ensures
            event == InternalEvent::Shutdown,
    {
        InternalEvent::Shutdown
    }
}

/// Nanoseconds in a second.
pub const NANOS_PER_SEC: u128 = 1_000_000_000;

impl Delay {
    /// The delay as whole seconds and the nanoseconds beyond them, as a
    /// timer takes it. A delay of more seconds than the first number can
    /// hold is cut to the longest delay that the two numbers can hold.
    pub open spec fn spec_secs_and_nanos(self) -> (u64, u32) {
        if self.0 / NANOS_PER_SEC > u64::MAX {
            (u64::MAX, 999_999_999u32)
        } else {
            ((self.0 / NANOS_PER_SEC) as u64, (self.0 % NANOS_PER_SEC) as u32)
        }
    }

    /// The delay as whole seconds and the nanoseconds beyond them.
    pub fn secs_and_nanos(self) -> (parts: (u64, u32))
        ensures
            parts == self.spec_secs_and_nanos(),
            parts.1 < NANOS_PER_SEC,
            self.0 / NANOS_PER_SEC <= u64::MAX ==> parts.0 * NANOS_PER_SEC + parts.1 == self.0,
    {
        let secs: u128 = self.0 / NANOS_PER_SEC;
        if secs > u64::MAX as u128 {
            (u64::MAX, 999_999_999)
        } else {
            let nanos: u128 = self.0 % NANOS_PER_SEC;
            (secs as u64, nanos as u32)
        }
    }
}

} // verus!
