//! Whose turn it is when the bot waits for an event: the endpoints are asked one
//! after the other, each for a short while, until one delivers or the time is up.
use vstd::prelude::*;
use crate::error::BotError;
use crate::types::LiveEventExt;

verus! {

/// The turns of the endpoints of a bot.
#[derive(Clone, Copy, Debug, PartialEq, Eq, Structural)]
pub struct Rotation {
    /// The number of endpoints.
    pub endpoints: usize,
    /// The endpoint whose turn is next.
    pub next: usize,
    /// The nanoseconds for which one endpoint is asked at most before the next one
    /// has its turn.
    pub poll: u64,
}

/// What remains to be done with the answer of the endpoint that was asked, where
/// `left` nanoseconds of the caller's time were left after it answered.
///
/// An event is handed on as it came, and so is every failure but a timeout. A
/// timeout of the endpoint passes the turn to the next endpoint (`None`), unless
/// the caller's time is up, which is a timeout of the whole.
pub open spec fn spec_settle(received: Result<LiveEventExt, BotError>, left: u64) -> Option<
    Result<LiveEventExt, BotError>,
> {
    match received {
        Err(BotError::Timeout) => if left == 0 {
            Some(Err(BotError::Timeout))
        } else {
            None
        },
        other => Some(other),
    }
}

/// Decides on the answer of the endpoint that was asked: `Some` is the answer for
/// the caller, `None` says to ask the next endpoint.
#[verifier::when_used_as_spec(spec_settle)]
pub fn settle(received: Result<LiveEventExt, BotError>, left: u64) -> (r: Option<
    Result<LiveEventExt, BotError>,
>)
    ensures
        r == spec_settle(received, left),
{
    match received {
        Err(BotError::Timeout) => if left == 0 {
            Some(Err(BotError::Timeout))
        } else {
            None
        },
        other => Some(other),
    }
}

impl Rotation {
    /// The endpoint whose turn is next exists, unless there is none at all.
    pub open spec fn wf(self) -> bool {
        if self.endpoints == 0 {
            self.next == 0
        } else {
            self.next < self.endpoints
        }
    }

    /// The rotation in which the first endpoint has the first turn.
    pub open spec fn spec_new(endpoints: usize, poll: u64) -> Rotation {
        Rotation { endpoints, next: 0, poll }
    }

    /// Begins with the first of `endpoints` endpoints, each to be asked for at
    /// most `poll` nanoseconds in its turn.
    #[verifier::when_used_as_spec(spec_new)]
    pub fn new(endpoints: usize, poll: u64) -> (r: Rotation)
        ensures
            r == Rotation::spec_new(endpoints, poll),
            r.wf(),
    {
        Rotation { endpoints, next: 0, poll }
    }

    /// The rotation after one turn: the next endpoint is the following one, and
    /// after the last comes the first.
    pub open spec fn turned(self) -> Rotation {
        Rotation {
            next: if self.next + 1 >= self.endpoints {
                0
            } else {
                (self.next + 1) as usize
            },
            ..self
        }
    }

    /// The rotation after `turns` turns.
    pub open spec fn turned_times(self, turns: nat) -> Rotation
        decreases turns,
    {
        if turns == 0 {
            self
        } else {
            self.turned_times((turns - 1) as nat).turned()
        }
    }

    /// For how long the endpoint in turn is asked when `left` nanoseconds of the
    /// caller's time are left: for the time of one turn, and for no more than is
    /// left.
    pub open spec fn asking_time(self, left: u64) -> u64 {
        if left < self.poll {
            left
        } else {
            self.poll
        }
    }

    /// Takes a turn: says which endpoint to ask and for how many nanoseconds,
    /// where `left` nanoseconds of the caller's time are left, and passes the turn
    /// on. Without endpoints there is nobody to ask.
    pub fn take_turn(&mut self, left: u64) -> (r: Option<(usize, u64)>)
        requires
            old(self).wf(),
        ensures
            final(self).wf(),
            old(self).endpoints == 0 ==> r is None && *final(self) == *old(self),
            old(self).endpoints > 0 ==> r == Some((old(self).next, old(self).asking_time(left)))
                && *final(self) == old(self).turned(),
    {
        if self.endpoints == 0 {
            return None;
        }
        let endpoint: usize = self.next;
        let time: u64 = if left < self.poll {
            left
        } else {
            self.poll
        };
        if self.next + 1 >= self.endpoints {
            self.next = 0;
        } else {
            self.next = self.next + 1;
        }
        Some((endpoint, time))
    }
}

} // verus!
