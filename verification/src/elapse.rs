//! The decisions of one wait: when control goes back to the strategy.
use vstd::prelude::*;
use crate::types::WaitOrderResponse;

verus! {

/// The nanoseconds that a wait of `duration` lasts. A negative duration counts as
/// the unsigned number with the same 64 bits.
pub open spec fn spec_duration_nanos(duration: i64) -> u64 {
    if duration >= 0 {
        duration as u64
    } else {
        (duration + 0x1_0000_0000_0000_0000) as u64
    }
}

/// The nanoseconds that a wait of `duration` lasts.
#[verifier::when_used_as_spec(spec_duration_nanos)]
pub fn duration_nanos(duration: i64) -> (nanos: u64)
    ensures
        nanos == spec_duration_nanos(duration),
{
    if duration >= 0 {
        duration as u64
    } else {
        let below: u64 = (-(duration + 1)) as u64;
        u64::MAX - below
    }
}

/// How the transport framed what it delivered.
#[derive(Clone, Copy, Debug, PartialEq, Eq, Structural)]
pub enum Frame {
    /// An event on its own.
    Normal,
    /// An event of a batch that is still open.
    Batch,
    /// The end of the open batch.
    EndOfBatch,
}

/// One wait of the bot: what it waits for, for how long, and how far it has got.
///
/// A wait starts outside a batch with its whole duration remaining. It never ends
/// on an event inside a batch, so that the strategy sees a batch applied as a
/// whole.
#[derive(Clone, Copy, Debug, PartialEq, Eq, Structural)]
pub struct Elapse {
    /// The length of the wait in nanoseconds.
    pub duration: u64,
    /// Which order response ends the wait.
    pub wait_order_response: WaitOrderResponse,
    /// Whether market data ends the wait.
    pub wait_next_feed: bool,
    /// The nanoseconds left when the transport is next asked for an event.
    pub remaining: u64,
    /// Whether a batch is open.
    pub in_batch: bool,
    /// Whether the awaited order response has been seen.
    pub receive_wait_resp: bool,
}

impl Elapse {
    /// A wait that has just begun.
    pub open spec fn spec_new(
        duration: i64,
        wait_order_response: WaitOrderResponse,
        wait_next_feed: bool,
    ) -> Elapse {
        Elapse {
            duration: spec_duration_nanos(duration),
            wait_order_response,
            wait_next_feed,
            remaining: spec_duration_nanos(duration),
            in_batch: false,
            receive_wait_resp: false,
        }
    }

    /// Begins a wait of `duration` nanoseconds.
    #[verifier::when_used_as_spec(spec_new)]
    pub fn new(duration: i64, wait_order_response: WaitOrderResponse, wait_next_feed: bool) -> (run:
        Elapse)
        ensures
            run == Elapse::spec_new(duration, wait_order_response, wait_next_feed),
    {
        let nanos: u64 = duration_nanos(duration);
        Elapse {
            duration: nanos,
            wait_order_response,
            wait_next_feed,
            remaining: nanos,
            in_batch: false,
            receive_wait_resp: false,
        }
    }

    /// The wait after something framed as `frame` was delivered. `hit` says
    /// whether it was the awaited order response, `is_feed` whether it was market
    /// data; neither matters at the end of a batch.
    ///
    /// A batch event opens the batch, the end of a batch closes it, and an awaited
    /// response is remembered until the wait ends.
    pub open spec fn delivered(self, frame: Frame, hit: bool, is_feed: bool) -> Elapse {
        match frame {
            Frame::Normal => Elapse { receive_wait_resp: self.receive_wait_resp || hit, ..self },
            Frame::Batch => Elapse {
                in_batch: true,
                receive_wait_resp: self.receive_wait_resp || hit,
                ..self
            },
            Frame::EndOfBatch => Elapse { in_batch: false, receive_wait_resp: false, ..self },
        }
    }

    /// Whether the wait ends on something framed as `frame`.
    ///
    /// Outside a batch it ends on the awaited response and, if market data is
    /// waited for, on market data. Inside a batch it never ends. At the end of a
    /// batch it ends if the awaited response has been seen.
    pub open spec fn ends_on(self, frame: Frame, hit: bool, is_feed: bool) -> bool {
        match frame {
            Frame::Normal => !self.in_batch && (hit || (self.wait_next_feed && is_feed)),
            Frame::Batch => false,
            Frame::EndOfBatch => self.receive_wait_resp,
        }
    }

    /// Takes note of what was delivered, and says whether the wait ends on it.
    pub fn deliver(&mut self, frame: Frame, hit: bool, is_feed: bool) -> (ends: bool)
        ensures
            *final(self) == old(self).delivered(frame, hit, is_feed),
            ends == old(self).ends_on(frame, hit, is_feed),
            ends ==> !final(self).in_batch,
    {
        match frame {
            Frame::Normal => {
                if hit {
                    self.receive_wait_resp = true;
                }
                !self.in_batch && (hit || (self.wait_next_feed && is_feed))
            },
            Frame::Batch => {
                self.in_batch = true;
                if hit {
                    self.receive_wait_resp = true;
                }
                false
            },
            Frame::EndOfBatch => {
                let seen = self.receive_wait_resp;
                self.in_batch = false;
                self.receive_wait_resp = false;
                seen
            },
        }
    }

    /// Whether the wait is over once `elapsed` nanoseconds of it have passed: the
    /// time is up, and no batch is open.
    pub open spec fn expired(self, elapsed: u64) -> bool {
        !self.in_batch && elapsed >= self.duration
    }

    /// The wait with the time that remains after `elapsed` nanoseconds. Inside a
    /// batch, and once it is over, the wait stays as it is.
    pub open spec fn refreshed(self, elapsed: u64) -> Elapse {
        if !self.in_batch && elapsed < self.duration {
            Elapse { remaining: (self.duration - elapsed) as u64, ..self }
        } else {
            self
        }
    }

    /// Brings the remaining time up to date, and says whether the wait is over.
    pub fn refresh(&mut self, elapsed: u64) -> (over: bool)
        ensures
            *final(self) == old(self).refreshed(elapsed),
            over == old(self).expired(elapsed),
            over ==> !final(self).in_batch,
    {
        if self.in_batch {
            false
        } else if elapsed >= self.duration {
            true
        } else {
            self.remaining = self.duration - elapsed;
            false
        }
    }

    /// The wait after one turn of the loop: something framed as `frame` was
    /// delivered, and `elapsed` nanoseconds of the wait have passed since it began.
    /// Unless the wait ends on the delivery, its remaining time is brought up to
    /// date.
    pub open spec fn advanced(self, frame: Frame, hit: bool, is_feed: bool, elapsed: u64) -> Elapse {
        if self.ends_on(frame, hit, is_feed) {
            self.delivered(frame, hit, is_feed)
        } else {
            self.delivered(frame, hit, is_feed).refreshed(elapsed)
        }
    }

    /// What one turn of the loop decides: `Some(true)` if the wait ends on the
    /// delivery or its time is up, `None` if the loop is to ask the transport
    /// again.
    pub open spec fn decision(self, frame: Frame, hit: bool, is_feed: bool, elapsed: u64) -> Option<
        bool,
    > {
        if self.ends_on(frame, hit, is_feed) || self.delivered(frame, hit, is_feed).expired(
            elapsed,
        ) {
            Some(true)
        } else {
            None
        }
    }

    /// Takes one turn of the loop. The wait is never declared over while a batch
    /// is open.
    pub fn advance(&mut self, frame: Frame, hit: bool, is_feed: bool, elapsed: u64) -> (r: Option<
        bool,
    >)
        ensures
            *final(self) == old(self).advanced(frame, hit, is_feed, elapsed),
            r == old(self).decision(frame, hit, is_feed, elapsed),
            r is Some ==> !final(self).in_batch,
    {
        if self.deliver(frame, hit, is_feed) {
            Some(true)
        } else if self.refresh(elapsed) {
            Some(true)
        } else {
            None
        }
    }
}

} // verus!
