//! The record kept for one identity and feature, and the fixed-window rules
//! that one call applies to it.

use crate::time;
use vstd::prelude::*;

verus! {

/// What is known of the calls of one identity to one feature.
#[derive(Copy, Clone, Debug, PartialEq, Eq, Structural)]
pub struct Usage {
    /// The calls counted in the current window.
    pub calls: usize,
    /// When the block lifts; 0 while no block has been set.
    pub expiration: u64,
    /// When the last counted call came.
    pub last_call: u64,
}

impl Usage {
    /// The record after the first call ever, at `now`.
    pub open spec fn after_first_call(now: u64) -> Usage {
        Usage { calls: 1, expiration: 0, last_call: now }
    }

    /// The record of a block set at `now` for `seconds`: nothing counted, and
    /// an expiration `seconds` after `now`.
    pub open spec fn after_block(seconds: u32, now: u64) -> Usage {
        Usage { calls: 0, expiration: (now + seconds) as u64, last_call: now }
    }

    /// The counter has reached `max_calls`.
    pub open spec fn exhausted(self, max_calls: usize) -> bool {
        self.calls >= max_calls
    }

    /// A block was set and is over at `now`.
    pub open spec fn lapsed(self, now: u64) -> bool {
        self.expiration != 0 && self.expiration <= now
    }

    /// No block was set, and the last call lies `seconds` or more before `now`.
    pub open spec fn idle(self, seconds: u32, now: u64) -> bool {
        self.expiration == 0 && self.last_call + seconds <= now
    }

    /// The block that a call at `now` would set, if it sets one, ends at a
    /// point in time that `u64` can hold.
    pub open spec fn fits(self, max_calls: usize, seconds: u32, now: u64) -> bool {
        self.exhausted(max_calls) ==> now + seconds <= u64::MAX
    }

    /// The record after a call at `now` under the limit of `max_calls` calls in
    /// `seconds`. The first rule that applies decides:
    /// an exhausted counter sets a block; a lapsed block gives way to a window
    /// with this call as its first; an idle record starts over from zero;
    /// a record without block counts the call; a record under a block that
    /// still holds stays as it is.
    pub open spec fn after_update(self, max_calls: usize, seconds: u32, now: u64) -> Usage {
        if self.exhausted(max_calls) {
            Usage::after_block(seconds, now)
        } else if self.lapsed(now) {
            Usage::after_first_call(now)
        } else if self.idle(seconds, now) {
            Usage { calls: 0, expiration: 0, last_call: now }
        } else if self.expiration == 0 {
            Usage { calls: (self.calls + 1) as usize, expiration: 0, last_call: now }
        } else {
            self
        }
    }

    /// What a probe at `now` reports: the expiration while it lies ahead, else 0.
    pub open spec fn active_block(self, now: u64) -> u64 {
        if now < self.expiration {
            self.expiration
        } else {
            0
        }
    }

    /// The record for a first call at `now`.
    pub fn first_call(now: u64) -> (usage: Usage)
        ensures
            usage == Usage::after_first_call(now),
    {
        Usage { calls: 1, expiration: 0, last_call: now }
    }

    /// The record of a block set at `now` for `seconds`.
    pub fn block(seconds: u32, now: u64) -> (usage: Usage)
        requires
            now + seconds <= u64::MAX,
        ensures
            usage == Usage::after_block(seconds, now),
    {
        Usage { calls: 0, expiration: time::from_point(now, seconds), last_call: now }
    }

    /// Registers a call at `now` under the limit of `max_calls` calls in
    /// `seconds`, and returns the expiration the record then holds: 0 when the
    /// call is let through.
    pub fn update(&mut self, max_calls: usize, seconds: u32, now: u64) -> (expiration: u64)
        requires
            old(self).fits(max_calls, seconds, now),
        ensures
            *final(self) == old(self).after_update(max_calls, seconds, now),
            expiration == final(self).expiration,
    {
        if self.calls >= max_calls {
            *self = Usage::block(seconds, now);
        } else if self.expiration <= now && self.expiration != 0 {
            *self = Usage::first_call(now);
        } else if self.expiration == 0 && seconds as u64 <= now && self.last_call <= now
            - seconds as u64 {
            self.calls = 0;
            self.last_call = now;
        } else if self.expiration == 0 {
            self.calls += 1;
            self.last_call = now;
        }
        self.expiration
    }

    /// Reports the block that holds at `now` and leaves the record alone.
    pub fn probe(&self, now: u64) -> (expiration: u64)
        ensures
            expiration == self.active_block(now),
    {
        if now < self.expiration {
            self.expiration
        } else {
            0
        }
    }
}

impl Default for Usage {
    fn default() -> (usage: Usage)
        ensures
            usage == (Usage { calls: 0, expiration: 0, last_call: 0 }),
    {
        Usage { calls: 0, expiration: 0, last_call: 0 }
    }
}

} // verus!
