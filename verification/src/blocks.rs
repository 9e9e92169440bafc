//! The feature table of one identity: a usage record for each feature the
//! identity has called.

use crate::feature::FeatureRaw;
use crate::usage::Usage;
use std::collections::HashMap;
use vstd::prelude::*;

verus! {

/// The table after the record of `feature` is replaced by a block set at
/// `now` for `seconds`.
pub open spec fn after_set_limit(
    table: Map<FeatureRaw, Usage>,
    feature: FeatureRaw,
    seconds: u32,
    now: u64,
) -> Map<FeatureRaw, Usage> {
    table.insert(feature, Usage::after_block(seconds, now))
}

/// The table after a call to `feature` at `now`: a feature without record
/// gets the record of a first call, any other has its record updated.
pub open spec fn after_update_limit(
    table: Map<FeatureRaw, Usage>,
    feature: FeatureRaw,
    max_calls: usize,
    seconds: u32,
    now: u64,
) -> Map<FeatureRaw, Usage> {
    table.insert(
        feature,
        match table.get(feature) {
            Some(usage) => usage.after_update(max_calls, seconds, now),
            None => Usage::after_first_call(now),
        },
    )
}

/// The block that a call to `feature` at `now` would set, if it sets one, ends
/// at a point in time that `u64` can hold.
pub open spec fn update_fits(
    table: Map<FeatureRaw, Usage>,
    feature: FeatureRaw,
    max_calls: usize,
    seconds: u32,
    now: u64,
) -> bool {
    match table.get(feature) {
        Some(usage) => usage.fits(max_calls, seconds, now),
        None => true,
    }
}

/// What a call to `feature` at `now` is answered: the expiration that the
/// record holds after the call.
pub open spec fn update_answer(
    table: Map<FeatureRaw, Usage>,
    feature: FeatureRaw,
    max_calls: usize,
    seconds: u32,
    now: u64,
) -> u64 {
    after_update_limit(table, feature, max_calls, seconds, now)[feature].expiration
}

/// What a probe of `feature` at `now` is answered: the block that holds, or 0
/// where there is no record.
pub open spec fn limit_answer(table: Map<FeatureRaw, Usage>, feature: FeatureRaw, now: u64) -> u64 {
    match table.get(feature) {
        Some(usage) => usage.active_block(now),
        None => 0,
    }
}

/// The usage records of one identity, by feature.
#[derive(Debug)]
pub struct Blocks {
    usages: HashMap<FeatureRaw, Usage>,
}

impl View for Blocks {
    type V = Map<FeatureRaw, Usage>;

    closed spec fn view(&self) -> Map<FeatureRaw, Usage> {
        self.usages@
    }
}

impl Blocks {
    /// A table without records.
    pub fn new() -> (blocks: Blocks)
        ensures
            blocks@ == Map::<FeatureRaw, Usage>::empty(),
    {
        Blocks { usages: HashMap::new() }
    }

    /// The record of `feature`.
    pub fn usage(&self, feature: FeatureRaw) -> (usage: Option<Usage>)
        ensures
            usage == self@.get(feature),
    {
        match self.usages.get(&feature) {
            Some(usage) => Some(*usage),
            None => None,
        }
    }

    /// Sets a block on `feature` at `now` for `seconds`, whatever its record
    /// held.
    pub fn set_limit(&mut self, feature: FeatureRaw, seconds: u32, now: u64)
        requires
            now + seconds <= u64::MAX,
        ensures
            final(self)@ == after_set_limit(old(self)@, feature, seconds, now),
    {
        self.usages.insert(feature, Usage::block(seconds, now));
    }

    /// Registers a call to `feature` at `now` under the limit of `max_calls`
    /// calls in `seconds`. Returns 0 where the call is let through, else the
    /// time at which the block lifts.
    pub fn update_limit(
        &mut self,
        feature: FeatureRaw,
        max_calls: usize,
        seconds: u32,
        now: u64,
    ) -> (expiration: u64)
        requires
            update_fits(old(self)@, feature, max_calls, seconds, now),
        ensures
            final(self)@ == after_update_limit(old(self)@, feature, max_calls, seconds, now),
            expiration == update_answer(old(self)@, feature, max_calls, seconds, now),
    {
        let usage = match self.usage(feature) {
            Some(found) => {
                let mut usage = found;
                usage.update(max_calls, seconds, now);
                usage
            },
            None => Usage::first_call(now),
        };
        self.usages.insert(feature, usage);
        usage.expiration
    }

    /// Reports the block that holds on `feature` at `now`, 0 where none does.
    pub fn get_limit(&self, feature: FeatureRaw, now: u64) -> (expiration: u64)
        ensures
            expiration == limit_answer(self@, feature, now),
    {
        match self.usage(feature) {
            Some(usage) => usage.probe(now),
            None => 0,
        }
    }
}

impl Default for Blocks {
    fn default() -> (blocks: Blocks)
        ensures
            blocks@ == Map::<FeatureRaw, Usage>::empty(),
    {
        Blocks::new()
    }
}

} // verus!
