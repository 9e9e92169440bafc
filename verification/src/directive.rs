//! The directives that the dispatcher takes, what each one does to the
//! identity index, and the work it leaves to do on one identity's table.

use crate::blocks::{
    after_set_limit, after_update_limit, limit_answer, update_answer, update_fits, Blocks,
};
use crate::feature::{Feature, FeatureRaw};
use crate::index_map::IndexMap;
use crate::slots::SlotModel;
use crate::time;
use crate::usage::Usage;
use vstd::prelude::*;

verus! {

/// The identity index with the tables in it: the feature table of each
/// identity seen so far.
pub type IndexMapLimtr = IndexMap<Blocks>;

/// The state of the limiter as a mathematical value: for each identity its
/// usage records by feature.
pub type Tables = Map<Seq<char>, Map<FeatureRaw, Usage>>;

/// The state that an identity index stands for.
pub open spec fn tables(index_map: IndexMapLimtr) -> Tables {
    index_map@.map_values(|blocks: Blocks| blocks@)
}

/// The feature table of `id` in `state`; an identity not seen yet has an empty
/// one.
pub open spec fn table_of(state: Tables, id: Seq<char>) -> Map<FeatureRaw, Usage> {
    match state.get(id) {
        Some(table) => table,
        None => Map::empty(),
    }
}

/// What a directive asks of the table of its identity.
#[derive(Copy, Clone, Debug, PartialEq, Eq, Structural)]
pub enum Work {
    /// Set a block on a feature, whatever its record held.
    SetLimit { feature: FeatureRaw, seconds: u32 },
    /// Register a call and answer whether it is let through.
    UpdateLimit { feature: FeatureRaw, max_calls: usize, seconds: u32 },
    /// Answer which block holds, and change nothing.
    GetLimit { feature: FeatureRaw },
}

impl Work {
    /// The block that the work would set on `table` at `now`, if it sets one,
    /// ends at a point in time that `u64` can hold.
    pub open spec fn fits(self, table: Map<FeatureRaw, Usage>, now: u64) -> bool {
        match self {
            Work::SetLimit { seconds, .. } => now + seconds <= u64::MAX,
            Work::UpdateLimit { feature, max_calls, seconds } => update_fits(
                table,
                feature,
                max_calls,
                seconds,
                now,
            ),
            Work::GetLimit { .. } => true,
        }
    }

    /// The table that the work leaves when it is done at `now`.
    pub open spec fn applied(self, table: Map<FeatureRaw, Usage>, now: u64) -> Map<
        FeatureRaw,
        Usage,
    > {
        match self {
            Work::SetLimit { feature, seconds } => after_set_limit(table, feature, seconds, now),
            Work::UpdateLimit { feature, max_calls, seconds } => after_update_limit(
                table,
                feature,
                max_calls,
                seconds,
                now,
            ),
            Work::GetLimit { .. } => table,
        }
    }

    /// The reply to the work when it is done at `now`: an expiration for an
    /// update and for a probe, none for a set.
    pub open spec fn reply(self, table: Map<FeatureRaw, Usage>, now: u64) -> Option<u64> {
        match self {
            Work::SetLimit { .. } => None,
            Work::UpdateLimit { feature, max_calls, seconds } => Some(
                update_answer(table, feature, max_calls, seconds, now),
            ),
            Work::GetLimit { feature } => Some(limit_answer(table, feature, now)),
        }
    }

    /// Does the work on `blocks` as if the clock stood at `now`.
    pub fn run_at(self, blocks: &mut Blocks, now: u64) -> (reply: Option<u64>)
        requires
            self.fits(old(blocks)@, now),
        ensures
            final(blocks)@ == self.applied(old(blocks)@, now),
            reply == self.reply(old(blocks)@, now),
    {
        match self {
            Work::SetLimit { feature, seconds } => {
                blocks.set_limit(feature, seconds, now);
                None
            },
            Work::UpdateLimit { feature, max_calls, seconds } => Some(
                blocks.update_limit(feature, max_calls, seconds, now),
            ),
            Work::GetLimit { feature } => Some(blocks.get_limit(feature, now)),
        }
    }

    /// Does the work on `blocks` at the time the clock gives.
    pub fn run(self, blocks: &mut Blocks) -> (reply: Option<u64>)
        ensures
            exists|now: u64|
                {
                    &&& now <= i64::MAX
                    &&& final(blocks)@ == #[trigger] self.applied(old(blocks)@, now)
                    &&& reply == self.reply(old(blocks)@, now)
                },
    {
        let now = time::now();
        self.run_at(blocks, now)
    }
}

/// What is left to do once the dispatcher has handled a directive.
#[derive(Debug)]
pub enum Task<B> {
    /// Do `work` on the table that `blocks` leads to, and send the reply.
    Run { blocks: B, work: Work },
    /// Send this reply.
    Reply(u64),
    /// Nothing.
    Done,
}

/// One unit of work for the dispatcher.
#[derive(Debug)]
pub enum Directive {
    /// Set a block on a feature of an identity, whatever its record held.
    SetLimit { id: String, feature: FeatureRaw, seconds: u32 },
    /// Register a call and answer whether it is let through.
    UpdateLimit { id: String, feature: FeatureRaw, max_calls: usize, seconds: u32 },
    /// Answer which block holds, and change nothing.
    GetLimit { id: String, feature: FeatureRaw },
    /// Forget every identity.
    Clear,
}

impl Directive {
    /// The directive that sets a block of `seconds` on the feature of `id`
    /// that `feature` stands for.
    pub fn set_limit<F: Feature>(id: String, feature: F, seconds: u32) -> (directive: Directive)
        ensures
            ({
                &&& directive matches Directive::SetLimit { id: to, feature: code, seconds: window }
                &&& to == id
                &&& window == seconds
                &&& call_ensures(F::into_feature, (feature,), code)
            }),
    {
        Directive::SetLimit { id, feature: feature.into_feature(), seconds }
    }

    /// The directive that registers a call of `id` to the feature that
    /// `feature` stands for, under the limit of `max_calls` calls in `seconds`.
    pub fn update_limit<F: Feature>(
        id: String,
        feature: F,
        seconds: u32,
        max_calls: usize,
    ) -> (directive: Directive)
        ensures
            ({
                &&& directive matches Directive::UpdateLimit {
                    id: to,
                    feature: code,
                    max_calls: limit,
                    seconds: window,
                }
                &&& to == id
                &&& limit == max_calls
                &&& window == seconds
                &&& call_ensures(F::into_feature, (feature,), code)
            }),
    {
        Directive::UpdateLimit { id, feature: feature.into_feature(), max_calls, seconds }
    }

    /// The directive that asks which block holds on the feature of `id` that
    /// `feature` stands for.
    pub fn get_limit<F: Feature>(id: String, feature: F) -> (directive: Directive)
        ensures
            ({
                &&& directive matches Directive::GetLimit { id: to, feature: code }
                &&& to == id
                &&& call_ensures(F::into_feature, (feature,), code)
            }),
    {
        Directive::GetLimit { id, feature: feature.into_feature() }
    }

    /// The identity that the directive is about, and the work it asks of that
    /// identity's table. A clear is about no single identity.
    pub open spec fn target(self) -> Option<(Seq<char>, Work)> {
        match self {
            Directive::SetLimit { id, feature, seconds } => Some(
                (id@, Work::SetLimit { feature, seconds }),
            ),
            Directive::UpdateLimit { id, feature, max_calls, seconds } => Some(
                (id@, Work::UpdateLimit { feature, max_calls, seconds }),
            ),
            Directive::GetLimit { id, feature } => Some((id@, Work::GetLimit { feature })),
            Directive::Clear => None,
        }
    }

    /// The block that the directive would set in `state` at `now`, if it sets
    /// one, ends at a point in time that `u64` can hold.
    pub open spec fn fits(self, state: Tables, now: u64) -> bool {
        match self.target() {
            Some((id, work)) => work.fits(table_of(state, id), now),
            None => true,
        }
    }

    /// The state that the directive leaves when it is handled and its work
    /// done at `now`. A clear leaves no identity. A probe leaves the state as
    /// it is, without a table for an identity not seen yet. A set or an update
    /// leaves its identity the table that its work leaves.
    pub open spec fn applied(self, state: Tables, now: u64) -> Tables {
        match self.target() {
            None => Map::empty(),
            Some((_, Work::GetLimit { .. })) => state,
            Some((id, work)) => state.insert(id, work.applied(table_of(state, id), now)),
        }
    }

    /// The reply to the directive when it is handled and its work done at
    /// `now`: that of its work on the table of its identity; none for a clear.
    pub open spec fn reply(self, state: Tables, now: u64) -> Option<u64> {
        match self.target() {
            None => None,
            Some((id, work)) => work.reply(table_of(state, id), now),
        }
    }

    /// Handles the directive on the index and returns what is left to do.
    ///
    /// A clear empties the index. A probe of an identity not in the index is
    /// answered 0 at once. Any other directive leaves its work on the table of
    /// its identity to the caller, with a clone of the handle that the index
    /// holds for the identity; a set or an update of an identity not in the
    /// index enters a default handle for it first.
    pub fn handle<B: Clone + Default>(self, index_map: &mut IndexMap<B>) -> (task: Task<B>)
        requires
            old(index_map).wf(),
        ensures
            final(index_map).wf(),
            match self.target() {
                None => {
                    &&& task is Done
                    &&& final(index_map).model() == SlotModel::<Seq<char>, B>::empty()
                },
                Some((id, Work::GetLimit { feature })) => {
                    &&& *final(index_map) == *old(index_map)
                    &&& match old(index_map)@.get(id) {
                        Some(known) => {
                            &&& task matches Task::Run { blocks, work }
                            &&& cloned(known, blocks)
                            &&& work == (Work::GetLimit { feature })
                        },
                        None => task == Task::<B>::Reply(0),
                    }
                },
                Some((id, expected)) => {
                    &&& task matches Task::Run { blocks, work }
                    &&& work == expected
                    &&& entered(*old(index_map), *final(index_map), id, blocks)
                },
            },
    {
        match self {
            Directive::SetLimit { id, feature, seconds } => {
                let blocks = get_or_create_blocks(index_map, id);
                Task::Run { blocks, work: Work::SetLimit { feature, seconds } }
            },
            Directive::UpdateLimit { id, feature, max_calls, seconds } => {
                let blocks = get_or_create_blocks(index_map, id);
                Task::Run { blocks, work: Work::UpdateLimit { feature, max_calls, seconds } }
            },
            Directive::GetLimit { id, feature } => {
                match index_map.get(id.as_str()) {
                    Some(blocks) => Task::Run {
                        blocks: blocks.clone(),
                        work: Work::GetLimit { feature },
                    },
                    None => Task::Reply(0),
                }
            },
            Directive::Clear => {
                index_map.clear_all();
                Task::Done
            },
        }
    }

    /// Handles the directive on an index that holds the tables themselves and
    /// does its work, as if the clock stood at `now`.
    pub fn apply_at(self, index_map: &mut IndexMapLimtr, now: u64) -> (reply: Option<u64>)
        requires
            old(index_map).wf(),
            self.fits(tables(*old(index_map)), now),
        ensures
            final(index_map).wf(),
            tables(*final(index_map)) == self.applied(tables(*old(index_map)), now),
            reply == self.reply(tables(*old(index_map)), now),
            self is GetLimit ==> *final(index_map) == *old(index_map),
    {
        match self {
            Directive::SetLimit { id, feature, seconds } => {
                let blocks = blocks_of(index_map, id);
                Work::SetLimit { feature, seconds }.run_at(blocks, now)
            },
            Directive::UpdateLimit { id, feature, max_calls, seconds } => {
                let blocks = blocks_of(index_map, id);
                Work::UpdateLimit { feature, max_calls, seconds }.run_at(blocks, now)
            },
            Directive::GetLimit { id, feature } => {
                match index_map.get(id.as_str()) {
                    Some(blocks) => Some(blocks.get_limit(feature, now)),
                    None => Some(0),
                }
            },
            Directive::Clear => {
                index_map.clear_all();
                None
            },
        }
    }

    /// Handles the directive on an index that holds the tables themselves and
    /// does its work, at the time the clock gives.
    pub fn apply(self, index_map: &mut IndexMapLimtr) -> (reply: Option<u64>)
        requires
            old(index_map).wf(),
        ensures
            final(index_map).wf(),
            exists|now: u64|
                {
                    &&& now <= i64::MAX
                    &&& tables(*final(index_map)) == #[trigger] self.applied(
                        tables(*old(index_map)),
                        now,
                    )
                    &&& reply == self.reply(tables(*old(index_map)), now)
                },
    {
        let now = time::now();
        self.apply_at(index_map, now)
    }
}

/// `blocks` is a clone of the handle that `after` holds for `id`, and `after`
/// is `before` with a default handle entered for `id` if it had none.
pub open spec fn entered<B: Clone + Default>(
    before: IndexMap<B>,
    after: IndexMap<B>,
    id: Seq<char>,
    blocks: B,
) -> bool {
    match before@.get(id) {
        Some(known) => after == before && cloned(known, blocks),
        None => exists|fresh: B|
            {
                &&& call_ensures(B::default, (), fresh)
                &&& #[trigger] cloned(fresh, blocks)
                &&& after.model() == before.model().insert(id, fresh)
            },
    }
}

/// A clone of the handle of `id`, after a default handle is entered in the
/// index for an identity that had none.
pub fn get_or_create_blocks<B: Clone + Default>(
    index_map: &mut IndexMap<B>,
    id: String,
) -> (blocks: B)
    requires
        old(index_map).wf(),
    ensures
        final(index_map).wf(),
        entered(*old(index_map), *final(index_map), id@, blocks),
{
    if let Some(blocks) = index_map.get(id.as_str()) {
        let handle = blocks.clone();
        assert(cloned(*blocks, handle));
        handle
    } else {
        let blocks = B::default();
        let handle = blocks.clone();
        assert(cloned(blocks, handle));
        index_map.insert(id, blocks);
        handle
    }
}

/// The table of `id` itself, after an empty one is entered in the index for
/// an identity that had none.
fn blocks_of(index_map: &mut IndexMapLimtr, id: String) -> (blocks: &mut Blocks)
    requires
        old(index_map).wf(),
    ensures
        final(index_map).wf(),
        blocks@ == table_of(tables(*old(index_map)), id@),
        tables(*final(index_map)) == tables(*old(index_map)).insert(id@, final(blocks)@),
{
    if index_map.get(id.as_str()).is_none() {
        index_map.insert(id.clone(), Blocks::new());
    }
    index_map.get_mut(id.as_str()).unwrap()
}

} // verus!
