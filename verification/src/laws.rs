//! What holds of the limiter over several directives, proved from the
//! meaning of each one.

use crate::directive::{table_of, Directive, Tables};
use crate::feature::FeatureRaw;
use crate::slots::SlotModel;
use crate::usage::Usage;
use vstd::prelude::*;

verus! {

/// A directive and the time at which it is handled.
pub type Step = (Directive, u64);

/// The state after `steps` are handled in order, starting from `state`.
pub open spec fn run(state: Tables, steps: Seq<Step>) -> Tables
    decreases steps.len(),
{
    if steps.len() == 0 {
        state
    } else {
        steps.last().0.applied(run(state, steps.drop_last()), steps.last().1)
    }
}

/// The reply to the step at position `i` when `steps` are handled in order,
/// starting from `state`.
pub open spec fn reply_at(state: Tables, steps: Seq<Step>, i: int) -> Option<u64> {
    steps[i].0.reply(run(state, steps.subrange(0, i)), steps[i].1)
}

/// `steps` without its probes.
pub open spec fn without_probes(steps: Seq<Step>) -> Seq<Step>
    decreases steps.len(),
{
    if steps.len() == 0 {
        steps
    } else if steps.last().0 is GetLimit {
        without_probes(steps.drop_last())
    } else {
        without_probes(steps.drop_last()).push(steps.last())
    }
}

/// The replies to the steps that are no probes, in order, when `steps` are
/// handled starting from `state`.
pub open spec fn outcomes(state: Tables, steps: Seq<Step>) -> Seq<Option<u64>>
    decreases steps.len(),
{
    if steps.len() == 0 {
        Seq::empty()
    } else if steps.last().0 is GetLimit {
        outcomes(state, steps.drop_last())
    } else {
        outcomes(state, steps.drop_last()).push(
            steps.last().0.reply(run(state, steps.drop_last()), steps.last().1),
        )
    }
}

/// The same update of `feature` of `id`, once at each of `times`.
pub open spec fn updates(
    id: String,
    feature: FeatureRaw,
    max_calls: usize,
    seconds: u32,
    times: Seq<u64>,
) -> Seq<Step> {
    Seq::new(
        times.len(),
        |i: int| (Directive::UpdateLimit { id, feature, max_calls, seconds }, times[i]),
    )
}

/// The record of `feature` of `id` in `state`, if there is one.
pub open spec fn record(state: Tables, id: Seq<char>, feature: FeatureRaw) -> Option<Usage> {
    table_of(state, id).get(feature)
}

/// With a limit of one call, the first call of an identity to a feature is
/// let through, and its next call is blocked, whenever it comes: the reply is
/// the end of a window that starts with that second call.
pub proof fn law_single_call(
    state: Tables,
    id: String,
    feature: FeatureRaw,
    seconds: u32,
    first: u64,
    second: u64,
)
    requires
        record(state, id@, feature) is None,
        0 < second + seconds <= u64::MAX,
    ensures
        ({
            let update = Directive::UpdateLimit { id, feature, max_calls: 1, seconds };
            let after = update.applied(state, first);
            &&& update.reply(state, first) == Some(0u64)
            &&& update.reply(after, second) == Some((second + seconds) as u64)
            &&& update.reply(after, second) != Some(0u64)
        }),
{
}

/// With a limit of `max_calls` calls, at least one, the first `max_calls`
/// calls of an identity to a feature are let through if each comes less than
/// `seconds` after the one before, and the call after them is blocked.
pub proof fn law_counting(
    state: Tables,
    id: String,
    feature: FeatureRaw,
    max_calls: usize,
    seconds: u32,
    times: Seq<u64>,
)
    requires
        record(state, id@, feature) is None,
        max_calls >= 1,
        times.len() == max_calls + 1,
        forall|i: int| 0 < i < max_calls ==> #[trigger] times[i] < times[i - 1] + seconds,
        0 < times[max_calls as int] + seconds <= u64::MAX,
    ensures
        ({
            let steps = updates(id, feature, max_calls, seconds, times);
            &&& forall|i: int|
                0 <= i < max_calls ==> #[trigger] reply_at(state, steps, i) == Some(0u64)
            &&& reply_at(state, steps, max_calls as int) == Some(
                (times[max_calls as int] + seconds) as u64,
            )
            &&& reply_at(state, steps, max_calls as int) != Some(0u64)
        }),
{
    let steps = updates(id, feature, max_calls, seconds, times);
    assert forall|i: int| 0 <= i < max_calls implies #[trigger] reply_at(state, steps, i) == Some(
        0u64,
    ) by {
        lemma_counted(state, id, feature, max_calls, seconds, times, i);
    }
    lemma_counted(state, id, feature, max_calls, seconds, times, max_calls as int);
}

/// After the first `k` of the calls of `law_counting` the record counts `k`
/// calls and holds no block.
proof fn lemma_counted(
    state: Tables,
    id: String,
    feature: FeatureRaw,
    max_calls: usize,
    seconds: u32,
    times: Seq<u64>,
    k: int,
)
    requires
        record(state, id@, feature) is None,
        max_calls >= 1,
        times.len() == max_calls + 1,
        forall|i: int| 0 < i < max_calls ==> #[trigger] times[i] < times[i - 1] + seconds,
        0 <= k <= max_calls,
    ensures
        ({
            let steps = updates(id, feature, max_calls, seconds, times);
            let reached = run(state, steps.subrange(0, k));
            &&& k == 0 ==> reached == state
            &&& k > 0 ==> record(reached, id@, feature) == Some(
                Usage { calls: k as usize, expiration: 0, last_call: times[k - 1] },
            )
            &&& k < max_calls ==> reply_at(state, steps, k) == Some(0u64)
        }),
    decreases k,
{
    let steps = updates(id, feature, max_calls, seconds, times);
    if k > 0 {
        lemma_counted(state, id, feature, max_calls, seconds, times, k - 1);
        assert(steps.subrange(0, k).drop_last() =~= steps.subrange(0, k - 1));
    }
}

/// A block that a call has set is over `seconds` later: the next call from
/// then on, under a limit of at least one call, is let through. Unless the
/// block ended at time 0, which reads as no block, that call opens a window
/// with itself as the first call.
pub proof fn law_rollover(
    state: Tables,
    id: String,
    feature: FeatureRaw,
    max_calls: usize,
    seconds: u32,
    blocked: u64,
    later: u64,
)
    requires
        record(state, id@, feature) is Some,
        record(state, id@, feature).unwrap().exhausted(max_calls),
        max_calls >= 1,
        blocked + seconds <= later,
    ensures
        ({
            let update = Directive::UpdateLimit { id, feature, max_calls, seconds };
            let after = update.applied(state, blocked);
            &&& update.reply(state, blocked) == Some((blocked + seconds) as u64)
            &&& update.reply(after, later) == Some(0u64)
            &&& 0 < blocked + seconds ==> record(update.applied(after, later), id@, feature)
                == Some(Usage::after_first_call(later))
        }),
{
}

/// A record that holds no block and has not reached the limit starts over
/// when a call comes `seconds` or more after the last one: the call is let
/// through and nothing is counted, whatever was counted before. The call
/// after it, if it comes within `seconds`, is let through and counted as the
/// first.
pub proof fn law_idle_reset(
    state: Tables,
    id: String,
    feature: FeatureRaw,
    max_calls: usize,
    seconds: u32,
    idle: u64,
    next: u64,
)
    requires
        record(state, id@, feature) is Some,
        !record(state, id@, feature).unwrap().exhausted(max_calls),
        record(state, id@, feature).unwrap().idle(seconds, idle),
        next < idle + seconds,
    ensures
        ({
            let update = Directive::UpdateLimit { id, feature, max_calls, seconds };
            let after = update.applied(state, idle);
            &&& update.reply(state, idle) == Some(0u64)
            &&& record(after, id@, feature) == Some(
                Usage { calls: 0, expiration: 0, last_call: idle },
            )
            &&& update.reply(after, next) == Some(0u64)
            &&& record(update.applied(after, next), id@, feature) == Some(
                Usage::after_first_call(next),
            )
        }),
{
}

/// Probes change nothing: with the probes left out the other directives get
/// the same replies and lead to the same state.
pub proof fn law_probes_are_silent(state: Tables, steps: Seq<Step>)
    ensures
        run(state, steps) == run(state, without_probes(steps)),
        outcomes(state, steps) == outcomes(state, without_probes(steps)),
    decreases steps.len(),
{
    if steps.len() > 0 {
        law_probes_are_silent(state, steps.drop_last());
        if !(steps.last().0 is GetLimit) {
            assert(without_probes(steps).drop_last() =~= without_probes(steps.drop_last()));
        }
    }
}

/// After a clear nothing is left: a probe of any identity and feature is
/// answered 0, and an update is let through and leaves the record of a first
/// call, as on a limiter that has seen nothing.
pub proof fn law_clear_wipes(
    state: Tables,
    cleared: u64,
    id: String,
    feature: FeatureRaw,
    max_calls: usize,
    seconds: u32,
    now: u64,
)
    ensures
        ({
            let wiped = Directive::Clear.applied(state, cleared);
            let probe = Directive::GetLimit { id, feature };
            let update = Directive::UpdateLimit { id, feature, max_calls, seconds };
            &&& wiped == Map::<Seq<char>, Map<FeatureRaw, Usage>>::empty()
            &&& probe.reply(wiped, now) == Some(0u64)
            &&& update.reply(wiped, now) == Some(0u64)
            &&& update.applied(wiped, now) == update.applied(Map::empty(), now)
            &&& record(update.applied(wiped, now), id@, feature) == Some(
                Usage::after_first_call(now),
            )
        }),
{
}

/// A new key takes the slot that the last removal vacated: after a live key
/// is removed and another key is inserted, the map has as many slots as
/// before, the new key stands where the old one stood, the old key is gone
/// and the new key has its value.
pub proof fn law_slot_reuse<K, V>(model: SlotModel<K, V>, old_key: K, new_key: K, value: V)
    requires
        model.wf(),
        model.index.contains_key(old_key),
        !model.index.contains_key(new_key),
    ensures
        ({
            let after = model.remove(old_key).insert(new_key, value);
            &&& after.wf()
            &&& after.slots.len() == model.slots.len()
            &&& after.index[new_key] == model.index[old_key]
            &&& after.entries().get(old_key) is None
            &&& after.entries().get(new_key) == Some(value)
        }),
{
    model.lemma_remove(old_key);
    model.remove(old_key).lemma_insert(new_key, value);
}

/// Vacated slots are taken up last in, first out: after two live keys are
/// removed, the next new key stands where the second of them stood and the
/// new key after it where the first stood, and no slot is added.
pub proof fn law_last_vacated_first<K, V>(
    model: SlotModel<K, V>,
    first_out: K,
    second_out: K,
    first_in: (K, V),
    second_in: (K, V),
)
    requires
        model.wf(),
        model.index.contains_key(first_out),
        model.index.contains_key(second_out),
        first_out != second_out,
        !model.index.contains_key(first_in.0),
        !model.index.contains_key(second_in.0),
        first_in.0 != second_in.0,
    ensures
        ({
            let after = model.remove(first_out).remove(second_out).insert(
                first_in.0,
                first_in.1,
            ).insert(second_in.0, second_in.1);
            &&& after.wf()
            &&& after.slots.len() == model.slots.len()
            &&& after.index[first_in.0] == model.index[second_out]
            &&& after.index[second_in.0] == model.index[first_out]
            &&& after.free == model.free
        }),
{
    let emptied = model.remove(first_out).remove(second_out);
    let half = emptied.insert(first_in.0, first_in.1);
    model.lemma_remove(first_out);
    model.remove(first_out).lemma_remove(second_out);
    emptied.lemma_insert(first_in.0, first_in.1);
    half.lemma_insert(second_in.0, second_in.1);
    assert(half.insert(second_in.0, second_in.1).free =~= model.free);
}

} // verus!
