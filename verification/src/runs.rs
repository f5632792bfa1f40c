//! Runs of events, and what holds of every run.

use crate::decoder::reading_of_advertisement;
use crate::dispatch::{action_for, next_state, ActionView, EventView};
use crate::matcher::MatcherView;
use vstd::prelude::*;

verus! {

/// The state after a run of events that starts in `state`.
pub open spec fn run(state: MatcherView, events: Seq<EventView>) -> MatcherView
    decreases events.len(),
{
    if events.len() == 0 {
        state
    } else {
        next_state(run(state, events.drop_last()), events.last())
    }
}

/// What is done for the event at position `i` of a run that starts in
/// `state`.
pub open spec fn action_at(state: MatcherView, events: Seq<EventView>, i: int) -> ActionView
    recommends
        0 <= i < events.len(),
{
    action_for(run(state, events.take(i)), events[i])
}

/// A discovery whose address was resolved and is not the target changes
/// nothing and leaves no trace.
pub proof fn lemma_other_address_is_passed_over(
    state: MatcherView,
    id: Seq<u8>,
    address: Seq<u8>,
)
    requires
        address != state.target,
    ensures
        next_state(state, EventView::AddressResolved(id, Some(address))) == state,
        action_for(state, EventView::AddressResolved(id, Some(address))) == ActionView::Ignore,
{
}

/// While no device is matched, the discovery whose resolved address is the
/// target makes its device the matched one and is reported with that
/// address.
pub proof fn lemma_target_address_is_matched(state: MatcherView, id: Seq<u8>)
    requires
        state.matched is None,
    ensures
        next_state(state, EventView::AddressResolved(id, Some(state.target))) == (MatcherView {
            target: state.target,
            matched: Some(id),
        }),
        action_for(state, EventView::AddressResolved(id, Some(state.target)))
            == ActionView::ReportMatch(state.target),
{
}

/// Once a device is matched, no event changes the state, no discovered
/// device has its address looked up, and no match is reported: not even
/// for a discovery of the target address.
pub proof fn lemma_match_is_final(state: MatcherView, event: EventView)
    requires
        state.matched is Some,
    ensures
        next_state(state, event) == state,
        !(action_for(state, event) is ResolveAddress),
        !(action_for(state, event) is ReportMatch),
{
}

/// No run of events changes the target address.
pub proof fn lemma_run_keeps_target(state: MatcherView, events: Seq<EventView>)
    ensures
        run(state, events).target == state.target,
    decreases events.len(),
{
    if events.len() > 0 {
        lemma_run_keeps_target(state, events.drop_last());
    }
}

/// A run that starts with a matched device ends in the state in which it
/// started.
pub proof fn lemma_run_keeps_match(state: MatcherView, events: Seq<EventView>)
    requires
        state.matched is Some,
    ensures
        run(state, events) == state,
    decreases events.len(),
{
    if events.len() > 0 {
        lemma_run_keeps_match(state, events.drop_last());
    }
}

/// A run can be cut in two: the state after the whole run is the state
/// after its second part, started where the first part ended.
pub proof fn lemma_run_split(state: MatcherView, events: Seq<EventView>, i: int)
    requires
        0 <= i <= events.len(),
    ensures
        run(state, events) == run(run(state, events.take(i)), events.skip(i)),
    decreases events.len(),
{
    if i == events.len() {
        assert(events.take(i) =~= events);
        assert(events.skip(i) =~= Seq::<EventView>::empty());
    } else {
        lemma_run_split(state, events.drop_last(), i);
        assert(events.drop_last().take(i) =~= events.take(i));
        assert(events.drop_last().skip(i) =~= events.skip(i).drop_last());
        assert(events.skip(i).last() == events.last());
    }
}

/// The matched device is set at most once: a device that is matched at
/// some point of a run is the matched device at every later point, and at
/// its end.
pub proof fn lemma_matched_device_never_changes(
    state: MatcherView,
    events: Seq<EventView>,
    i: int,
)
    requires
        0 <= i <= events.len(),
        run(state, events.take(i)).matched is Some,
    ensures
        run(state, events) == run(state, events.take(i)),
{
    lemma_run_split(state, events, i);
    lemma_run_keeps_match(run(state, events.take(i)), events.skip(i));
}

/// In every run at most one match is reported, and after it no address is
/// looked up.
pub proof fn lemma_one_match_per_run(
    state: MatcherView,
    events: Seq<EventView>,
    i: int,
    j: int,
)
    requires
        0 <= i < j < events.len(),
        action_at(state, events, i) is ReportMatch,
    ensures
        !(action_at(state, events, j) is ReportMatch),
        !(action_at(state, events, j) is ResolveAddress),
{
    let before = run(state, events.take(i));
    let prefix = events.take(j);
    assert(prefix.take(i) =~= events.take(i));
    assert(prefix.take(i + 1) =~= events.take(i + 1));
    assert(events.take(i + 1).drop_last() =~= events.take(i));
    assert(events.take(i + 1).last() == events[i]);
    assert(run(state, events.take(i + 1)) == next_state(before, events[i]));
    assert(run(state, events.take(i + 1)).matched is Some);
    lemma_matched_device_never_changes(state, prefix, i + 1);
    lemma_match_is_final(run(state, prefix), events[j]);
}

/// The matched device is set exactly once. While no device is matched,
/// the discovery whose resolved address is the target makes its device
/// the matched one; whatever events follow, and be they discoveries of
/// the same address, the state stays as that discovery left it and no
/// second match is reported.
pub proof fn lemma_matched_exactly_once(
    state: MatcherView,
    id: Seq<u8>,
    later: Seq<EventView>,
    j: int,
)
    requires
        state.matched is None,
        0 <= j < later.len(),
    ensures
        ({
            let matched = next_state(state, EventView::AddressResolved(id, Some(state.target)));
            &&& matched.matched == Some(id)
            &&& run(matched, later) == matched
            &&& run(matched, later.take(j)) == matched
            &&& next_state(matched, later[j]) == matched
            &&& !(action_at(matched, later, j) is ReportMatch)
            &&& !(action_at(matched, later, j) is ResolveAddress)
        }),
{
    let matched = next_state(state, EventView::AddressResolved(id, Some(state.target)));
    lemma_run_keeps_match(matched, later);
    lemma_run_keeps_match(matched, later.take(j));
    lemma_match_is_final(matched, later[j]);
}

/// Manufacturer data of a device that is not the matched one, and all of
/// it while no device is matched, changes nothing, gives no reading and
/// leaves no trace.
pub proof fn lemma_foreign_advertisement_is_ignored(
    state: MatcherView,
    id: Seq<u8>,
    payload: Map<u16, Seq<u8>>,
)
    requires
        state.matched != Some(id),
    ensures
        reading_of_advertisement(id, state.matched, payload) is None,
        next_state(state, EventView::ManufacturerDataAdvertisement(id, payload)) == state,
        action_for(state, EventView::ManufacturerDataAdvertisement(id, payload))
            == ActionView::Ignore,
{
}

/// Replaying a manufacturer-data event yields what it yielded the first
/// time: the event leaves the state as it is, so the second decoding has
/// the inputs of the first.
pub proof fn lemma_replay_reads_the_same(
    state: MatcherView,
    id: Seq<u8>,
    payload: Map<u16, Seq<u8>>,
)
    ensures
        ({
            let event = EventView::ManufacturerDataAdvertisement(id, payload);
            let replayed = next_state(state, event);
            &&& replayed == state
            &&& action_for(replayed, event) == action_for(state, event)
            &&& reading_of_advertisement(id, replayed.matched, payload)
                == reading_of_advertisement(id, state.matched, payload)
        }),
{
}

/// A weight is reported exactly for the advertisements that give a
/// reading, and with that reading.
pub proof fn lemma_report_carries_the_reading(
    state: MatcherView,
    id: Seq<u8>,
    payload: Map<u16, Seq<u8>>,
)
    ensures
        ({
            let action = action_for(state, EventView::ManufacturerDataAdvertisement(id, payload));
            let reading = reading_of_advertisement(id, state.matched, payload);
            &&& action is ReportWeight <==> reading is Some
            &&& action matches ActionView::ReportWeight(field, value) ==> reading == Some(value)
                && value > 0 && value == field@
            &&& action matches ActionView::TraceField(field) ==> field@ == 0
        }),
{
}

} // verus!
