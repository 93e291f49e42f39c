//! What holds of a fleet of watchers over whole runs of events.

use vstd::prelude::*;

use crate::supervisor::all_valid;
use crate::supervisor::fleet_step;
use crate::watcher::laws::consumed_in;
use crate::watcher::laws::lemma_cursor_counts_consumed;
use crate::watcher::laws::run;
use crate::watcher::EventView;
use crate::watcher::WatcherView;

verus! {

/// The fleet after a run of events, each addressed to one watcher by its
/// index.
pub open spec fn fleet_run(fleet: Seq<WatcherView>, addressed: Seq<(int, EventView)>) -> Seq<
    WatcherView,
>
    decreases addressed.len(),
{
    if addressed.len() == 0 {
        fleet
    } else {
        fleet_step(fleet_run(fleet, addressed.drop_last()), addressed.last().0, addressed.last().1)
    }
}

/// The events of a run that are addressed to the watcher at `index`, in
/// their order.
pub open spec fn events_for(addressed: Seq<(int, EventView)>, index: int) -> Seq<EventView>
    decreases addressed.len(),
{
    if addressed.len() == 0 {
        Seq::<EventView>::empty()
    } else if addressed.last().0 == index {
        events_for(addressed.drop_last(), index).push(addressed.last().1)
    } else {
        events_for(addressed.drop_last(), index)
    }
}

/// Watchers never interfere: however the events of several sources are
/// interleaved, each watcher ends as if it had been given its own events
/// alone, and its cursor lies exactly as many bytes beyond where it started as
/// its own reads consumed.
pub proof fn lemma_watchers_do_not_interfere(
    fleet: Seq<WatcherView>,
    addressed: Seq<(int, EventView)>,
    index: int,
)
    requires
        all_valid(fleet),
        0 <= index < fleet.len(),
    ensures
        fleet_run(fleet, addressed).len() == fleet.len(),
        fleet_run(fleet, addressed)[index] == run(fleet[index], events_for(addressed, index)),
        fleet_run(fleet, addressed)[index].cursor == fleet[index].cursor + consumed_in(
            fleet[index],
            events_for(addressed, index),
        ),
        fleet_run(fleet, addressed)[index].source == fleet[index].source,
    decreases addressed.len(),
{
    if addressed.len() > 0 {
        let shorter = addressed.drop_last();
        lemma_watchers_do_not_interfere(fleet, shorter, index);
        if addressed.last().0 == index {
            let own = events_for(shorter, index);
            assert(own.push(addressed.last().1).drop_last() =~= own);
        }
    }
    lemma_cursor_counts_consumed(fleet[index], events_for(addressed, index));
}

} // verus!
