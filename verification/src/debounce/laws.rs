//! What holds of every debouncer over whole runs of inputs.

use vstd::prelude::*;

use crate::debounce::debounce_step;
use crate::debounce::DebounceInput;
use crate::debounce::DebouncerView;

verus! {

/// The time that an input carries.
pub open spec fn time_of(input: DebounceInput) -> u64 {
    match input {
        DebounceInput::Raw { at } => at,
        DebounceInput::Tick { at } => at,
    }
}

/// The debouncer after a run of inputs, starting from `d`.
pub open spec fn settle(d: DebouncerView, inputs: Seq<DebounceInput>) -> DebouncerView
    decreases inputs.len(),
{
    if inputs.len() == 0 {
        d
    } else {
        debounce_step(settle(d, inputs.drop_last()), inputs.last()).0
    }
}

/// The times at which the signal fires over a run of inputs, starting from
/// `d`, in the order of firing.
pub open spec fn fire_times(d: DebouncerView, inputs: Seq<DebounceInput>) -> Seq<u64>
    decreases inputs.len(),
{
    if inputs.len() == 0 {
        Seq::<u64>::empty()
    } else if debounce_step(settle(d, inputs.drop_last()), inputs.last()).1 {
        fire_times(d, inputs.drop_last()).push(time_of(inputs.last()))
    } else {
        fire_times(d, inputs.drop_last())
    }
}

/// How often the signal fires over a run of inputs, starting from `d`.
pub open spec fn fires_in(d: DebouncerView, inputs: Seq<DebounceInput>) -> nat {
    fire_times(d, inputs).len()
}

/// How many raw events a run of inputs holds.
pub open spec fn raws_in(inputs: Seq<DebounceInput>) -> nat
    decreases inputs.len(),
{
    if inputs.len() == 0 {
        0
    } else {
        raws_in(inputs.drop_last()) + if inputs.last() is Raw {
            1nat
        } else {
            0nat
        }
    }
}

/// The time of the last raw event in a run of inputs.
pub open spec fn last_raw(inputs: Seq<DebounceInput>) -> Option<u64>
    decreases inputs.len(),
{
    if inputs.len() == 0 {
        None
    } else {
        match inputs.last() {
            DebounceInput::Raw { at } => Some(at),
            DebounceInput::Tick { at } => last_raw(inputs.drop_last()),
        }
    }
}

/// Every input of the run carries a time in the window that starts at
/// `first` and is one quiet window long.
pub open spec fn in_one_window(inputs: Seq<DebounceInput>, first: u64, quiet: u64) -> bool {
    forall|i: int|
        0 <= i < inputs.len() ==> first <= time_of(#[trigger] inputs[i]) < first + quiet
}

/// The times of the run never go back.
pub open spec fn clock_ordered(inputs: Seq<DebounceInput>) -> bool {
    forall|i: int, j: int|
        0 <= i <= j < inputs.len() ==> time_of(#[trigger] inputs[i]) <= time_of(
            #[trigger] inputs[j],
        )
}

/// The quiet window never changes.
pub proof fn lemma_quiet_is_kept(d: DebouncerView, inputs: Seq<DebounceInput>)
    ensures
        settle(d, inputs).quiet == d.quiet,
    decreases inputs.len(),
{
    if inputs.len() > 0 {
        lemma_quiet_is_kept(d, inputs.drop_last());
    }
}

/// There is no signal without a raw event before it: an idle debouncer that
/// is told of no raw event never fires, whatever the clock shows.
pub proof fn lemma_no_signal_without_raw_event(d: DebouncerView, inputs: Seq<DebounceInput>)
    requires
        d.pending is None,
        raws_in(inputs) == 0,
    ensures
        fires_in(d, inputs) == 0,
        settle(d, inputs) == d,
    decreases inputs.len(),
{
    if inputs.len() > 0 {
        lemma_no_signal_without_raw_event(d, inputs.drop_last());
    }
}

/// Events are coalesced, never multiplied: there are at most as many signals
/// as raw events, counting one that was unanswered at the start.
pub proof fn lemma_signals_bounded_by_raw_events(d: DebouncerView, inputs: Seq<DebounceInput>)
    ensures
        fires_in(d, inputs) + (if settle(d, inputs).pending is Some {
            1nat
        } else {
            0nat
        }) <= raws_in(inputs) + (if d.pending is Some {
            1nat
        } else {
            0nat
        }),
    decreases inputs.len(),
{
    if inputs.len() > 0 {
        lemma_signals_bounded_by_raw_events(d, inputs.drop_last());
    }
}

/// Inside one quiet window nothing fires: an idle debouncer that takes any
/// run of raw events and clock readings from one quiet window stays silent
/// and remembers the last raw event.
pub proof fn lemma_window_is_silent(d: DebouncerView, burst: Seq<DebounceInput>, first: u64)
    requires
        d.pending is None,
        in_one_window(burst, first, d.quiet),
    ensures
        fires_in(d, burst) == 0,
        settle(d, burst) == (DebouncerView { pending: last_raw(burst), ..d }),
        last_raw(burst) is Some <==> raws_in(burst) >= 1,
        last_raw(burst) matches Some(last) ==> first <= last < first + d.quiet,
    decreases burst.len(),
{
    if burst.len() > 0 {
        let shorter = burst.drop_last();
        assert(in_one_window(shorter, first, d.quiet)) by {
            assert forall|i: int| 0 <= i < shorter.len() implies first <= time_of(
                #[trigger] shorter[i],
            ) < first + d.quiet by {
                assert(shorter[i] == burst[i]);
            }
        }
        lemma_window_is_silent(d, shorter, first);
        assert(first <= time_of(burst[burst.len() - 1]) < first + d.quiet);
    }
}

/// A burst gives one signal, whatever its size: an idle debouncer that takes
/// a burst of at least one raw event from one quiet window fires exactly
/// once, at the first clock reading that lies a quiet window or more after the
/// last raw event of the burst, and is idle again. A reading before that
/// fires nothing.
pub proof fn lemma_burst_fires_once(
    d: DebouncerView,
    burst: Seq<DebounceInput>,
    first: u64,
    at: u64,
)
    requires
        d.pending is None,
        in_one_window(burst, first, d.quiet),
        raws_in(burst) >= 1,
    ensures
        fires_in(d, burst) == 0,
        last_raw(burst) is Some,
        at >= last_raw(burst)->Some_0 + d.quiet ==> {
            &&& fire_times(d, burst.push(DebounceInput::Tick { at })) == seq![at]
            &&& settle(d, burst.push(DebounceInput::Tick { at })) == d
        },
        at < last_raw(burst)->Some_0 + d.quiet ==> {
            &&& fires_in(d, burst.push(DebounceInput::Tick { at })) == 0
            &&& settle(d, burst.push(DebounceInput::Tick { at })) == settle(d, burst)
        },
{
    lemma_window_is_silent(d, burst, first);
    let longer = burst.push(DebounceInput::Tick { at });
    assert(longer.drop_last() =~= burst);
    assert(longer.last() == (DebounceInput::Tick { at }));
    if at >= last_raw(burst)->Some_0 + d.quiet {
        assert(fire_times(d, longer) =~= seq![at]);
    }
}

/// At most one signal per quiet window: on a clock that never goes back, any
/// two signals lie at least one quiet window apart. No signal lies after the
/// last input, and a raw event that is still unanswered came no earlier than
/// the last signal.
pub proof fn lemma_signals_are_a_window_apart(d: DebouncerView, inputs: Seq<DebounceInput>)
    requires
        clock_ordered(inputs),
    ensures
        forall|i: int, j: int|
            0 <= i < j < fire_times(d, inputs).len() ==> #[trigger] fire_times(d, inputs)[i]
                + d.quiet <= #[trigger] fire_times(d, inputs)[j],
        forall|i: int|
            0 <= i < fire_times(d, inputs).len() ==> inputs.len() > 0 && #[trigger] fire_times(
                d,
                inputs,
            )[i] <= time_of(inputs.last()),
        settle(d, inputs).pending matches Some(last) ==> fire_times(d, inputs).len() > 0
            ==> fire_times(d, inputs).last() <= last,
    decreases inputs.len(),
{
    if inputs.len() > 0 {
        let shorter = inputs.drop_last();
        let fired = fire_times(d, shorter);
        assert(clock_ordered(shorter)) by {
            assert forall|i: int, j: int| 0 <= i <= j < shorter.len() implies time_of(
                #[trigger] shorter[i],
            ) <= time_of(#[trigger] shorter[j]) by {
                assert(shorter[i] == inputs[i]);
                assert(shorter[j] == inputs[j]);
            }
        }
        lemma_signals_are_a_window_apart(d, shorter);
        lemma_quiet_is_kept(d, shorter);
        if shorter.len() > 0 {
            assert(shorter.last() == inputs[inputs.len() - 2]);
            assert(time_of(inputs[inputs.len() - 2]) <= time_of(inputs[inputs.len() - 1]));
        }
        assert forall|i: int| 0 <= i < fired.len() implies #[trigger] fired[i] <= time_of(
            inputs.last(),
        ) by {
        }
        if fired.len() > 0 {
            assert forall|i: int| 0 <= i < fired.len() implies #[trigger] fired[i]
                <= fired.last() by {
                if i < fired.len() - 1 {
                    assert(fired[i] + d.quiet <= fired[fired.len() - 1]);
                }
            }
        }
    }
}

} // verus!
