//! What holds of every watcher, step by step and over whole runs of events.

use vstd::prelude::*;

use crate::debounce::laws::fires_in;
use crate::debounce::laws::in_one_window;
use crate::debounce::laws::last_raw;
use crate::debounce::laws::lemma_burst_fires_once;
use crate::debounce::laws::lemma_window_is_silent;
use crate::debounce::laws::raws_in;
use crate::debounce::laws::settle;
use crate::debounce::DebounceInput;
use crate::decode::decode_spec;
use crate::decode::lossy_text;
use crate::decode::REQUIRED_FIELDS;
use crate::decode::SEPARATOR;
use crate::error::WatchError;
use crate::text::split_on;
use crate::watcher::step_spec;
use crate::watcher::valid;
use crate::watcher::ActionView;
use crate::watcher::EventView;
use crate::watcher::Phase;
use crate::watcher::WatcherView;

verus! {

/// The bytes that a step consumes: those of a read that came back whole.
pub open spec fn consumed_by(w: WatcherView, event: EventView) -> nat {
    match (w.phase, event) {
        (Phase::Reading { len }, EventView::BytesRead { bytes }) => if bytes.len() == len {
            len as nat
        } else {
            0
        },
        _ => 0,
    }
}

/// Whether a step consumes a line that decodes to a trade.
pub open spec fn decodes_in(w: WatcherView, event: EventView) -> bool {
    match (w.phase, event) {
        (Phase::Reading { len }, EventView::BytesRead { bytes }) => bytes.len() == len
            && decode_spec(lossy_text(bytes)) is Ok,
        _ => false,
    }
}

/// The watcher after a run of events, starting from `w`.
pub open spec fn run(w: WatcherView, events: Seq<EventView>) -> WatcherView
    decreases events.len(),
{
    if events.len() == 0 {
        w
    } else {
        step_spec(run(w, events.drop_last()), events.last()).0
    }
}

/// The bytes consumed over a run of events, starting from `w`.
pub open spec fn consumed_in(w: WatcherView, events: Seq<EventView>) -> nat
    decreases events.len(),
{
    if events.len() == 0 {
        0
    } else {
        consumed_in(w, events.drop_last()) + consumed_by(
            run(w, events.drop_last()),
            events.last(),
        )
    }
}

/// How many notifications a run of events hands out, starting from `w`.
pub open spec fn notified_in(w: WatcherView, events: Seq<EventView>) -> nat
    decreases events.len(),
{
    if events.len() == 0 {
        0
    } else {
        notified_in(w, events.drop_last()) + if step_spec(
            run(w, events.drop_last()),
            events.last(),
        ).1 is Notify {
            1nat
        } else {
            0nat
        }
    }
}

/// How many lines that decode to a trade a run of events consumes, starting
/// from `w`.
pub open spec fn decoded_in(w: WatcherView, events: Seq<EventView>) -> nat
    decreases events.len(),
{
    if events.len() == 0 {
        0
    } else {
        decoded_in(w, events.drop_last()) + if decodes_in(
            run(w, events.drop_last()),
            events.last(),
        ) {
            1nat
        } else {
            0nat
        }
    }
}

/// A step keeps the watcher valid and its source the same, and moves the
/// cursor forward by exactly the bytes it consumes.
pub proof fn lemma_step_moves_cursor(w: WatcherView, event: EventView)
    requires
        valid(w),
    ensures
        valid(step_spec(w, event).0),
        step_spec(w, event).0.source == w.source,
        step_spec(w, event).0.cursor == w.cursor + consumed_by(w, event),
{
}

/// The bytes that are consumed are those of the lines that were decoded or
/// skipped: a step consumes bytes exactly when it hands out a notification or
/// reports a malformed record.
pub proof fn lemma_consumed_iff_decoded_or_skipped(w: WatcherView, event: EventView)
    requires
        valid(w),
    ensures
        consumed_by(w, event) > 0 <==> step_spec(w, event).1 is Notify || step_spec(w, event).1
            == (ActionView::Report { error: WatchError::MalformedRecord }),
        consumed_by(w, event) > 0 ==> ({
            &&& event matches EventView::BytesRead { bytes }
            &&& consumed_by(w, event) == bytes.len()
        }),
{
}

/// The action tells the phase: the length of the log is awaited after
/// `Probe`, a read is under way after `Read`, a delivery after `Notify`, the
/// watcher is idle again after `AwaitChange` and `Report`, and `Continue`
/// leaves the phase as it was. A read that is asked for starts at the cursor, is of at least one
/// byte and ends at the length that the log was seen with.
pub proof fn lemma_action_tells_phase(w: WatcherView, event: EventView)
    requires
        valid(w),
    ensures
        match step_spec(w, event).1 {
            ActionView::AwaitChange => step_spec(w, event).0.phase == Phase::Idle,
            ActionView::Report { error } => step_spec(w, event).0.phase == Phase::Idle,
            ActionView::Probe => step_spec(w, event).0.phase == Phase::Probing,
            ActionView::Read { offset, len } => {
                &&& event matches EventView::Probed { file_len }
                &&& offset == w.cursor
                &&& len > 0
                &&& offset + len == file_len
                &&& step_spec(w, event).0.phase == (Phase::Reading { len: len as u64 })
            },
            ActionView::Notify { source, trade } => {
                &&& step_spec(w, event).0.phase == Phase::Dispatching
                &&& source == w.source.name
            },
            ActionView::Continue => step_spec(w, event).0.phase == w.phase,
        },
{
}

/// A notification is handed out exactly when a line that decodes to a trade
/// is consumed, and it carries that trade.
pub proof fn lemma_notify_iff_decoded(w: WatcherView, event: EventView)
    requires
        valid(w),
    ensures
        step_spec(w, event).1 is Notify <==> decodes_in(w, event),
        decodes_in(w, event) ==> ({
            &&& event matches EventView::BytesRead { bytes }
            &&& step_spec(w, event).1 == (ActionView::Notify {
                source: w.source.name,
                trade: decode_spec(lossy_text(bytes))->Ok_0,
            })
        }),
{
}

/// A cycle ends where the log ended when it was probed: when the bytes that
/// were asked for come back, the cursor stands at the length that the log was
/// seen with, whether they decode or not.
pub proof fn lemma_cycle_ends_at_probed_length(w: WatcherView, file_len: u64, bytes: Seq<u8>)
    requires
        valid(w),
        w.phase == Phase::Probing,
        file_len > w.cursor,
        bytes.len() == file_len - w.cursor,
    ensures
        step_spec(w, EventView::Probed { file_len }).1 == (ActionView::Read {
            offset: w.cursor,
            len: bytes.len(),
        }),
        step_spec(
            step_spec(w, EventView::Probed { file_len }).0,
            EventView::BytesRead { bytes },
        ).0.cursor == file_len,
{
}

/// A line with too few fields is consumed all the same: the cursor moves
/// past its bytes, the failure is reported, nothing is handed to the sink and
/// the watcher is idle again.
pub proof fn lemma_malformed_line_is_consumed(w: WatcherView, bytes: Seq<u8>)
    requires
        valid(w),
        w.phase == (Phase::Reading { len: bytes.len() as u64 }),
        bytes.len() <= u64::MAX,
    ensures
        split_on(lossy_text(bytes), SEPARATOR).len() < REQUIRED_FIELDS ==> {
            &&& step_spec(w, EventView::BytesRead { bytes }).1 == (ActionView::Report {
                error: WatchError::MalformedRecord,
            })
            &&& step_spec(w, EventView::BytesRead { bytes }).0 == (WatcherView {
                cursor: w.cursor + bytes.len(),
                phase: Phase::Idle,
                ..w
            })
        },
        split_on(lossy_text(bytes), SEPARATOR).len() >= REQUIRED_FIELDS ==> {
            &&& step_spec(w, EventView::BytesRead { bytes }).1 is Notify
            &&& step_spec(w, EventView::BytesRead { bytes }).0 == (WatcherView {
                cursor: w.cursor + bytes.len(),
                phase: Phase::Dispatching,
                ..w
            })
        },
{
}

/// Over any run of events the watcher stays valid, its source stays the
/// same, and the cursor ends exactly as many bytes further as the run
/// consumed.
pub proof fn lemma_cursor_counts_consumed(w: WatcherView, events: Seq<EventView>)
    requires
        valid(w),
    ensures
        valid(run(w, events)),
        run(w, events).source == w.source,
        run(w, events).cursor == w.cursor + consumed_in(w, events),
        run(w, events).cursor >= w.cursor,
    decreases events.len(),
{
    if events.len() > 0 {
        lemma_cursor_counts_consumed(w, events.drop_last());
        lemma_step_moves_cursor(run(w, events.drop_last()), events.last());
    }
}

/// Over any run of events there is one notification for each consumed line
/// that decodes to a trade, and no other.
pub proof fn lemma_one_notification_per_trade(w: WatcherView, events: Seq<EventView>)
    requires
        valid(w),
    ensures
        notified_in(w, events) == decoded_in(w, events),
    decreases events.len(),
{
    if events.len() > 0 {
        lemma_one_notification_per_trade(w, events.drop_last());
        lemma_cursor_counts_consumed(w, events.drop_last());
        lemma_notify_iff_decoded(run(w, events.drop_last()), events.last());
    }
}

/// How often a run of events asks for the length of the log, starting from
/// `w`: once for each debounced signal that fires.
pub open spec fn probes_in(w: WatcherView, events: Seq<EventView>) -> nat
    decreases events.len(),
{
    if events.len() == 0 {
        0
    } else {
        probes_in(w, events.drop_last()) + if step_spec(
            run(w, events.drop_last()),
            events.last(),
        ).1 is Probe {
            1nat
        } else {
            0nat
        }
    }
}

/// How often a run of events asks for a read, starting from `w`.
pub open spec fn reads_in(w: WatcherView, events: Seq<EventView>) -> nat
    decreases events.len(),
{
    if events.len() == 0 {
        0
    } else {
        reads_in(w, events.drop_last()) + if step_spec(
            run(w, events.drop_last()),
            events.last(),
        ).1 is Read {
            1nat
        } else {
            0nat
        }
    }
}

/// One if the condition holds, else zero.
pub open spec fn one_if(condition: bool) -> nat {
    if condition {
        1
    } else {
        0
    }
}

/// The event that hands a debouncer input to a watcher.
pub open spec fn as_event(input: DebounceInput) -> EventView {
    match input {
        DebounceInput::Raw { at } => EventView::RawChange { at },
        DebounceInput::Tick { at } => EventView::Tick { at },
    }
}

/// The events that hand a run of debouncer inputs to a watcher.
pub open spec fn as_events(inputs: Seq<DebounceInput>) -> Seq<EventView> {
    inputs.map_values(|input: DebounceInput| as_event(input))
}

/// A cycle is strictly sequential: over any run of events there is at most
/// one read for each time the length of the log was asked for, and at most one
/// notification for each read.
pub proof fn lemma_one_cycle_per_signal(w: WatcherView, events: Seq<EventView>)
    requires
        valid(w),
    ensures
        reads_in(w, events) + one_if(run(w, events).phase is Probing) <= probes_in(w, events)
            + one_if(w.phase is Probing),
        notified_in(w, events) + one_if(run(w, events).phase is Reading) <= reads_in(w, events)
            + one_if(w.phase is Reading),
    decreases events.len(),
{
    if events.len() > 0 {
        lemma_one_cycle_per_signal(w, events.drop_last());
        lemma_cursor_counts_consumed(w, events.drop_last());
    }
}

/// While the debounced signal does not fire, an idle watcher stays idle: it
/// hands the raw change events and clock readings to its debouncer, asks for
/// nothing and consumes nothing.
pub proof fn lemma_idle_until_signal(w: WatcherView, inputs: Seq<DebounceInput>)
    requires
        w.phase == Phase::Idle,
        fires_in(w.debouncer, inputs) == 0,
    ensures
        run(w, as_events(inputs)) == (WatcherView { debouncer: settle(w.debouncer, inputs), ..w }),
        probes_in(w, as_events(inputs)) == 0,
        reads_in(w, as_events(inputs)) == 0,
        notified_in(w, as_events(inputs)) == 0,
        consumed_in(w, as_events(inputs)) == 0,
    decreases inputs.len(),
{
    if inputs.len() > 0 {
        assert(as_events(inputs).drop_last() =~= as_events(inputs.drop_last()));
        assert(as_events(inputs).last() == as_event(inputs.last()));
        lemma_idle_until_signal(w, inputs.drop_last());
    }
}

/// A burst of raw change events starts one cycle, whatever its size: an idle
/// watcher with no change pending takes a burst of at least one raw change
/// event from one quiet window without asking for anything; at the clock
/// reading that lies a quiet window or more after the last raw change event
/// it asks for the length of the log, once. The cursor has not moved.
pub proof fn lemma_burst_starts_one_cycle(
    w: WatcherView,
    burst: Seq<DebounceInput>,
    first: u64,
    at: u64,
)
    requires
        w.phase == Phase::Idle,
        w.debouncer.pending is None,
        in_one_window(burst, first, w.debouncer.quiet),
        raws_in(burst) >= 1,
        last_raw(burst) matches Some(last) ==> at >= last + w.debouncer.quiet,
    ensures
        probes_in(w, as_events(burst)) == 0,
        probes_in(w, as_events(burst.push(DebounceInput::Tick { at }))) == 1,
        reads_in(w, as_events(burst.push(DebounceInput::Tick { at }))) == 0,
        notified_in(w, as_events(burst.push(DebounceInput::Tick { at }))) == 0,
        run(w, as_events(burst.push(DebounceInput::Tick { at }))) == (WatcherView {
            phase: Phase::Probing,
            ..w
        }),
{
    let tick = DebounceInput::Tick { at };
    let longer = burst.push(tick);
    lemma_burst_fires_once(w.debouncer, burst, first, at);
    lemma_window_is_silent(w.debouncer, burst, first);
    lemma_idle_until_signal(w, burst);
    assert(as_events(longer).drop_last() =~= as_events(burst));
    assert(as_events(longer).last() == as_event(tick));
    assert(longer.drop_last() =~= burst);
}

} // verus!
