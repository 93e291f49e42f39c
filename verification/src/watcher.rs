//! The source watcher: one source, its cursor, and the cycle of reading,
//! decoding and dispatching that a change to its log sets off.
//!
//! The watcher does no input or output itself and keeps no clock. Its owner
//! hands it what happened as a `WatchEvent` and carries out the `WatchAction`
//! that comes back. Raw change events pass through the watcher's debouncer;
//! decoding takes place inside the step that receives the bytes.

pub mod laws;

use vstd::prelude::*;

use crate::cursor::Cursor;
use crate::debounce::debounce_step;
use crate::debounce::due;
use crate::debounce::time_left;
use crate::debounce::DebounceInput;
use crate::debounce::Debouncer;
use crate::debounce::DebouncerView;
use crate::decode::decode_bytes;
use crate::decode::decode_spec;
use crate::decode::lossy_text;
use crate::decode::outcome_view;
use crate::error::WatchError;
use crate::source::Source;
use crate::source::SourceView;
use crate::trade::Trade;
use crate::trade::TradeView;

verus! {

/// Where a watcher stands in its cycle.
#[derive(Clone, Copy, Debug, PartialEq, Eq, Structural)]
pub enum Phase {
    /// Waiting for a debounced change.
    Idle,
    /// The length of the log has been asked for.
    Probing,
    /// A read of `len` bytes at the cursor has been asked for.
    Reading { len: u64 },
    /// A notification has been handed out and its delivery is awaited.
    Dispatching,
}

/// What the owner of a watcher tells it. Times are milliseconds on one clock.
#[derive(Clone, Debug, PartialEq, Eq)]
pub enum WatchEvent {
    /// A raw change event for the log came at this time.
    RawChange { at: u64 },
    /// The clock shows this time.
    Tick { at: u64 },
    /// The log was opened, and is `file_len` bytes long.
    Probed { file_len: u64 },
    /// The read that was asked for gave these bytes.
    BytesRead { bytes: Vec<u8> },
    /// The log could not be opened or read.
    AccessFailed,
    /// The sink took the notification.
    Delivered,
    /// The sink did not take the notification.
    DeliveryFailed,
}

/// An event as plain values.
pub enum EventView {
    RawChange { at: u64 },
    Tick { at: u64 },
    Probed { file_len: u64 },
    BytesRead { bytes: Seq<u8> },
    AccessFailed,
    Delivered,
    DeliveryFailed,
}

impl View for WatchEvent {
    type V = EventView;

    open spec fn view(&self) -> EventView {
        match *self {
            WatchEvent::RawChange { at } => EventView::RawChange { at },
            WatchEvent::Tick { at } => EventView::Tick { at },
            WatchEvent::Probed { file_len } => EventView::Probed { file_len },
            WatchEvent::BytesRead { bytes } => EventView::BytesRead { bytes: bytes@ },
            WatchEvent::AccessFailed => EventView::AccessFailed,
            WatchEvent::Delivered => EventView::Delivered,
            WatchEvent::DeliveryFailed => EventView::DeliveryFailed,
        }
    }
}

/// What a watcher asks its owner to do next.
#[derive(Clone, Debug, PartialEq, Eq)]
pub enum WatchAction {
    /// Wait for the next raw change event, or until the signal is due.
    AwaitChange,
    /// Open the log and tell how long it is.
    Probe,
    /// Read exactly `len` bytes of the log, starting at `offset`.
    Read { offset: u64, len: u64 },
    /// Hand this trade of the named source to the sink.
    Notify { source: String, trade: Trade },
    /// Record this failure, then wait for the next change.
    Report { error: WatchError },
    /// Nothing new to do: go on with what is under way.
    Continue,
}

/// An action as plain values.
pub enum ActionView {
    AwaitChange,
    Probe,
    Read { offset: nat, len: nat },
    Notify { source: Seq<char>, trade: TradeView },
    Report { error: WatchError },
    Continue,
}

impl View for WatchAction {
    type V = ActionView;

    open spec fn view(&self) -> ActionView {
        match *self {
            WatchAction::AwaitChange => ActionView::AwaitChange,
            WatchAction::Probe => ActionView::Probe,
            WatchAction::Read { offset, len } => ActionView::Read {
                offset: offset as nat,
                len: len as nat,
            },
            WatchAction::Notify { source, trade } => ActionView::Notify {
                source: source@,
                trade: trade@,
            },
            WatchAction::Report { error } => ActionView::Report { error },
            WatchAction::Continue => ActionView::Continue,
        }
    }
}

/// A watcher as plain values.
pub struct WatcherView {
    pub source: SourceView,
    pub cursor: nat,
    pub phase: Phase,
    pub debouncer: DebouncerView,
}

/// What holds of every watcher: the cursor is a file offset, and a read that
/// is under way is of at least one byte and ends at a file offset.
pub open spec fn valid(w: WatcherView) -> bool {
    &&& w.cursor <= u64::MAX
    &&& w.phase matches Phase::Reading { len } ==> 0 < len && w.cursor + len <= u64::MAX
}

/// The watcher that starts on a log of `initial_len` bytes: what is already
/// in the log lies behind the cursor, and no change is pending.
pub open spec fn started(source: SourceView, initial_len: nat, quiet: u64) -> WatcherView {
    WatcherView {
        source,
        cursor: initial_len,
        phase: Phase::Idle,
        debouncer: DebouncerView { quiet, pending: None },
    }
}

/// A raw change event, in any phase: the debouncer takes it. It starts
/// nothing by itself.
pub open spec fn on_raw_change(w: WatcherView, at: u64) -> (WatcherView, ActionView) {
    (
        WatcherView {
            debouncer: debounce_step(w.debouncer, DebounceInput::Raw { at }).0,
            ..w
        },
        if w.phase == Phase::Idle {
            ActionView::AwaitChange
        } else {
            ActionView::Continue
        },
    )
}

/// A look at the clock, seen when idle: where the debounced signal is due it
/// fires, and the length of the log is asked for.
pub open spec fn on_tick(w: WatcherView, at: u64) -> (WatcherView, ActionView) {
    if due(w.debouncer, at) {
        (
            WatcherView {
                debouncer: debounce_step(w.debouncer, DebounceInput::Tick { at }).0,
                phase: Phase::Probing,
                ..w
            },
            ActionView::Probe,
        )
    } else {
        (w, ActionView::AwaitChange)
    }
}

/// The length of the log, seen when probing. New bytes beyond the cursor are
/// asked for; a log that has not grown gives nothing to read; a log shorter
/// than the cursor is reported and the cycle is skipped, the cursor staying
/// where it is.
pub open spec fn on_probed(w: WatcherView, file_len: nat) -> (WatcherView, ActionView) {
    if file_len > w.cursor {
        let len = (file_len - w.cursor) as nat;
        (
            WatcherView { phase: Phase::Reading { len: len as u64 }, ..w },
            ActionView::Read { offset: w.cursor, len },
        )
    } else if file_len == w.cursor {
        (WatcherView { phase: Phase::Idle, ..w }, ActionView::AwaitChange)
    } else {
        (
            WatcherView { phase: Phase::Idle, ..w },
            ActionView::Report { error: WatchError::FileAccessFailure },
        )
    }
}

/// The end of a read of `len` bytes whose decoding is `decoded`. The bytes
/// are consumed either way: the cursor moves past them. A trade is handed to
/// the sink; a line that is no trade is reported.
pub open spec fn on_decoded(w: WatcherView, len: nat, decoded: Result<TradeView, WatchError>) -> (
    WatcherView,
    ActionView,
) {
    match decoded {
        Ok(trade) => (
            WatcherView { cursor: w.cursor + len, phase: Phase::Dispatching, ..w },
            ActionView::Notify { source: w.source.name, trade },
        ),
        Err(error) => (
            WatcherView { cursor: w.cursor + len, phase: Phase::Idle, ..w },
            ActionView::Report { error },
        ),
    }
}

/// What a read gave, seen when reading `len` bytes. Bytes of another length
/// are a failed read: nothing is consumed.
pub open spec fn on_bytes(w: WatcherView, len: nat, bytes: Seq<u8>) -> (WatcherView, ActionView) {
    if bytes.len() == len {
        on_decoded(w, len, decode_spec(lossy_text(bytes)))
    } else {
        (
            WatcherView { phase: Phase::Idle, ..w },
            ActionView::Report { error: WatchError::FileAccessFailure },
        )
    }
}

/// The watcher's transition: the next state and the action for each state and
/// event. A raw change event is taken in every phase; any other event that
/// does not belong to the phase changes nothing.
pub open spec fn step_spec(w: WatcherView, event: EventView) -> (WatcherView, ActionView) {
    match (w.phase, event) {
        (_, EventView::RawChange { at }) => on_raw_change(w, at),
        (Phase::Idle, EventView::Tick { at }) => on_tick(w, at),
        (Phase::Probing, EventView::Probed { file_len }) => on_probed(w, file_len as nat),
        (Phase::Probing, EventView::AccessFailed) => (
            WatcherView { phase: Phase::Idle, ..w },
            ActionView::Report { error: WatchError::FileAccessFailure },
        ),
        (Phase::Reading { len }, EventView::BytesRead { bytes }) => on_bytes(w, len as nat, bytes),
        (Phase::Reading { .. }, EventView::AccessFailed) => (
            WatcherView { phase: Phase::Idle, ..w },
            ActionView::Report { error: WatchError::FileAccessFailure },
        ),
        (Phase::Dispatching, EventView::Delivered) => (
            WatcherView { phase: Phase::Idle, ..w },
            ActionView::AwaitChange,
        ),
        (Phase::Dispatching, EventView::DeliveryFailed) => (
            WatcherView { phase: Phase::Idle, ..w },
            ActionView::Report { error: WatchError::DeliveryFailure },
        ),
        _ => (w, ActionView::Continue),
    }
}

/// The watcher of one source. It owns the source's cursor and debouncer;
/// nothing else moves them.
#[derive(Debug)]
pub struct SourceWatcher {
    source: Source,
    cursor: Cursor,
    phase: Phase,
    debouncer: Debouncer,
}

impl View for SourceWatcher {
    type V = WatcherView;

    closed spec fn view(&self) -> WatcherView {
        WatcherView {
            source: self.source@,
            cursor: self.cursor@,
            phase: self.phase,
            debouncer: self.debouncer@,
        }
    }
}

impl SourceWatcher {
    #[verifier::type_invariant]
    spec fn well_formed(&self) -> bool {
        valid(self@)
    }

    /// Starts watching `source`, whose log is `initial_len` bytes long, with a
    /// quiet window of `quiet` milliseconds. What the log holds already is
    /// never read.
    pub fn start(source: Source, initial_len: u64, quiet: u64) -> (watcher: SourceWatcher)
        ensures
            watcher@ == started(source@, initial_len as nat, quiet),
            valid(watcher@),
    {
        SourceWatcher {
            source,
            cursor: Cursor::new(initial_len),
            phase: Phase::Idle,
            debouncer: Debouncer::new(quiet),
        }
    }

    /// The source that is watched.
    pub fn source(&self) -> (source: &Source)
        ensures
            source@ == self@.source,
    {
        &self.source
    }

    /// The byte offset up to which the log has been consumed.
    pub fn offset(&self) -> (offset: u64)
        ensures
            offset == self@.cursor,
    {
        self.cursor.offset()
    }

    /// Where the watcher stands in its cycle.
    pub fn phase(&self) -> (phase: Phase)
        ensures
            phase == self@.phase,
    {
        self.phase
    }

    /// How long, at `now`, until the debounced signal is due: nothing where
    /// no raw change event is unanswered, zero where it is due already. A
    /// wait that does not fit is cut to the largest number.
    pub fn remaining(&self, now: u64) -> (wait: Option<u64>)
        ensures
            wait is Some <==> self@.debouncer.pending is Some,
            wait matches Some(millis) ==> millis == if time_left(self@.debouncer, now)
                <= u64::MAX {
                time_left(self@.debouncer, now)
            } else {
                u64::MAX as nat
            },
    {
        self.debouncer.remaining(now)
    }

    /// Ends a read of `byte_len` bytes whose decoding is `decoded`: the cursor
    /// moves past the bytes, and the trade or the failure is handed out. Where
    /// no read of that length is under way, nothing changes.
    pub fn complete_read(&mut self, byte_len: u64, decoded: Result<Trade, WatchError>) -> (action:
        WatchAction)
        ensures
            (final(self)@, action@) == if old(self)@.phase == (Phase::Reading { len: byte_len }) {
                on_decoded(old(self)@, byte_len as nat, outcome_view(decoded))
            } else {
                (old(self)@, ActionView::Continue)
            },
            valid(final(self)@),
    {
        proof {
            use_type_invariant(&*self);
        }
        match self.phase {
            Phase::Reading { len } => {
                if len != byte_len {
                    return WatchAction::Continue;
                }
            },
            _ => {
                return WatchAction::Continue;
            },
        }
        let end: u64 = self.cursor.offset() + byte_len;
        match decoded {
            Ok(trade) => {
                self.phase = Phase::Dispatching;
                self.cursor.advance(end);
                WatchAction::Notify { source: self.source.name.clone(), trade }
            },
            Err(error) => {
                self.phase = Phase::Idle;
                self.cursor.advance(end);
                WatchAction::Report { error }
            },
        }
    }

    /// Takes one event and gives the action that follows from it.
    pub fn step(&mut self, event: WatchEvent) -> (action: WatchAction)
        ensures
            (final(self)@, action@) == step_spec(old(self)@, event@),
            valid(final(self)@),
    {
        proof {
            use_type_invariant(&*self);
        }
        match event {
            WatchEvent::RawChange { at } => {
                self.debouncer.on_raw_event(at);
                match self.phase {
                    Phase::Idle => WatchAction::AwaitChange,
                    _ => WatchAction::Continue,
                }
            },
            WatchEvent::Tick { at } => {
                match self.phase {
                    Phase::Idle => {
                        if self.debouncer.on_tick(at) {
                            self.phase = Phase::Probing;
                            WatchAction::Probe
                        } else {
                            WatchAction::AwaitChange
                        }
                    },
                    _ => WatchAction::Continue,
                }
            },
            WatchEvent::Probed { file_len } => {
                match self.phase {
                    Phase::Probing => {
                        let offset: u64 = self.cursor.offset();
                        if file_len > offset {
                            let len: u64 = file_len - offset;
                            self.phase = Phase::Reading { len };
                            WatchAction::Read { offset, len }
                        } else if file_len == offset {
                            self.phase = Phase::Idle;
                            WatchAction::AwaitChange
                        } else {
                            self.phase = Phase::Idle;
                            WatchAction::Report { error: WatchError::FileAccessFailure }
                        }
                    },
                    _ => WatchAction::Continue,
                }
            },
            WatchEvent::BytesRead { bytes } => {
                match self.phase {
                    Phase::Reading { len } => {
                        if bytes.len() as u64 == len {
                            let decoded = decode_bytes(bytes.as_slice());
                            self.complete_read(len, decoded)
                        } else {
                            self.phase = Phase::Idle;
                            WatchAction::Report { error: WatchError::FileAccessFailure }
                        }
                    },
                    _ => WatchAction::Continue,
                }
            },
            WatchEvent::AccessFailed => {
                match self.phase {
                    Phase::Probing => {
                        self.phase = Phase::Idle;
                        WatchAction::Report { error: WatchError::FileAccessFailure }
                    },
                    Phase::Reading { .. } => {
                        self.phase = Phase::Idle;
                        WatchAction::Report { error: WatchError::FileAccessFailure }
                    },
                    _ => WatchAction::Continue,
                }
            },
            WatchEvent::Delivered => {
                match self.phase {
                    Phase::Dispatching => {
                        self.phase = Phase::Idle;
                        WatchAction::AwaitChange
                    },
                    _ => WatchAction::Continue,
                }
            },
            WatchEvent::DeliveryFailed => {
                match self.phase {
                    Phase::Dispatching => {
                        self.phase = Phase::Idle;
                        WatchAction::Report { error: WatchError::DeliveryFailure }
                    },
                    _ => WatchAction::Continue,
                }
            },
        }
    }
}

} // verus!
