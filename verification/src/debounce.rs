//! The change debouncer: many raw change events in quick succession become
//! one signal, due one quiet window after the last of them.
//!
//! The debouncer keeps no clock and does not sleep. Its owner tells it when a
//! raw event came and when time has passed, both as milliseconds on one
//! clock, and sleeps for as long as `remaining` says.

pub mod laws;

use vstd::prelude::*;

verus! {

/// The quiet window that is used where none is asked for: one second.
pub const DEFAULT_QUIET_MILLIS: u64 = 1000;

/// What a debouncer is told.
#[derive(Clone, Copy, Debug, PartialEq, Eq, Structural)]
pub enum DebounceInput {
    /// A raw change event came at this time.
    Raw { at: u64 },
    /// The clock shows this time.
    Tick { at: u64 },
}

/// A debouncer as plain values: the quiet window, and the time of the last
/// raw event that no signal has answered yet.
pub struct DebouncerView {
    pub quiet: u64,
    pub pending: Option<u64>,
}

/// Whether a signal is due at `now`: a raw event is unanswered and a full
/// quiet window has passed since the last one.
pub open spec fn due(d: DebouncerView, now: u64) -> bool {
    d.pending matches Some(last) && now - last >= d.quiet
}

/// The time from `now` until the signal is due, zero where it is due already
/// or where no raw event is unanswered.
pub open spec fn time_left(d: DebouncerView, now: u64) -> nat {
    match d.pending {
        Some(last) => if last + d.quiet <= now {
            0
        } else {
            (last + d.quiet - now) as nat
        },
        None => 0,
    }
}

/// The debouncer's transition: the next state, and whether a signal fires.
/// A raw event is remembered in place of any earlier one and never fires. A
/// tick fires the signal if it is due, and the debouncer is idle again.
pub open spec fn debounce_step(d: DebouncerView, input: DebounceInput) -> (DebouncerView, bool) {
    match input {
        DebounceInput::Raw { at } => (DebouncerView { pending: Some(at), ..d }, false),
        DebounceInput::Tick { at } => if due(d, at) {
            (DebouncerView { pending: None, ..d }, true)
        } else {
            (d, false)
        },
    }
}

/// Coalesces bursts of raw change events into single signals.
#[derive(Clone, Copy, Debug, PartialEq, Eq)]
pub struct Debouncer {
    quiet: u64,
    pending: Option<u64>,
}

impl View for Debouncer {
    type V = DebouncerView;

    closed spec fn view(&self) -> DebouncerView {
        DebouncerView { quiet: self.quiet, pending: self.pending }
    }
}

impl Debouncer {
    /// An idle debouncer with a quiet window of `quiet` milliseconds.
    pub fn new(quiet: u64) -> (debouncer: Debouncer)
        ensures
            debouncer@ == (DebouncerView { quiet, pending: None }),
    {
        Debouncer { quiet, pending: None }
    }

    /// The quiet window, in milliseconds.
    pub fn quiet(&self) -> (quiet: u64)
        ensures
            quiet == self@.quiet,
    {
        self.quiet
    }

    /// Whether a raw event is unanswered.
    pub fn is_pending(&self) -> (pending: bool)
        ensures
            pending == self@.pending is Some,
    {
        self.pending.is_some()
    }

    /// How long, at `now`, until the signal is due: nothing where no raw
    /// event is unanswered, zero where it is due already. A wait that does
    /// not fit is cut to the largest number.
    pub fn remaining(&self, now: u64) -> (wait: Option<u64>)
        ensures
            wait is Some <==> self@.pending is Some,
            wait matches Some(millis) ==> millis == if time_left(self@, now) <= u64::MAX {
                time_left(self@, now)
            } else {
                u64::MAX as nat
            },
    {
        match self.pending {
            None => None,
            Some(last) => {
                if now >= last {
                    let gone: u64 = now - last;
                    if gone >= self.quiet {
                        Some(0)
                    } else {
                        Some(self.quiet - gone)
                    }
                } else {
                    let ahead: u64 = last - now;
                    match ahead.checked_add(self.quiet) {
                        Some(millis) => Some(millis),
                        None => Some(u64::MAX),
                    }
                }
            },
        }
    }

    /// Takes a raw change event that came at `now`.
    pub fn on_raw_event(&mut self, now: u64)
        ensures
            (final(self)@, false) == debounce_step(old(self)@, DebounceInput::Raw { at: now }),
        no_unwind
    {
        self.pending = Some(now);
    }

    /// Looks at the clock: gives `true`, once, when the signal is due.
    pub fn on_tick(&mut self, now: u64) -> (fired: bool)
        ensures
            (final(self)@, fired) == debounce_step(old(self)@, DebounceInput::Tick { at: now }),
        no_unwind
    {
        match self.pending {
            Some(last) => {
                if now >= last && now - last >= self.quiet {
                    self.pending = None;
                    true
                } else {
                    false
                }
            },
            None => false,
        }
    }

    /// Takes one input and says whether the signal fires.
    pub fn step(&mut self, input: DebounceInput) -> (fired: bool)
        ensures
            (final(self)@, fired) == debounce_step(old(self)@, input),
    {
        match input {
            DebounceInput::Raw { at } => {
                self.on_raw_event(at);
                false
            },
            DebounceInput::Tick { at } => self.on_tick(at),
        }
    }
}

} // verus!
