//! Tailing of append-only trade logs.
//!
//! A process watches one log per configured source. Each source has a
//! watcher of its own, which debounces the raw change events of its file,
//! reads what was appended since its cursor, decodes it as one trade record
//! and hands the trade out for notification.
//!
//! The library holds the rules of that pipeline and proves them with Verus;
//! it does no input or output. Files, timers and the notification sink
//! belong to the program around it, which tells the watchers what happened
//! and does what they ask for.
//!
//! - `text`, `decode`, `trade`: from the bytes of a line to a trade.
//! - `cursor`: the byte offset up to which a log has been consumed.
//! - `debounce`: from bursts of raw change events to single signals.
//! - `watcher`: the cycle of one source, as a state machine.
//! - `supervisor`: one watcher for each source, none touching another.
//! - `notification`: what the notification of a trade says.

pub mod cursor;
pub mod debounce;
pub mod decode;
pub mod error;
pub mod notification;
pub mod source;
pub mod supervisor;
pub mod text;
pub mod trade;
pub mod watcher;
