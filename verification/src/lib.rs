//! Core logic of a chat bot that long-polls a messaging platform, reacts to
//! recognized text patterns with canned responses, and fires a weekly
//! scheduled poll.
//!
//! The transport (fetching updates, sending messages) and all file and
//! network I/O live outside this crate; here stand the verified decision
//! functions: the message router, the response catalog with its random
//! picks, the weekly schedule gate, and the cursor bookkeeping of the
//! polling loop.

pub mod catalog;
pub mod dispatch;
pub mod router;
pub mod schedule;
