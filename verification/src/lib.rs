//! A streaming upload bridge.
//!
//! The caller writes the payload of one HTTP request chunk by chunk. Each chunk
//! is handed to a bounded channel whose receiving end is the request body the
//! HTTP client drains, and when the caller closes the writer the pending
//! response is awaited and turned into the result of the upload by a handler
//! the caller supplied.
//!
//! Nothing here blocks or spawns: every operation is one non-blocking attempt
//! that either finishes or reports [`progress::Progress::Pending`] and is tried
//! again when the task is woken.
//!
//! * [`channel`]: the hand-off channel and what is assumed of it.
//! * [`response`]: the pending response and its interpretation.
//! * [`writer`]: the writer itself, its phases and its contracts.
//! * [`error`], [`op`], [`progress`]: the plain types the others speak of.
pub mod channel;
pub mod error;
pub mod op;
pub mod progress;
pub mod response;
pub mod writer;


