//! Transient error messages shown to the user, each with the moment it
//! appeared so it can fade out later.

use vstd::prelude::*;

verus! {

/// How long an error message stays visible, in milliseconds.
pub const ERROR_DURATION_MILLIS: u64 = 4000;

/// An error message with the moment it was created.
#[derive(Clone, Debug, PartialEq, Eq)]
pub struct ErrorMessage {
    /// The message text.
    pub message: String,
    /// When the error was created, in milliseconds of the caller's
    /// clock.
    pub timestamp: u64,
}

impl ErrorMessage {
    /// A new error message stamped with the given moment.
    pub fn new(message: String, timestamp: u64) -> (r: ErrorMessage)
        ensures
            r.message == message,
            r.timestamp == timestamp,
    {
        ErrorMessage { message, timestamp }
    }
}

/// The errors to show, oldest first.
#[derive(Debug, PartialEq, Eq)]
pub struct Errors {
    /// The messages in the order they arrived.
    pub errors: Vec<ErrorMessage>,
}

impl Errors {
    /// No errors.
    pub fn new() -> (r: Errors)
        ensures
            r.errors@ =~= Seq::<ErrorMessage>::empty(),
    {
        Errors { errors: Vec::new() }
    }

    /// Add an error stamped with the given moment after the existing
    /// ones.
    pub fn push(&mut self, error: String, now: u64)
        ensures
            final(self).errors@.len() == old(self).errors@.len() + 1,
            final(self).errors@.last().message == error,
            final(self).errors@.last().timestamp == now,
            forall|i: int|
                0 <= i < old(self).errors@.len() ==> final(self).errors@[i] == old(
                    self,
                ).errors@[i],
    {
        self.errors.push(ErrorMessage { message: error, timestamp: now });
    }

    /// The message is still visible at the moment `now`: it appeared
    /// within the last [`ERROR_DURATION_MILLIS`].
    pub open spec fn visible_at(m: ErrorMessage, now: u64) -> bool {
        m.timestamp <= now < m.timestamp + ERROR_DURATION_MILLIS
    }

    /// Whether the message at `i` is still visible at the moment `now`.
    pub fn is_visible(&self, i: usize, now: u64) -> (r: bool)
        requires
            i < self.errors@.len(),
        ensures
            r == Errors::visible_at(self.errors@[i as int], now),
    {
        let m = &self.errors[i];
        m.timestamp <= now && now - m.timestamp < ERROR_DURATION_MILLIS
    }
}

} // verus!
