//! The completion token: the shared flag-and-slot pair through which an
//! asynchronous callback hands its result to the waiting poll loop.
//!
//! A token that times out is abandoned, not destroyed: abandoning means
//! the loop stops reading, while the callback's eventual write must still
//! land safely. A write into an abandoned token is well defined and
//! leaves the token unreadable, so a late result can never reach a
//! response.
use vstd::prelude::*;

verus! {

/// Where a token stands in its life.
pub enum TokenState {
    /// Allocated; the callback has not fired and the loop still waits.
    Pending,
    /// The callback fired while the loop was waiting: the payload is
    /// readable.
    Completed,
    /// The loop gave up before the callback fired; nothing will read the
    /// token again.
    Abandoned,
    /// The callback fired after the loop had given up: the write landed,
    /// but nothing may read it.
    CompletedLate,
}

/// A shared completion flag with a payload slot.
pub struct CompletionToken<T> {
    pub state: TokenState,
    pub payload: Option<T>,
}

impl<T> CompletionToken<T> {
    /// A token holds a payload whenever the callback has fired.
    pub open spec fn wf(&self) -> bool {
        (self.state is Completed || self.state is CompletedLate) ==> self.payload is Some
    }

    /// Only a token completed before abandonment may be read.
    pub open spec fn readable(&self) -> bool {
        self.state is Completed
    }

    /// A fresh token: not done, empty slot.
    pub fn new() -> (t: Self)
        ensures
            t.state is Pending,
            t.payload is None,
            t.wf(),
            !t.readable(),
    {
        CompletionToken { state: TokenState::Pending, payload: None }
    }

    /// The callback's write: stores the payload and marks the token done.
    /// On a live token this makes the payload readable; on an abandoned
    /// token the write still lands, but the token stays unreadable. A
    /// token completed once is not overwritten.
    pub fn complete(&mut self, data: T)
        requires
            old(self).wf(),
        ensures
            final(self).wf(),
            old(self).state is Pending ==> final(self).state is Completed && final(self).payload
                == Some(data),
            old(self).state is Abandoned || old(self).state is CompletedLate ==> final(self).state
                is CompletedLate && !final(self).readable(),
            old(self).state is Completed ==> *final(self) == *old(self),
    {
        match self.state {
            TokenState::Pending => {
                self.payload = Some(data);
                self.state = TokenState::Completed;
            },
            TokenState::Completed => {},
            TokenState::Abandoned => {
                self.payload = Some(data);
                self.state = TokenState::CompletedLate;
            },
            TokenState::CompletedLate => {
                self.payload = Some(data);
            },
        }
    }

    /// The loop's surrender: stop reading the token. The payload of a
    /// token that already completed stays readable; a pending token
    /// becomes abandoned, awaiting its late write.
    pub fn abandon(&mut self)
        requires
            old(self).wf(),
        ensures
            final(self).wf(),
            old(self).state is Pending ==> final(self).state is Abandoned,
            !(old(self).state is Pending) ==> *final(self) == *old(self),
    {
        match self.state {
            TokenState::Pending => {
                self.state = TokenState::Abandoned;
            },
            _ => {},
        }
    }

    /// Reads the payload of a token that completed in time.
    pub fn read(&self) -> (r: &T)
        requires
            self.wf(),
            self.readable(),
        ensures
            Some(*r) == self.payload,
    {
        match &self.payload {
            Some(d) => d,
            None => {
                proof {
                    assert(false);
                }
                unreached()
            },
        }
    }
}

} // verus!
