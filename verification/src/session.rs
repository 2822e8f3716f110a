//! The delivery session: a state machine that drives one ordered run of
//! records to completion against its endpoint.
//!
//! A session is created over a snapshot of a buffer and lives for one flush
//! round. It knows the records only by their positions in that snapshot. On
//! each step it names the batch to send; told what the transport reported,
//! it accepts the batch, shrinks the batch size, asks for a wait, or abandons
//! what is left.

use crate::response::{Outcome, ResponseClass};
use vstd::arithmetic::power2::{lemma2_to64, pow2};
use vstd::bits::lemma_u64_shl_is_mul;
use vstd::prelude::*;

verus! {

/// The number of delayed retries granted to a batch that keeps failing for
/// transient reasons, after one immediate retry.
pub const MAX_BACKOFF_RETRIES: u32 = 5;

/// What the caller must do after a step of a session.
#[derive(Clone, Copy, Debug)]
pub enum SessionStatus {
    /// Suspend for this many seconds before the next attempt.
    Timeout(u64),
    /// More items are left; continue at once.
    Remaining,
    /// Nothing is left: every item was accepted, rejected for good, or
    /// abandoned.
    Finished,
}

/// Delivery state of one record stream within one flush round.
///
/// The session covers the items at positions `0..end` of its buffer. Those
/// at `next..end` remain; those before `next` are done with. At most
/// `batch_len` items go into one request.
#[derive(Clone, Copy, Debug)]
pub struct DeliverySession {
    pub next: usize,
    pub end: usize,
    pub batch_len: usize,
    pub retry_count: u32,
}

/// The seconds to wait after a transient failure met with `retry_count`
/// earlier failures in a row: none after the first, then 1, 2, 4, ...
pub open spec fn spec_backoff_secs(retry_count: u32) -> nat {
    if retry_count == 0 {
        0
    } else {
        pow2((retry_count - 1) as nat)
    }
}

impl DeliverySession {
    /// The number of items that remain.
    pub open spec fn remaining(self) -> nat {
        if self.next <= self.end {
            (self.end - self.next) as nat
        } else {
            0
        }
    }

    /// A session is well formed when its position lies within its snapshot
    /// and, as long as items remain, a request carries at least one item.
    pub open spec fn wf(self) -> bool {
        &&& self.next <= self.end
        &&& self.next < self.end ==> self.batch_len >= 1
    }

    /// The session in its first state over a snapshot of `len` items: all of
    /// them remain, and the first request carries them all.
    pub open spec fn spec_new(len: usize) -> DeliverySession {
        DeliverySession { next: 0, end: len, batch_len: len, retry_count: 0 }
    }

    /// The number of items in the next request: `batch_len`, or all that
    /// remain where fewer remain.
    pub open spec fn batch_size(self) -> nat {
        if self.batch_len as nat <= self.remaining() {
            self.batch_len as nat
        } else {
            self.remaining()
        }
    }

    /// The positions `(from, to)` of the next batch, `from` included and `to`
    /// excluded; `None` when nothing remains.
    pub open spec fn spec_next_batch(self) -> Option<(usize, usize)> {
        if self.remaining() == 0 {
            None
        } else {
            Some((self.next, (self.next + self.batch_size()) as usize))
        }
    }

    /// The session with everything that remained dropped.
    pub open spec fn abandoned(self) -> DeliverySession {
        DeliverySession { next: self.end, ..self }
    }

    /// One step of the state machine: the session after the transport
    /// reported `class` for the next batch, and what the caller must do.
    ///
    /// With nothing remaining the step changes nothing and reports
    /// `Finished`, whatever `class` is.
    pub open spec fn spec_send(self, class: ResponseClass) -> (DeliverySession, SessionStatus) {
        if self.remaining() == 0 {
            (self, SessionStatus::Finished)
        } else {
            match class {
                ResponseClass::Accepted => {
                    let after = DeliverySession {
                        next: (self.next + self.batch_size()) as usize,
                        retry_count: 0,
                        ..self
                    };
                    if after.remaining() == 0 {
                        (after, SessionStatus::Finished)
                    } else {
                        (after, SessionStatus::Remaining)
                    }
                },
                ResponseClass::PermanentlyRejected => (self.abandoned(), SessionStatus::Finished),
                ResponseClass::Oversized => {
                    if self.batch_len == 1 {
                        (self.abandoned(), SessionStatus::Finished)
                    } else {
                        (
                            DeliverySession { batch_len: self.batch_len / 2, ..self },
                            SessionStatus::Remaining,
                        )
                    }
                },
                ResponseClass::RateLimited { retry_after } => match retry_after {
                    Some(secs) => (self, SessionStatus::Timeout(secs)),
                    None => (self.abandoned(), SessionStatus::Finished),
                },
                ResponseClass::Transient => {
                    if self.retry_count <= MAX_BACKOFF_RETRIES {
                        (
                            DeliverySession {
                                retry_count: (self.retry_count + 1) as u32,
                                ..self
                            },
                            SessionStatus::Timeout(spec_backoff_secs(self.retry_count) as u64),
                        )
                    } else {
                        (self.abandoned(), SessionStatus::Finished)
                    }
                },
            }
        }
    }

    /// A fresh session over a snapshot of `len` items.
    pub fn new(len: usize) -> (session: DeliverySession)
        ensures
            session == DeliverySession::spec_new(len),
            session.wf(),
            session.remaining() == len,
    {
        DeliverySession { next: 0, end: len, batch_len: len, retry_count: 0 }
    }

    /// Whether nothing remains.
    pub fn is_finished(&self) -> (finished: bool)
        ensures
            finished == (self.remaining() == 0),
    {
        self.next >= self.end
    }

    /// The positions of the items to put into the next request, or `None`
    /// when nothing remains and no request is due.
    pub fn next_batch(&self) -> (batch: Option<(usize, usize)>)
        ensures
            batch == self.spec_next_batch(),
            batch matches Some((from, to)) ==> from == self.next && from <= to <= self.end && to
                - from <= self.batch_len,
            batch matches Some((from, to)) ==> (self.wf() ==> from < to),
    {
        if self.next >= self.end {
            None
        } else {
            let left: usize = self.end - self.next;
            let size: usize = if self.batch_len <= left {
                self.batch_len
            } else {
                left
            };
            Some((self.next, self.next + size))
        }
    }

    /// Drops everything that remains.
    fn abandon(&mut self)
        ensures
            *final(self) == old(self).abandoned(),
    {
        self.next = self.end;
    }

    /// Advances the session by the outcome of the request for the batch that
    /// `next_batch` named, and says what the caller must do next.
    pub fn send(&mut self, outcome: &Outcome) -> (status: SessionStatus)
        ensures
            (*final(self), status) == old(self).spec_send(outcome.spec_classify()),
            old(self).wf() ==> final(self).wf(),
            final(self).end == old(self).end,
            final(self).next >= old(self).next,
            final(self).batch_len <= old(self).batch_len,
            status is Finished <==> final(self).remaining() == 0,
    {
        if self.next >= self.end {
            return SessionStatus::Finished;
        }
        let class = outcome.classify();
        match class {
            ResponseClass::Accepted => {
                let left: usize = self.end - self.next;
                let size: usize = if self.batch_len <= left {
                    self.batch_len
                } else {
                    left
                };
                self.next = self.next + size;
                self.retry_count = 0;
                if self.next >= self.end {
                    SessionStatus::Finished
                } else {
                    SessionStatus::Remaining
                }
            },
            ResponseClass::PermanentlyRejected => {
                self.abandon();
                SessionStatus::Finished
            },
            ResponseClass::Oversized => {
                if self.batch_len == 1 {
                    self.abandon();
                    SessionStatus::Finished
                } else {
                    self.batch_len = self.batch_len / 2;
                    SessionStatus::Remaining
                }
            },
            ResponseClass::RateLimited { retry_after } => match retry_after {
                Some(secs) => SessionStatus::Timeout(secs),
                None => {
                    self.abandon();
                    SessionStatus::Finished
                },
            },
            ResponseClass::Transient => {
                if self.retry_count <= MAX_BACKOFF_RETRIES {
                    let wait: u64 = backoff_secs(self.retry_count);
                    self.retry_count = self.retry_count + 1;
                    SessionStatus::Timeout(wait)
                } else {
                    self.abandon();
                    SessionStatus::Finished
                }
            },
        }
    }
}

/// The seconds to wait after a transient failure met with `retry_count`
/// earlier failures in a row.
pub fn backoff_secs(retry_count: u32) -> (secs: u64)
    requires
        retry_count <= MAX_BACKOFF_RETRIES,
    ensures
        secs == spec_backoff_secs(retry_count),
{
    if retry_count == 0 {
        0
    } else {
        let shift: u64 = (retry_count - 1) as u64;
        proof {
            lemma2_to64();
            lemma_u64_shl_is_mul(1, shift);
        }
        1u64 << shift
    }
}

/// The session after `count` transient failures in a row.
pub open spec fn after_transient_failures(session: DeliverySession, count: nat) -> DeliverySession
    decreases count,
{
    if count == 0 {
        session
    } else {
        after_transient_failures(session, (count - 1) as nat).spec_send(ResponseClass::Transient).0
    }
}

/// The seconds waited in all over `count` transient failures in a row.
pub open spec fn total_backoff_secs(session: DeliverySession, count: nat) -> nat
    decreases count,
{
    if count == 0 {
        0
    } else {
        let before = after_transient_failures(session, (count - 1) as nat);
        total_backoff_secs(session, (count - 1) as nat) + match before.spec_send(
            ResponseClass::Transient,
        ).1 {
            SessionStatus::Timeout(secs) => secs as nat,
            _ => 0,
        }
    }
}

/// A step keeps a session well formed, never widens what remains, never
/// raises the batch size, and reports `Finished` exactly when nothing
/// remains afterwards.
pub proof fn lemma_send_invariant(session: DeliverySession, class: ResponseClass)
    requires
        session.wf(),
    ensures
        ({
            let (after, status) = session.spec_send(class);
            &&& after.wf()
            &&& after.end == session.end
            &&& session.next <= after.next <= after.end
            &&& after.remaining() <= session.remaining()
            &&& after.batch_len <= session.batch_len
            &&& (after.remaining() > 0 ==> after.batch_len >= 1)
            &&& (status is Finished <==> after.remaining() == 0)
        }),
{
}

/// A step that asks for no wait and leaves items behind has made progress:
/// it took a batch out of what remains or halved the batch size. So only
/// waits can keep a session from its end.
pub proof fn lemma_remaining_makes_progress(session: DeliverySession, class: ResponseClass)
    requires
        session.wf(),
        session.spec_send(class).1 is Remaining,
    ensures
        ({
            let after = session.spec_send(class).0;
            after.remaining() + after.batch_len < session.remaining() + session.batch_len
        }),
{
}

/// The batch size changes only when a payload of more than one item is
/// refused as too large, and then it halves.
pub proof fn lemma_batch_len_only_halves(session: DeliverySession, class: ResponseClass)
    requires
        session.wf(),
    ensures
        ({
            let after = session.spec_send(class).0;
            if class is Oversized && session.remaining() > 0 && session.batch_len > 1 {
                after.batch_len == session.batch_len / 2 && after.next == session.next
            } else {
                after.batch_len == session.batch_len
            }
        }),
{
}

/// A step of a session of which nothing remains changes nothing and reports
/// `Finished`.
pub proof fn lemma_send_finished_is_noop(session: DeliverySession, class: ResponseClass)
    requires
        session.remaining() == 0,
    ensures
        session.spec_send(class) == (session, SessionStatus::Finished),
{
}

/// Every way of giving up leaves nothing behind: after a permanent
/// rejection, an oversized single item, or a rate limit without a usable
/// delay, nothing remains.
pub proof fn lemma_abandon_drops_all(session: DeliverySession, class: ResponseClass)
    requires
        session.wf(),
        class is PermanentlyRejected || (class is Oversized && session.batch_len == 1) || (
        class matches ResponseClass::RateLimited { retry_after } && retry_after is None),
    ensures
        session.spec_send(class).0.remaining() == 0,
        session.spec_send(class).1 is Finished,
{
}

/// A rate limit with a usable delay asks for exactly that delay and leaves
/// the session as it was.
pub proof fn lemma_rate_limit_waits(session: DeliverySession, secs: u64)
    requires
        session.remaining() > 0,
    ensures
        session.spec_send(ResponseClass::RateLimited { retry_after: Some(secs) }) == (
            session,
            SessionStatus::Timeout(secs),
        ),
{
}

/// A batch that keeps failing for transient reasons is retried at once, then
/// after 1, 2, 4, 8 and 16 seconds, and abandoned at the failure after
/// that: seven requests, six retries, 31 seconds of waiting.
pub proof fn lemma_transient_failures_abandon(session: DeliverySession)
    requires
        session.wf(),
        session.remaining() > 0,
        session.retry_count == 0,
    ensures
        session.spec_send(ResponseClass::Transient).1 == SessionStatus::Timeout(0),
        after_transient_failures(session, 1).spec_send(ResponseClass::Transient).1
            == SessionStatus::Timeout(1),
        after_transient_failures(session, 2).spec_send(ResponseClass::Transient).1
            == SessionStatus::Timeout(2),
        after_transient_failures(session, 3).spec_send(ResponseClass::Transient).1
            == SessionStatus::Timeout(4),
        after_transient_failures(session, 4).spec_send(ResponseClass::Transient).1
            == SessionStatus::Timeout(8),
        after_transient_failures(session, 5).spec_send(ResponseClass::Transient).1
            == SessionStatus::Timeout(16),
        after_transient_failures(session, 6).spec_send(ResponseClass::Transient).1
            == SessionStatus::Finished,
        forall|count: nat| count <= 6 ==> after_transient_failures(session, count).remaining()
            == session.remaining(),
        after_transient_failures(session, 7).remaining() == 0,
        total_backoff_secs(session, 7) == 31,
{
    lemma2_to64();
    reveal_with_fuel(after_transient_failures, 8);
    reveal_with_fuel(total_backoff_secs, 8);
    assert forall|count: nat| count <= 6 implies after_transient_failures(
        session,
        count,
    ).remaining() == session.remaining() by {
        assert(after_transient_failures(session, 6).remaining() == session.remaining());
    }
}

/// An accepted batch takes exactly the next batch out of what remains and
/// clears the count of failures.
pub proof fn lemma_accept_advances(session: DeliverySession)
    requires
        session.wf(),
        session.remaining() > 0,
    ensures
        ({
            let (after, status) = session.spec_send(ResponseClass::Accepted);
            &&& session.spec_next_batch() == Some((session.next, after.next))
            &&& after.remaining() == session.remaining() - session.batch_size()
            &&& after.retry_count == 0
            &&& status == if after.remaining() == 0 {
                SessionStatus::Finished
            } else {
                SessionStatus::Remaining
            }
        }),
{
}

} // verus!
