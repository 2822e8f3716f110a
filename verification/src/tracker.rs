//! Batch completeness: when has enough accumulated to flush?

use vstd::prelude::*;

verus! {

/// The policy that decides when a batch is complete.
#[derive(Clone, Copy, Debug)]
pub enum BatchMode {
    /// Complete once `max_items` have accumulated, or once `timeout_ms`
    /// milliseconds have passed since the last item was added.
    Time { timeout_ms: u64, max_items: usize },
    /// Complete once `min_items` have accumulated; time plays no part.
    Size { min_items: usize },
}

/// Scheduling state of the batcher.
///
/// Times are readings of a monotonic clock in milliseconds, supplied by the
/// caller. `current_item_count` is the number of items added since the last
/// `reset`.
#[derive(Clone, Copy, Debug)]
pub struct BatchTracker {
    pub mode: BatchMode,
    pub last_update_time: u64,
    pub current_item_count: usize,
}

impl BatchTracker {
    /// Whether the accumulated batch should be flushed at time `now`.
    pub open spec fn spec_is_complete(self, now: u64) -> bool {
        match self.mode {
            BatchMode::Time { timeout_ms, max_items } => {
                self.current_item_count >= max_items || now - self.last_update_time
                    >= timeout_ms
            },
            BatchMode::Size { min_items } => self.current_item_count >= min_items,
        }
    }

    /// The tracker after `n` more items arrived at time `now`.
    pub open spec fn spec_add_new_items(self, n: usize, now: u64) -> BatchTracker {
        BatchTracker {
            mode: self.mode,
            last_update_time: now,
            current_item_count: (self.current_item_count + n) as usize,
        }
    }

    /// The tracker with its counter zeroed.
    pub open spec fn spec_reset(self) -> BatchTracker {
        BatchTracker {
            mode: self.mode,
            last_update_time: self.last_update_time,
            current_item_count: 0,
        }
    }

    /// How long to wait before looking at the tracker again when nothing new
    /// arrives: the timeout in `Time` mode, nothing in `Size` mode.
    pub open spec fn spec_timeout_future(self) -> Option<u64> {
        match self.mode {
            BatchMode::Time { timeout_ms, max_items } => Some(timeout_ms),
            BatchMode::Size { min_items } => None,
        }
    }

    /// A tracker with nothing accumulated, created at time `now`.
    pub fn new(mode: BatchMode, now: u64) -> (tracker: BatchTracker)
        ensures
            tracker.mode == mode,
            tracker.last_update_time == now,
            tracker.current_item_count == 0,
    {
        BatchTracker { mode, last_update_time: now, current_item_count: 0 }
    }

    /// Records that `n` more items arrived at time `now`.
    pub fn add_new_items(&mut self, n: usize, now: u64)
        requires
            old(self).current_item_count + n <= usize::MAX,
        ensures
            *final(self) == old(self).spec_add_new_items(n, now),
            final(self).current_item_count == old(self).current_item_count + n,
    {
        self.current_item_count = self.current_item_count + n;
        self.last_update_time = now;
    }

    /// Whether the accumulated batch should be flushed at time `now`.
    pub fn is_complete(&self, now: u64) -> (complete: bool)
        ensures
            complete == self.spec_is_complete(now),
    {
        match self.mode {
            BatchMode::Time { timeout_ms, max_items } => {
                self.current_item_count >= max_items || (now >= self.last_update_time && now
                    - self.last_update_time >= timeout_ms)
            },
            BatchMode::Size { min_items } => self.current_item_count >= min_items,
        }
    }

    /// Zeroes the counter. Mode and time of last addition stay as they are.
    pub fn reset(&mut self)
        ensures
            *final(self) == old(self).spec_reset(),
    {
        self.current_item_count = 0;
    }

    /// The wait after which the caller should evaluate the tracker again even
    /// if no item arrives, in milliseconds; `None` where no time-based trigger
    /// exists.
    pub fn timeout_future(&self) -> (wait: Option<u64>)
        ensures
            wait == self.spec_timeout_future(),
    {
        match self.mode {
            BatchMode::Time { timeout_ms, max_items: _ } => Some(timeout_ms),
            BatchMode::Size { min_items: _ } => None,
        }
    }
}

/// In `Time` mode a batch that has reached `max_items` is complete at every
/// clock reading, however little time has passed.
pub proof fn lemma_complete_at_max_items(tracker: BatchTracker, now: u64)
    requires
        tracker.mode matches BatchMode::Time { timeout_ms, max_items }
            && tracker.current_item_count >= max_items,
    ensures
        tracker.spec_is_complete(now),
{
}

/// In `Time` mode a batch becomes complete once the timeout has passed since
/// the last addition, and stays complete from then on, with no further item
/// added.
pub proof fn lemma_complete_after_timeout(tracker: BatchTracker, now: u64)
    requires
        tracker.mode matches BatchMode::Time { timeout_ms, max_items }
            && now >= tracker.last_update_time + timeout_ms,
    ensures
        tracker.spec_is_complete(now),
        forall|later: u64| later >= now ==> tracker.spec_is_complete(later),
{
}

/// In `Time` mode, below `max_items` and before the timeout has passed, the
/// batch is not complete; in `Size` mode time never completes a batch.
pub proof fn lemma_incomplete_before_timeout(tracker: BatchTracker, now: u64)
    requires
        match tracker.mode {
            BatchMode::Time { timeout_ms, max_items } => tracker.current_item_count < max_items
                && now < tracker.last_update_time + timeout_ms,
            BatchMode::Size { min_items } => tracker.current_item_count < min_items,
        },
    ensures
        !tracker.spec_is_complete(now),
{
}

/// Resetting a tracker whose counter is already zero changes nothing.
pub proof fn lemma_reset_idempotent(tracker: BatchTracker)
    ensures
        tracker.spec_reset().spec_reset() == tracker.spec_reset(),
        tracker.current_item_count == 0 ==> tracker.spec_reset() == tracker,
{
}

} // verus!
