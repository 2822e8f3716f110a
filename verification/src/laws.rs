//! What holds of the exporter through any sequence of calls.

use crate::endpoint::RecordKind;
use crate::response::ResponseClass;
use crate::round::FlushAction;
use crate::session::{lemma_send_invariant, DeliverySession};
use crate::state::ApiState;
use vstd::arithmetic::power2::lemma2_to64;
use vstd::prelude::*;

verus! {

/// One call on the exporter, as mathematical data.
pub enum Event {
    /// A push of one log and one span at a time.
    Push { log: Seq<u8>, span: Seq<u8>, now: u64 },
    /// The start of a flush.
    BeginFlush,
    /// A step of the round, with what the transport reported for each stream.
    Advance { logs: ResponseClass, spans: ResponseClass },
}

impl ApiState {
    /// The state after one call.
    pub open spec fn spec_apply(self, event: Event) -> ApiState {
        match event {
            Event::Push { log, span, now } => self.spec_push(log, span, now).0,
            Event::BeginFlush => self.spec_begin_flush().0,
            Event::Advance { logs, spans } => self.spec_advance_flush(logs, spans).0,
        }
    }

    /// The state after a sequence of calls, first to last.
    pub open spec fn spec_run(self, events: Seq<Event>) -> ApiState
        decreases events.len(),
    {
        if events.len() == 0 {
            self
        } else {
            self.spec_run(events.drop_last()).spec_apply(events.last())
        }
    }

    /// Whether `event`, applied in this state, completes the round under way.
    pub open spec fn completes_round(self, event: Event) -> bool {
        event matches Event::Advance { logs, spans } && self.round is Some
            && self.spec_advance_flush(logs, spans).1 is Done
    }

    /// The number of log records that rounds completed during `events` have
    /// covered.
    pub open spec fn covered_logs(self, events: Seq<Event>) -> nat
        decreases events.len(),
    {
        if events.len() == 0 {
            0
        } else {
            let before = self.spec_run(events.drop_last());
            self.covered_logs(events.drop_last()) + if before.completes_round(events.last()) {
                before.round->0.logs.end as nat
            } else {
                0
            }
        }
    }

    /// The number of span records that rounds completed during `events` have
    /// covered.
    pub open spec fn covered_spans(self, events: Seq<Event>) -> nat
        decreases events.len(),
    {
        if events.len() == 0 {
            0
        } else {
            let before = self.spec_run(events.drop_last());
            self.covered_spans(events.drop_last()) + if before.completes_round(events.last()) {
                before.round->0.spans.end as nat
            } else {
                0
            }
        }
    }
}

/// The log records pushed by `events`, in order.
pub open spec fn pushed_logs(events: Seq<Event>) -> Seq<Seq<u8>>
    decreases events.len(),
{
    if events.len() == 0 {
        Seq::empty()
    } else {
        match events.last() {
            Event::Push { log, span, now } => pushed_logs(events.drop_last()).push(log),
            _ => pushed_logs(events.drop_last()),
        }
    }
}

/// The span records pushed by `events`, in order.
pub open spec fn pushed_spans(events: Seq<Event>) -> Seq<Seq<u8>>
    decreases events.len(),
{
    if events.len() == 0 {
        Seq::empty()
    } else {
        match events.last() {
            Event::Push { log, span, now } => pushed_spans(events.drop_last()).push(span),
            _ => pushed_spans(events.drop_last()),
        }
    }
}

/// The number of pushes among `events`.
pub open spec fn push_count(events: Seq<Event>) -> nat
    decreases events.len(),
{
    if events.len() == 0 {
        0
    } else {
        push_count(events.drop_last()) + if events.last() is Push {
            1nat
        } else {
            0nat
        }
    }
}

/// Each pushed record adds one to each list of pushed records.
pub proof fn lemma_pushed_len(events: Seq<Event>)
    ensures
        pushed_logs(events).len() == push_count(events),
        pushed_spans(events).len() == push_count(events),
        push_count(events) <= events.len(),
    decreases events.len(),
{
    if events.len() > 0 {
        lemma_pushed_len(events.drop_last());
    }
}

/// A push appends exactly its two records, whether or not it starts a
/// flush, and leaves the configuration alone.
pub proof fn lemma_push_appends(state: ApiState, log: Seq<u8>, span: Seq<u8>, now: u64)
    requires
        state.wf(),
        state.logs.len() < usize::MAX,
        state.spans.len() < usize::MAX,
    ensures
        ({
            let after = state.spec_push(log, span, now).0;
            &&& after.wf()
            &&& after.logs == state.logs.push(log)
            &&& after.spans == state.spans.push(span)
            &&& after.key == state.key
            &&& after.log_endpoint == state.log_endpoint
            &&& after.trace_endpoint == state.trace_endpoint
        }),
{
}

/// Starting a flush keeps both buffers as they are. From a state with no
/// round under way it begins a round that covers everything buffered, unless
/// nothing is buffered.
pub proof fn lemma_begin_flush_keeps_buffers(state: ApiState)
    requires
        state.wf(),
    ensures
        ({
            let (after, flushing) = state.spec_begin_flush();
            &&& after.wf()
            &&& after.logs == state.logs
            &&& after.spans == state.spans
            &&& after.tracker.current_item_count == 0
            &&& flushing == after.round is Some
            &&& (state.round is None && flushing ==> after.round_covers_all())
            &&& (state.round is None && !flushing ==> state.logs.len() == 0 && state.spans.len()
                == 0)
        }),
{
}

/// A step of the round leaves both buffers unchanged while the round is
/// still under way, and takes out of each exactly the records that the round
/// covered when it completes.
pub proof fn lemma_advance_keeps_or_removes(
    state: ApiState,
    logs: ResponseClass,
    spans: ResponseClass,
)
    requires
        state.wf(),
    ensures
        ({
            let (after, action) = state.spec_advance_flush(logs, spans);
            &&& after.wf()
            &&& after.tracker == state.tracker
            &&& (action is Done <==> after.round is None)
            &&& (after.round is Some ==> {
                &&& after.logs == state.logs
                &&& after.spans == state.spans
                &&& after.round->0.logs.end == state.round->0.logs.end
                &&& after.round->0.spans.end == state.round->0.spans.end
            })
            &&& (after.round is None && state.round is Some ==> {
                &&& after.logs == state.logs.skip(state.round->0.logs.end as int)
                &&& after.spans == state.spans.skip(state.round->0.spans.end as int)
            })
            &&& (after.round is None && state.round is None ==> after == state)
        }),
{
    if let Some(round) = state.round {
        lemma_send_invariant(round.logs, logs);
        lemma_send_invariant(round.spans, spans);
    }
}

/// Starting a flush with both buffers empty and no round under way does
/// nothing but zero the counter; with the counter at zero already it does
/// nothing at all.
pub proof fn lemma_flush_empty_is_noop(state: ApiState)
    requires
        state.round is None,
        state.logs.len() == 0,
        state.spans.len() == 0,
    ensures
        state.spec_begin_flush().1 == false,
        state.spec_begin_flush().0 == (ApiState { tracker: state.tracker.spec_reset(), ..state }),
        state.tracker.current_item_count == 0 ==> state.spec_begin_flush().0 == state,
        state.spec_begin_flush().0.spec_begin_flush() == state.spec_begin_flush(),
{
}

/// Where the endpoint accepts everything, a flush takes one step, which is
/// one request for each stream that has records, and empties both buffers.
pub proof fn lemma_all_accepted_takes_one_step(state: ApiState)
    requires
        state.wf(),
        state.round is None,
    ensures
        ({
            let (started, flushing) = state.spec_begin_flush();
            let (after, action) = started.spec_advance_flush(
                ResponseClass::Accepted,
                ResponseClass::Accepted,
            );
            &&& action is Done
            &&& after.round is None
            &&& after.logs.len() == 0
            &&& after.spans.len() == 0
            &&& flushing ==> {
                &&& started.spec_next_batch(RecordKind::Log) == if state.logs.len() == 0 {
                    None
                } else {
                    Some((0usize, state.logs.len() as usize))
                }
                &&& started.spec_next_batch(RecordKind::Span) == if state.spans.len() == 0 {
                    None
                } else {
                    Some((0usize, state.spans.len() as usize))
                }
            }
        }),
{
}

/// Where the endpoint limits the rate of one stream once, naming a delay,
/// and accepts everything else, a flush waits for that delay once and then
/// completes with both buffers empty.
pub proof fn lemma_rate_limited_once_waits_once(state: ApiState, secs: u64)
    requires
        state.wf(),
        state.round is None,
        state.logs.len() > 0,
    ensures
        ({
            let started = state.spec_begin_flush().0;
            let (limited, first) = started.spec_advance_flush(
                ResponseClass::RateLimited { retry_after: Some(secs) },
                ResponseClass::Accepted,
            );
            let (after, second) = limited.spec_advance_flush(
                ResponseClass::Accepted,
                ResponseClass::Accepted,
            );
            &&& first == FlushAction::Wait(secs)
            &&& limited.logs == state.logs
            &&& limited.spans == state.spans
            &&& limited.spec_next_batch(RecordKind::Log) == started.spec_next_batch(
                RecordKind::Log,
            )
            &&& second is Done
            &&& after.logs.len() == 0
            &&& after.spans.len() == 0
        }),
{
}

/// The state after `count` steps in which both streams failed for transient
/// reasons.
pub open spec fn after_failed_steps(state: ApiState, count: nat) -> ApiState
    decreases count,
{
    if count == 0 {
        state
    } else {
        after_failed_steps(state, (count - 1) as nat).spec_advance_flush(
            ResponseClass::Transient,
            ResponseClass::Transient,
        ).0
    }
}

/// What the step after `count` failed steps asks of the caller, where that
/// step fails as well.
pub open spec fn failed_step_action(state: ApiState, count: nat) -> FlushAction {
    after_failed_steps(state, count).spec_advance_flush(
        ResponseClass::Transient,
        ResponseClass::Transient,
    ).1
}

/// Whether `session`, made over `len` records, has failed `failures` times
/// and delivered nothing.
spec fn stuck_session(session: DeliverySession, len: nat, failures: nat) -> bool {
    &&& session.next == 0
    &&& session.end == len
    &&& session.batch_len == len
    &&& session.retry_count == if len == 0 {
        0
    } else {
        failures
    }
}

/// Whether `after` is `state` with a round under way that covers all of it
/// and has got nowhere in `failures` steps.
spec fn stuck_after(state: ApiState, after: ApiState, failures: nat) -> bool {
    &&& after.logs == state.logs
    &&& after.spans == state.spans
    &&& after.round matches Some(round)
    &&& stuck_session(round.logs, state.logs.len(), failures)
    &&& stuck_session(round.spans, state.spans.len(), failures)
}

/// Where the endpoint fails for transient reasons without end, a flush
/// retries at once, then after 1, 2, 4, 8 and 16 seconds, and gives up at
/// the seventh failure: the round is over and both buffers are empty, their
/// records lost.
pub proof fn lemma_failing_endpoint_is_abandoned(state: ApiState)
    requires
        state.wf(),
        state.round is None,
        state.logs.len() > 0 || state.spans.len() > 0,
    ensures
        ({
            let started = state.spec_begin_flush().0;
            &&& failed_step_action(started, 0) == FlushAction::Wait(0)
            &&& failed_step_action(started, 1) == FlushAction::Wait(1)
            &&& failed_step_action(started, 2) == FlushAction::Wait(2)
            &&& failed_step_action(started, 3) == FlushAction::Wait(4)
            &&& failed_step_action(started, 4) == FlushAction::Wait(8)
            &&& failed_step_action(started, 5) == FlushAction::Wait(16)
            &&& failed_step_action(started, 6) == FlushAction::Done
            &&& after_failed_steps(started, 6).logs == state.logs
            &&& after_failed_steps(started, 6).spans == state.spans
            &&& after_failed_steps(started, 7).round is None
            &&& after_failed_steps(started, 7).logs.len() == 0
            &&& after_failed_steps(started, 7).spans.len() == 0
        }),
{
    lemma2_to64();
    let started = state.spec_begin_flush().0;
    assert(after_failed_steps(started, 0) == started);
    assert(stuck_after(state, after_failed_steps(started, 0), 0));
    assert(stuck_after(state, after_failed_steps(started, 1), 1));
    assert(stuck_after(state, after_failed_steps(started, 2), 2));
    assert(stuck_after(state, after_failed_steps(started, 3), 3));
    assert(stuck_after(state, after_failed_steps(started, 4), 4));
    assert(stuck_after(state, after_failed_steps(started, 5), 5));
    assert(stuck_after(state, after_failed_steps(started, 6), 6));
    assert(after_failed_steps(started, 7).round is None);
}

/// The state after the steps of a round, given what the transport reported
/// at each step for the two streams.
pub open spec fn after_steps(state: ApiState, reports: Seq<(ResponseClass, ResponseClass)>) -> ApiState
    decreases reports.len(),
{
    if reports.len() == 0 {
        state
    } else {
        after_steps(state, reports.drop_last()).spec_advance_flush(
            reports.last().0,
            reports.last().1,
        ).0
    }
}

/// A flush started with no round under way, followed by any number of steps
/// and no push, leaves both buffers either unchanged, with the round still
/// under way, or empty, with the round completed.
pub proof fn lemma_flush_unchanged_or_empty(
    state: ApiState,
    reports: Seq<(ResponseClass, ResponseClass)>,
)
    requires
        state.wf(),
        state.round is None,
    ensures
        ({
            let after = after_steps(state.spec_begin_flush().0, reports);
            &&& after.wf()
            &&& (after.round is Some ==> after.logs == state.logs && after.spans == state.spans
                && after.round_covers_all())
            &&& (after.round is None ==> after.logs.len() == 0 && after.spans.len() == 0)
        }),
    decreases reports.len(),
{
    lemma_begin_flush_keeps_buffers(state);
    if reports.len() > 0 {
        lemma_flush_unchanged_or_empty(state, reports.drop_last());
        let before = after_steps(state.spec_begin_flush().0, reports.drop_last());
        lemma_advance_keeps_or_removes(before, reports.last().0, reports.last().1);
    }
}

/// Through any sequence of pushes, flush starts and steps, each buffer holds
/// exactly the records that were there or were pushed, in order, less those
/// that completed rounds have covered: its length is the number of records
/// not yet covered by a completed flush.
pub proof fn lemma_buffers_hold_uncovered(state: ApiState, events: Seq<Event>)
    requires
        state.wf(),
        state.logs.len() + events.len() <= usize::MAX,
        state.spans.len() + events.len() <= usize::MAX,
    ensures
        ({
            let after = state.spec_run(events);
            &&& after.wf()
            &&& state.covered_logs(events) <= state.logs.len() + push_count(events)
            &&& state.covered_spans(events) <= state.spans.len() + push_count(events)
            &&& after.logs == (state.logs + pushed_logs(events)).skip(
                state.covered_logs(events) as int,
            )
            &&& after.spans == (state.spans + pushed_spans(events)).skip(
                state.covered_spans(events) as int,
            )
            &&& after.logs.len() == state.logs.len() + push_count(events) - state.covered_logs(
                events,
            )
            &&& after.spans.len() == state.spans.len() + push_count(events) - state.covered_spans(
                events,
            )
        }),
    decreases events.len(),
{
    lemma_pushed_len(events);
    if events.len() == 0 {
        assert((state.logs + pushed_logs(events)).skip(0) =~= state.logs);
        assert((state.spans + pushed_spans(events)).skip(0) =~= state.spans);
    } else {
        let earlier = events.drop_last();
        lemma_buffers_hold_uncovered(state, earlier);
        lemma_pushed_len(earlier);
        let before = state.spec_run(earlier);
        let after = state.spec_run(events);
        let all_logs = state.logs + pushed_logs(earlier);
        let all_spans = state.spans + pushed_spans(earlier);
        let done_logs = state.covered_logs(earlier) as int;
        let done_spans = state.covered_spans(earlier) as int;
        match events.last() {
            Event::Push { log, span, now } => {
                lemma_push_appends(before, log, span, now);
                assert(after.logs =~= (state.logs + pushed_logs(events)).skip(done_logs));
                assert(after.spans =~= (state.spans + pushed_spans(events)).skip(done_spans));
            },
            Event::BeginFlush => {
                lemma_begin_flush_keeps_buffers(before);
            },
            Event::Advance { logs, spans } => {
                lemma_advance_keeps_or_removes(before, logs, spans);
                if before.completes_round(events.last()) {
                    let round = before.round->0;
                    assert(after.logs =~= all_logs.skip(done_logs + round.logs.end));
                    assert(after.spans =~= all_spans.skip(done_spans + round.spans.end));
                }
            },
        }
    }
}

} // verus!
