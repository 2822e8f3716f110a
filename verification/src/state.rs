//! The exporter's state as mathematical data, and what each call does to
//! it. The contracts of the exporter's functions are stated over this model.

use crate::endpoint::{ApiEndpoint, RecordKind};
use crate::request::{spec_build_request, RequestView};
use crate::response::ResponseClass;
use crate::round::{spec_combine, FlushAction, FlushRound};
use crate::session::DeliverySession;
use crate::tracker::{BatchMode, BatchTracker};
use vstd::prelude::*;

verus! {

/// The number of items that completes a batch where no other policy is
/// given: ten pushes of one log and one span each.
pub const DEFAULT_MIN_ITEMS: usize = 20;

/// What a push led to.
#[derive(Clone, Copy, Debug)]
pub enum PushOutcome {
    /// The batch is complete and a flush round is under way: the caller must
    /// drive it.
    Flushing,
    /// The batch is not complete. Where a wait is given, in milliseconds, the
    /// caller should look again after it even if nothing is pushed.
    Pending(Option<u64>),
}

/// What to send next for one stream, as mathematical data.
pub enum NextRequestView {
    /// Nothing: no round is under way, or nothing remains of this stream.
    Nothing,
    /// This request.
    Send(RequestView),
    /// A batch is due, but its body could not be compressed.
    EncodingFailed,
}

/// The exporter's state as mathematical data: the configuration, the
/// serialized records of each buffer in the order pushed, the tracker, and
/// the round under way.
pub struct ApiState {
    pub key: Seq<char>,
    pub log_endpoint: ApiEndpoint,
    pub trace_endpoint: ApiEndpoint,
    pub logs: Seq<Seq<u8>>,
    pub spans: Seq<Seq<u8>>,
    pub tracker: BatchTracker,
    pub round: Option<FlushRound>,
}

impl ApiState {
    /// A state is well formed when the buffers fit in memory and a round
    /// under way covers a prefix of each buffer, with well-formed sessions of
    /// which at least one has items left.
    pub open spec fn wf(self) -> bool {
        &&& self.logs.len() <= usize::MAX
        &&& self.spans.len() <= usize::MAX
        &&& self.round matches Some(round) ==> {
            &&& round.logs.wf()
            &&& round.spans.wf()
            &&& round.logs.end <= self.logs.len()
            &&& round.spans.end <= self.spans.len()
            &&& (round.logs.remaining() > 0 || round.spans.remaining() > 0)
        }
    }

    /// Whether the round under way covers everything that is buffered.
    pub open spec fn round_covers_all(self) -> bool {
        self.round matches Some(round) && round.logs.end == self.logs.len() && round.spans.end
            == self.spans.len()
    }

    /// The state with nothing buffered, nothing counted and no round.
    pub open spec fn spec_new(
        key: Seq<char>,
        log_endpoint: ApiEndpoint,
        trace_endpoint: ApiEndpoint,
        mode: BatchMode,
    ) -> ApiState {
        ApiState {
            key,
            log_endpoint,
            trace_endpoint,
            logs: Seq::empty(),
            spans: Seq::empty(),
            tracker: BatchTracker { mode, last_update_time: 0, current_item_count: 0 },
            round: None,
        }
    }

    /// Starting a flush: the tracker is reset. A round under way goes on. With
    /// no round under way and both buffers empty nothing else happens.
    /// Otherwise a round begins with a fresh session over each buffer as it
    /// stands. The flag says whether a round is under way afterwards.
    pub open spec fn spec_begin_flush(self) -> (ApiState, bool) {
        let tracker = self.tracker.spec_reset();
        if self.round is Some {
            (ApiState { tracker, ..self }, true)
        } else if self.logs.len() == 0 && self.spans.len() == 0 {
            (ApiState { tracker, ..self }, false)
        } else {
            (
                ApiState {
                    tracker,
                    round: Some(
                        FlushRound {
                            logs: DeliverySession::spec_new(self.logs.len() as usize),
                            spans: DeliverySession::spec_new(self.spans.len() as usize),
                        },
                    ),
                    ..self
                },
                true,
            )
        }
    }

    /// Pushing one log and one span at time `now`: each is appended to its
    /// buffer and the tracker counts two more items. If that completes the
    /// batch a flush starts; if not, the tracker's wait is handed out.
    pub open spec fn spec_push(self, log: Seq<u8>, span: Seq<u8>, now: u64) -> (
        ApiState,
        PushOutcome,
    ) {
        let pushed = ApiState {
            logs: self.logs.push(log),
            spans: self.spans.push(span),
            tracker: self.tracker.spec_add_new_items(2, now),
            ..self
        };
        if pushed.tracker.spec_is_complete(now) {
            (pushed.spec_begin_flush().0, PushOutcome::Flushing)
        } else {
            (pushed, PushOutcome::Pending(pushed.tracker.spec_timeout_future()))
        }
    }

    /// One step of the round: each session takes what the transport reported
    /// for it, and the two statuses combine. When both have finished, the
    /// records that the round covered leave the buffers and the round ends;
    /// until then the buffers stay as they are. With no round under way
    /// nothing happens.
    pub open spec fn spec_advance_flush(self, logs: ResponseClass, spans: ResponseClass) -> (
        ApiState,
        FlushAction,
    ) {
        match self.round {
            None => (self, FlushAction::Done),
            Some(round) => {
                let (log_session, log_status) = round.logs.spec_send(logs);
                let (span_session, span_status) = round.spans.spec_send(spans);
                let action = spec_combine(log_status, span_status);
                if action is Done {
                    (
                        ApiState {
                            logs: self.logs.skip(round.logs.end as int),
                            spans: self.spans.skip(round.spans.end as int),
                            round: None,
                            ..self
                        },
                        action,
                    )
                } else {
                    (
                        ApiState {
                            round: Some(FlushRound { logs: log_session, spans: span_session }),
                            ..self
                        },
                        action,
                    )
                }
            },
        }
    }

    /// The positions in its buffer of the batch to send next for `kind`, or
    /// `None` where nothing is due.
    pub open spec fn spec_next_batch(self, kind: RecordKind) -> Option<(usize, usize)> {
        match self.round {
            None => None,
            Some(round) => match kind {
                RecordKind::Log => round.logs.spec_next_batch(),
                RecordKind::Span => round.spans.spec_next_batch(),
            },
        }
    }

    /// The buffer of `kind`.
    pub open spec fn buffer(self, kind: RecordKind) -> Seq<Seq<u8>> {
        match kind {
            RecordKind::Log => self.logs,
            RecordKind::Span => self.spans,
        }
    }

    /// The endpoint to which records of `kind` go.
    pub open spec fn endpoint(self, kind: RecordKind) -> ApiEndpoint {
        match kind {
            RecordKind::Log => self.log_endpoint,
            RecordKind::Span => self.trace_endpoint,
        }
    }

    /// What to send next for `kind`: the request for the next batch of the
    /// session of that kind, built from the records at the batch's positions.
    pub open spec fn spec_next_request(self, kind: RecordKind) -> NextRequestView {
        match self.spec_next_batch(kind) {
            None => NextRequestView::Nothing,
            Some((from, to)) => match spec_build_request(
                kind,
                self.endpoint(kind),
                self.key,
                self.buffer(kind).subrange(from as int, to as int),
            ) {
                Some(request) => NextRequestView::Send(request),
                None => NextRequestView::EncodingFailed,
            },
        }
    }
}

/// The state of an exporter made from a key and an endpoint alone: both
/// record kinds go to `endpoint`, and a batch is complete at
/// `DEFAULT_MIN_ITEMS` items.
pub open spec fn spec_from_key(key: Seq<char>, endpoint: ApiEndpoint) -> ApiState {
    ApiState::spec_new(key, endpoint, endpoint, BatchMode::Size { min_items: DEFAULT_MIN_ITEMS })
}

} // verus!
