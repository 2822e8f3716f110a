//! The exporter: two buffers, one batch tracker, and the flush round that
//! drives a delivery session per buffer to joint completion.
//!
//! The exporter issues no request and never sleeps. `push` and `begin_flush`
//! say when a round starts; `next_request` says what to send for each stream;
//! `advance_flush` takes what the transport reported for both and says
//! whether to wait, to go on, or that the round is over.

use crate::endpoint::{ApiEndpoint, RecordKind};
use crate::request::{build_request, payloads, Request};
use crate::response::Outcome;
use crate::round::{combine, FlushAction, FlushRound};
use crate::session::DeliverySession;
use crate::state::{spec_from_key, ApiState, NextRequestView, PushOutcome, DEFAULT_MIN_ITEMS};
use crate::tracker::{BatchMode, BatchTracker};
use vstd::prelude::*;
use vstd::std_specs::convert::FromSpecImpl;
use vstd::string::StringExecFns;

verus! {

/// What to send next for one stream.
#[derive(Debug)]
pub enum NextRequest {
    /// Nothing: no round is under way, or nothing remains of this stream.
    Nothing,
    /// This request.
    Send(Request),
    /// A batch is due, but its body could not be compressed.
    EncodingFailed,
}

impl View for NextRequest {
    type V = NextRequestView;

    open spec fn view(&self) -> NextRequestView {
        match self {
            NextRequest::Nothing => NextRequestView::Nothing,
            NextRequest::Send(request) => NextRequestView::Send(request@),
            NextRequest::EncodingFailed => NextRequestView::EncodingFailed,
        }
    }
}

/// The exporter.
pub struct Api {
    /// Endpoint for logs.
    pub log_endpoint: ApiEndpoint,
    /// Endpoint for traces.
    pub trace_endpoint: ApiEndpoint,
    /// API key.
    pub key: String,
    tracker: BatchTracker,
    logs_queue: Vec<Vec<u8>>,
    spans_queue: Vec<Vec<u8>>,
    round: Option<FlushRound>,
}

impl View for Api {
    type V = ApiState;

    closed spec fn view(&self) -> ApiState {
        ApiState {
            key: self.key@,
            log_endpoint: self.log_endpoint,
            trace_endpoint: self.trace_endpoint,
            logs: payloads(self.logs_queue@),
            spans: payloads(self.spans_queue@),
            tracker: self.tracker,
            round: self.round,
        }
    }
}

impl Api {
    /// Whether the exporter's state is well formed. Every constructor makes
    /// it so and every method keeps it so; the fields that it speaks of are
    /// private, so that nothing else can undo it.
    pub open spec fn wf(&self) -> bool {
        self@.wf()
    }

    /// An exporter with empty buffers that batches under `mode`.
    pub fn new(key: String, log_endpoint: ApiEndpoint, trace_endpoint: ApiEndpoint, mode: BatchMode) -> (api:
        Api)
        ensures
            api.wf(),
            api@ == ApiState::spec_new(key@, log_endpoint, trace_endpoint, mode),
    {
        let api = Api {
            log_endpoint,
            trace_endpoint,
            key,
            tracker: BatchTracker::new(mode, 0),
            logs_queue: Vec::new(),
            spans_queue: Vec::new(),
            round: None,
        };
        proof {
            assert(api@.logs =~= Seq::<Seq<u8>>::empty());
            assert(api@.spans =~= Seq::<Seq<u8>>::empty());
        }
        api
    }

    /// The number of buffered log records.
    pub fn logs_len(&self) -> (len: usize)
        ensures
            len == self@.logs.len(),
    {
        self.logs_queue.len()
    }

    /// The number of buffered span records.
    pub fn spans_len(&self) -> (len: usize)
        ensures
            len == self@.spans.len(),
    {
        self.spans_queue.len()
    }

    /// The batch tracker as it stands.
    pub fn tracker(&self) -> (tracker: BatchTracker)
        ensures
            tracker == self@.tracker,
    {
        self.tracker
    }

    /// Whether a flush round is under way.
    pub fn is_flushing(&self) -> (flushing: bool)
        ensures
            flushing == self@.round is Some,
    {
        self.round.is_some()
    }

    /// Appends one serialized log record and one serialized span record at
    /// time `now`, and starts a flush if that completes the batch.
    pub fn push(&mut self, log: Vec<u8>, span: Vec<u8>, now: u64) -> (outcome: PushOutcome)
        requires
            old(self).wf(),
            old(self)@.tracker.current_item_count + 2 <= usize::MAX,
        ensures
            final(self).wf(),
            (final(self)@, outcome) == old(self)@.spec_push(log@, span@, now),
            final(self)@.logs == old(self)@.logs.push(log@),
            final(self)@.spans == old(self)@.spans.push(span@),
    {
        self.logs_queue.push(log);
        self.spans_queue.push(span);
        self.tracker.add_new_items(2, now);
        proof {
            assert(payloads(self.logs_queue@) =~= old(self)@.logs.push(log@));
            assert(payloads(self.spans_queue@) =~= old(self)@.spans.push(span@));
            assert(self.logs_queue@.len() == self.logs_queue.len());
            assert(self.spans_queue@.len() == self.spans_queue.len());
        }
        if self.tracker.is_complete(now) {
            self.begin_flush();
            PushOutcome::Flushing
        } else {
            PushOutcome::Pending(self.tracker.timeout_future())
        }
    }

    /// Starts a flush: resets the tracker and, unless a round is under way
    /// already or both buffers are empty, begins a round over the buffers as
    /// they stand. Says whether a round is under way afterwards.
    pub fn begin_flush(&mut self) -> (flushing: bool)
        requires
            old(self).wf(),
        ensures
            final(self).wf(),
            (final(self)@, flushing) == old(self)@.spec_begin_flush(),
            final(self)@.logs == old(self)@.logs,
            final(self)@.spans == old(self)@.spans,
    {
        self.tracker.reset();
        if self.round.is_some() {
            true
        } else if self.logs_queue.len() == 0 && self.spans_queue.len() == 0 {
            false
        } else {
            self.round = Some(
                FlushRound {
                    logs: DeliverySession::new(self.logs_queue.len()),
                    spans: DeliverySession::new(self.spans_queue.len()),
                },
            );
            true
        }
    }

    /// The request to issue next for the stream of `kind`.
    pub fn next_request(&self, kind: RecordKind) -> (next: NextRequest)
        requires
            self.wf(),
        ensures
            next@ == self@.spec_next_request(kind),
    {
        match self.round {
            None => NextRequest::Nothing,
            Some(round) => {
                let batch = match kind {
                    RecordKind::Log => round.logs.next_batch(),
                    RecordKind::Span => round.spans.next_batch(),
                };
                match batch {
                    None => NextRequest::Nothing,
                    Some((from, to)) => {
                        let built = match kind {
                            RecordKind::Log => {
                                proof {
                                    assert(payloads(
                                        self.logs_queue@.subrange(from as int, to as int),
                                    ) =~= self@.logs.subrange(from as int, to as int));
                                }
                                build_request(
                                    kind,
                                    &self.log_endpoint,
                                    &self.key,
                                    &self.logs_queue,
                                    from,
                                    to,
                                )
                            },
                            RecordKind::Span => {
                                proof {
                                    assert(payloads(
                                        self.spans_queue@.subrange(from as int, to as int),
                                    ) =~= self@.spans.subrange(from as int, to as int));
                                }
                                build_request(
                                    kind,
                                    &self.trace_endpoint,
                                    &self.key,
                                    &self.spans_queue,
                                    from,
                                    to,
                                )
                            },
                        };
                        match built {
                            Some(request) => NextRequest::Send(request),
                            None => NextRequest::EncodingFailed,
                        }
                    },
                }
            },
        }
    }

    /// Takes one step of the round under way, given what the transport
    /// reported for the request of each stream. An outcome given for a stream
    /// of which nothing remained is ignored.
    pub fn advance_flush(&mut self, logs: &Outcome, spans: &Outcome) -> (action: FlushAction)
        requires
            old(self).wf(),
        ensures
            final(self).wf(),
            (final(self)@, action) == old(self)@.spec_advance_flush(
                logs.spec_classify(),
                spans.spec_classify(),
            ),
            action is Done <==> final(self)@.round is None,
            final(self)@.tracker == old(self)@.tracker,
    {
        match self.round {
            None => FlushAction::Done,
            Some(round) => {
                let mut log_session = round.logs;
                let mut span_session = round.spans;
                let log_status = log_session.send(logs);
                let span_status = span_session.send(spans);
                let action = combine(log_status, span_status);
                match action {
                    FlushAction::Done => {
                        let rest_logs = self.logs_queue.split_off(round.logs.end);
                        let rest_spans = self.spans_queue.split_off(round.spans.end);
                        self.logs_queue = rest_logs;
                        self.spans_queue = rest_spans;
                        self.round = None;
                        proof {
                            assert(payloads(self.logs_queue@) =~= old(self)@.logs.skip(
                                round.logs.end as int,
                            ));
                            assert(payloads(self.spans_queue@) =~= old(self)@.spans.skip(
                                round.spans.end as int,
                            ));
                        }
                    },
                    _ => {
                        self.round = Some(FlushRound { logs: log_session, spans: span_session });
                    },
                }
                action
            },
        }
    }
}

impl Default for Api {
    /// An exporter for the United States endpoints with an empty key, which
    /// flushes once `DEFAULT_MIN_ITEMS` items have accumulated.
    fn default() -> (api: Api)
        ensures
            api.wf(),
            api@ == spec_from_key(Seq::empty(), ApiEndpoint::US),
    {
        Api::new(
            String::new(),
            ApiEndpoint::US,
            ApiEndpoint::US,
            BatchMode::Size { min_items: DEFAULT_MIN_ITEMS },
        )
    }
}

// An exporter holds its buffers, and no specification value can be written
// down for a buffer: the conversions below state their results through the
// view instead.
impl FromSpecImpl<String> for Api {
    open spec fn obeys_from_spec() -> bool {
        false
    }

    open spec fn from_spec(key: String) -> Api {
        arbitrary()
    }
}

impl From<String> for Api {
    /// An exporter for the United States endpoints under the API key `key`.
    fn from(key: String) -> (api: Api)
        ensures
            api.wf(),
            api@ == spec_from_key(key@, ApiEndpoint::US),
    {
        Api::new(
            key,
            ApiEndpoint::US,
            ApiEndpoint::US,
            BatchMode::Size { min_items: DEFAULT_MIN_ITEMS },
        )
    }
}

impl<'a> FromSpecImpl<&'a str> for Api {
    open spec fn obeys_from_spec() -> bool {
        false
    }

    open spec fn from_spec(key: &'a str) -> Api {
        arbitrary()
    }
}

impl<'a> From<&'a str> for Api {
    /// An exporter for the United States endpoints under the API key `key`.
    fn from(key: &'a str) -> (api: Api)
        ensures
            api.wf(),
            api@ == spec_from_key(key@, ApiEndpoint::US),
    {
        Api::new(
            String::from_str(key),
            ApiEndpoint::US,
            ApiEndpoint::US,
            BatchMode::Size { min_items: DEFAULT_MIN_ITEMS },
        )
    }
}

impl FromSpecImpl<(String, ApiEndpoint)> for Api {
    open spec fn obeys_from_spec() -> bool {
        false
    }

    open spec fn from_spec(pair: (String, ApiEndpoint)) -> Api {
        arbitrary()
    }
}

impl From<(String, ApiEndpoint)> for Api {
    /// An exporter that sends both record kinds to the endpoint `pair.1` under
    /// the API key `pair.0`.
    fn from(pair: (String, ApiEndpoint)) -> (api: Api)
        ensures
            api.wf(),
            api@ == spec_from_key(pair.0@, pair.1),
    {
        let log_endpoint = pair.1.clone();
        Api::new(
            pair.0,
            log_endpoint,
            pair.1,
            BatchMode::Size { min_items: DEFAULT_MIN_ITEMS },
        )
    }
}

} // verus!
