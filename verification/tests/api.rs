use flate2::read::GzDecoder;
use newrelic_exporter::{
    combine, Api, ApiEndpoint, BatchMode, FlushAction, NextRequest, Outcome, PushOutcome,
    RecordKind, Request, SessionStatus, DEFAULT_MIN_ITEMS,
};
use std::io::Read;

fn status(code: u16) -> Outcome {
    Outcome::Status { code, retry_after: None }
}

fn body_of(request: &Request) -> String {
    let mut out = String::new();
    GzDecoder::new(&request.body[..]).read_to_string(&mut out).unwrap();
    out
}

/// The number of elements of a JSON array whose elements are numbers.
fn batch_size(request: &Request) -> usize {
    let body = body_of(request);
    assert!(body.starts_with('[') && body.ends_with(']'));
    body[1..body.len() - 1].split(',').filter(|item| !item.is_empty()).count()
}

fn size_mode(min_items: usize) -> Api {
    Api::new("key".to_string(), ApiEndpoint::US, ApiEndpoint::US, BatchMode::Size { min_items })
}

fn push_numbers(api: &mut Api, count: usize) {
    for i in 0..count {
        let log = format!("{}", i).into_bytes();
        let span = format!("{}", 100 + i).into_bytes();
        assert!(matches!(api.push(log, span, i as u64), PushOutcome::Pending(None)));
    }
}

struct Round {
    log_bodies: Vec<String>,
    span_bodies: Vec<String>,
    waits: Vec<u64>,
    steps: usize,
}

/// Drives the round under way to its end against a simulated endpoint.
fn drive(api: &mut Api, respond: &mut dyn FnMut(RecordKind, &Request) -> Outcome) -> Round {
    let mut round = Round { log_bodies: vec![], span_bodies: vec![], waits: vec![], steps: 0 };
    loop {
        assert!(api.is_flushing());
        let logs = match api.next_request(RecordKind::Log) {
            NextRequest::Send(request) => {
                round.log_bodies.push(body_of(&request));
                respond(RecordKind::Log, &request)
            }
            NextRequest::Nothing => Outcome::TransportError,
            NextRequest::EncodingFailed => panic!("the body could not be compressed"),
        };
        let spans = match api.next_request(RecordKind::Span) {
            NextRequest::Send(request) => {
                round.span_bodies.push(body_of(&request));
                respond(RecordKind::Span, &request)
            }
            NextRequest::Nothing => Outcome::TransportError,
            NextRequest::EncodingFailed => panic!("the body could not be compressed"),
        };
        round.steps += 1;
        assert!(round.steps < 1000);
        match api.advance_flush(&logs, &spans) {
            FlushAction::Wait(secs) => round.waits.push(secs),
            FlushAction::Continue => {}
            FlushAction::Done => break,
        }
    }
    assert!(!api.is_flushing());
    round
}

#[test]
fn new_exporter_is_empty() {
    let api = size_mode(4);
    assert_eq!(api.key, "key");
    assert_eq!((api.logs_len(), api.spans_len()), (0, 0));
    assert!(!api.is_flushing());
    assert_eq!(api.tracker().current_item_count, 0);
    assert!(matches!(api.next_request(RecordKind::Log), NextRequest::Nothing));
    assert!(matches!(api.next_request(RecordKind::Span), NextRequest::Nothing));
}

#[test]
fn default_exporter() {
    let api = Api::default();
    assert_eq!(api.key, "");
    assert!(matches!(api.log_endpoint, ApiEndpoint::US));
    assert!(matches!(api.trace_endpoint, ApiEndpoint::US));
    assert!(matches!(api.tracker().mode, BatchMode::Size { min_items: DEFAULT_MIN_ITEMS }));
    assert_eq!(DEFAULT_MIN_ITEMS, 20);
    assert_eq!((api.logs_len(), api.spans_len()), (0, 0));
}

#[test]
fn exporter_from_key() {
    let api = Api::from("secret");
    assert_eq!(api.key, "secret");
    assert!(matches!(api.log_endpoint, ApiEndpoint::US));
    assert!(matches!(api.trace_endpoint, ApiEndpoint::US));
    let api = Api::from("secret".to_string());
    assert_eq!(api.key, "secret");
    assert!(matches!(api.tracker().mode, BatchMode::Size { min_items: 20 }));
}

#[test]
fn exporter_from_key_and_endpoint() {
    let api = Api::from(("secret".to_string(), ApiEndpoint::EU));
    assert_eq!(api.key, "secret");
    assert!(matches!(api.log_endpoint, ApiEndpoint::EU));
    assert!(matches!(api.trace_endpoint, ApiEndpoint::EU));
    let api = Api::from(("secret".to_string(), ApiEndpoint::Custom("http://here".to_string())));
    assert!(matches!(&api.log_endpoint, ApiEndpoint::Custom(domain) if domain == "http://here"));
    assert!(matches!(&api.trace_endpoint, ApiEndpoint::Custom(domain) if domain == "http://here"));
}

#[test]
fn default_exporter_flushes_at_the_tenth_push() {
    let mut api = Api::default();
    for i in 0..9 {
        assert!(matches!(api.push(vec![b'1'], vec![b'2'], i), PushOutcome::Pending(None)));
    }
    assert!(matches!(api.push(vec![b'1'], vec![b'2'], 9), PushOutcome::Flushing));
    assert_eq!((api.logs_len(), api.spans_len()), (10, 10));
}

#[test]
fn push_buffers_and_counts_two_per_call() {
    let mut api = size_mode(100);
    push_numbers(&mut api, 3);
    assert_eq!((api.logs_len(), api.spans_len()), (3, 3));
    assert_eq!(api.tracker().current_item_count, 6);
    assert_eq!(api.tracker().last_update_time, 2);
    assert!(!api.is_flushing());
}

#[test]
fn push_hands_out_the_wait_in_time_mode() {
    let mut api = Api::new(
        "key".to_string(),
        ApiEndpoint::US,
        ApiEndpoint::US,
        BatchMode::Time { timeout_ms: 250, max_items: 4 },
    );
    assert!(matches!(api.push(vec![b'1'], vec![b'2'], 1_000), PushOutcome::Pending(Some(250))));
    assert!(matches!(api.push(vec![b'3'], vec![b'4'], 1_100), PushOutcome::Flushing));
    assert!(api.is_flushing());
    assert_eq!(api.tracker().current_item_count, 0);
}

#[test]
fn push_after_the_timeout_still_waits_for_the_next_look() {
    let mut api = Api::new(
        "key".to_string(),
        ApiEndpoint::US,
        ApiEndpoint::US,
        BatchMode::Time { timeout_ms: 250, max_items: 100 },
    );
    assert!(matches!(api.push(vec![b'1'], vec![b'2'], 1_000), PushOutcome::Pending(Some(250))));
    assert!(matches!(api.push(vec![b'3'], vec![b'4'], 5_000), PushOutcome::Pending(Some(250))));
    assert!(api.tracker().is_complete(5_250));
}

#[test]
fn push_that_completes_the_batch_starts_a_round_over_everything() {
    let mut api = size_mode(4);
    assert!(matches!(api.push(b"1".to_vec(), b"101".to_vec(), 0), PushOutcome::Pending(None)));
    assert!(matches!(api.push(b"2".to_vec(), b"102".to_vec(), 1), PushOutcome::Flushing));
    assert!(api.is_flushing());
    assert_eq!((api.logs_len(), api.spans_len()), (2, 2));
    match api.next_request(RecordKind::Log) {
        NextRequest::Send(request) => {
            assert_eq!(request.url, "https://log-api.newrelic.com/log/v1");
            assert_eq!(body_of(&request), "[1,2]");
        }
        _ => panic!("no request for the logs"),
    }
    match api.next_request(RecordKind::Span) {
        NextRequest::Send(request) => {
            assert_eq!(request.url, "https://trace-api.newrelic.com/trace/v1");
            assert_eq!(request.headers.len(), 5);
            assert_eq!(body_of(&request), "[101,102]");
        }
        _ => panic!("no request for the spans"),
    }
}

#[test]
fn each_kind_goes_to_its_own_endpoint() {
    let mut api = Api::new(
        "key".to_string(),
        ApiEndpoint::EU,
        ApiEndpoint::Custom("http://traces.local".to_string()),
        BatchMode::Size { min_items: 2 },
    );
    assert!(matches!(api.push(b"1".to_vec(), b"2".to_vec(), 0), PushOutcome::Flushing));
    match api.next_request(RecordKind::Log) {
        NextRequest::Send(request) => {
            assert_eq!(request.url, "https://log-api.eu.newrelic.com/log/v1")
        }
        _ => panic!("no request for the logs"),
    }
    match api.next_request(RecordKind::Span) {
        NextRequest::Send(request) => assert_eq!(request.url, "http://traces.local/trace/v1"),
        _ => panic!("no request for the spans"),
    }
}

#[test]
fn flush_on_empty_buffers_is_a_no_op() {
    let mut api = size_mode(4);
    let before = api.tracker();
    assert!(!api.begin_flush());
    assert!(!api.begin_flush());
    assert!(!api.is_flushing());
    assert_eq!((api.logs_len(), api.spans_len()), (0, 0));
    let after = api.tracker();
    assert_eq!(after.current_item_count, before.current_item_count);
    assert_eq!(after.last_update_time, before.last_update_time);
    assert!(matches!(api.advance_flush(&status(200), &status(200)), FlushAction::Done));
    assert_eq!((api.logs_len(), api.spans_len()), (0, 0));
}

#[test]
fn flush_resets_the_tracker() {
    let mut api = size_mode(100);
    push_numbers(&mut api, 3);
    assert!(api.begin_flush());
    assert_eq!(api.tracker().current_item_count, 0);
    assert_eq!(api.tracker().last_update_time, 2);
    assert_eq!((api.logs_len(), api.spans_len()), (3, 3));
}

#[test]
fn success_for_all_clears_both_buffers_in_one_round_trip() {
    let mut api = size_mode(100);
    push_numbers(&mut api, 5);
    assert!(api.begin_flush());
    let round = drive(&mut api, &mut |_, _| status(200));
    assert_eq!(round.steps, 1);
    assert_eq!(round.log_bodies, vec!["[0,1,2,3,4]"]);
    assert_eq!(round.span_bodies, vec!["[100,101,102,103,104]"]);
    assert!(round.waits.is_empty());
    assert_eq!((api.logs_len(), api.spans_len()), (0, 0));
}

#[test]
fn too_large_above_one_item_delivers_singletons() {
    let mut api = size_mode(100);
    push_numbers(&mut api, 5);
    assert!(api.begin_flush());
    let round = drive(&mut api, &mut |_, request| {
        if batch_size(request) > 1 {
            status(413)
        } else {
            status(200)
        }
    });
    assert_eq!(round.log_bodies, vec!["[0,1,2,3,4]", "[0,1]", "[0]", "[1]", "[2]", "[3]", "[4]"]);
    assert_eq!(
        round.span_bodies,
        vec!["[100,101,102,103,104]", "[100,101]", "[100]", "[101]", "[102]", "[103]", "[104]"]
    );
    assert!(round.waits.is_empty());
    assert_eq!((api.logs_len(), api.spans_len()), (0, 0));
}

#[test]
fn rate_limit_suspends_once_then_completes() {
    let mut api = size_mode(100);
    push_numbers(&mut api, 2);
    assert!(api.begin_flush());
    let mut limited = 0;
    let round = drive(&mut api, &mut |kind, _| {
        if matches!(kind, RecordKind::Log) && limited == 0 {
            limited += 1;
            Outcome::Status { code: 429, retry_after: Some(b"3".to_vec()) }
        } else {
            status(200)
        }
    });
    assert_eq!(round.waits, vec![3]);
    assert_eq!(round.log_bodies, vec!["[0,1]", "[0,1]"]);
    assert_eq!(round.span_bodies, vec!["[100,101]"]);
    assert_eq!((api.logs_len(), api.spans_len()), (0, 0));
}

#[test]
fn server_errors_forever_lose_the_data_after_bounded_retries() {
    let mut api = size_mode(100);
    push_numbers(&mut api, 3);
    assert!(api.begin_flush());
    let round = drive(&mut api, &mut |_, _| status(500));
    assert_eq!(round.waits, vec![0, 1, 2, 4, 8, 16]);
    assert_eq!(round.waits.iter().sum::<u64>(), 31);
    assert_eq!(round.log_bodies.len(), 7);
    assert_eq!(round.span_bodies.len(), 7);
    assert_eq!(round.steps, 7);
    assert_eq!((api.logs_len(), api.spans_len()), (0, 0));
}

#[test]
fn the_slower_stream_sets_the_pace() {
    let mut api = size_mode(100);
    push_numbers(&mut api, 2);
    assert!(api.begin_flush());
    let round = drive(&mut api, &mut |kind, _| match kind {
        RecordKind::Log => status(200),
        RecordKind::Span => status(500),
    });
    assert_eq!(round.log_bodies, vec!["[0,1]"]);
    assert_eq!(round.span_bodies.len(), 7);
    assert_eq!(round.waits, vec![0, 1, 2, 4, 8, 16]);
    assert_eq!((api.logs_len(), api.spans_len()), (0, 0));
}

#[test]
fn buffers_stay_as_they_are_while_the_round_is_under_way() {
    let mut api = size_mode(100);
    push_numbers(&mut api, 4);
    assert!(api.begin_flush());
    assert!(matches!(api.advance_flush(&status(413), &status(500)), FlushAction::Wait(0)));
    assert_eq!((api.logs_len(), api.spans_len()), (4, 4));
    assert!(matches!(api.advance_flush(&status(200), &status(413)), FlushAction::Continue));
    assert_eq!((api.logs_len(), api.spans_len()), (4, 4));
    assert!(api.is_flushing());
    assert!(matches!(api.advance_flush(&status(200), &status(400)), FlushAction::Done));
    assert_eq!((api.logs_len(), api.spans_len()), (0, 0));
    assert!(!api.is_flushing());
}

#[test]
fn records_pushed_during_a_round_wait_for_the_next() {
    let mut api = size_mode(100);
    push_numbers(&mut api, 2);
    assert!(api.begin_flush());
    assert!(matches!(api.push(b"7".to_vec(), b"107".to_vec(), 50), PushOutcome::Pending(None)));
    assert_eq!((api.logs_len(), api.spans_len()), (3, 3));
    let round = drive(&mut api, &mut |_, _| status(200));
    assert_eq!(round.log_bodies, vec!["[0,1]"]);
    assert_eq!(round.span_bodies, vec!["[100,101]"]);
    assert_eq!((api.logs_len(), api.spans_len()), (1, 1));
    assert_eq!(api.tracker().current_item_count, 2);
    assert!(api.begin_flush());
    let round = drive(&mut api, &mut |_, _| status(200));
    assert_eq!(round.log_bodies, vec!["[7]"]);
    assert_eq!(round.span_bodies, vec!["[107]"]);
    assert_eq!((api.logs_len(), api.spans_len()), (0, 0));
}

#[test]
fn starting_a_flush_during_a_round_does_not_restart_it() {
    let mut api = size_mode(100);
    push_numbers(&mut api, 4);
    assert!(api.begin_flush());
    assert!(matches!(api.advance_flush(&status(413), &status(413)), FlushAction::Continue));
    assert!(matches!(api.advance_flush(&status(200), &status(200)), FlushAction::Continue));
    assert!(api.begin_flush());
    match api.next_request(RecordKind::Log) {
        NextRequest::Send(request) => assert_eq!(body_of(&request), "[2,3]"),
        _ => panic!("no request for the logs"),
    }
}

#[test]
fn combine_follows_the_table() {
    assert!(matches!(combine(SessionStatus::Timeout(2), SessionStatus::Timeout(5)), FlushAction::Wait(5)));
    assert!(matches!(combine(SessionStatus::Timeout(5), SessionStatus::Timeout(2)), FlushAction::Wait(5)));
    assert!(matches!(combine(SessionStatus::Timeout(4), SessionStatus::Timeout(4)), FlushAction::Wait(4)));
    assert!(matches!(combine(SessionStatus::Timeout(3), SessionStatus::Remaining), FlushAction::Wait(3)));
    assert!(matches!(combine(SessionStatus::Timeout(3), SessionStatus::Finished), FlushAction::Wait(3)));
    assert!(matches!(combine(SessionStatus::Remaining, SessionStatus::Timeout(0)), FlushAction::Wait(0)));
    assert!(matches!(combine(SessionStatus::Finished, SessionStatus::Timeout(9)), FlushAction::Wait(9)));
    assert!(matches!(combine(SessionStatus::Finished, SessionStatus::Finished), FlushAction::Done));
    assert!(matches!(combine(SessionStatus::Remaining, SessionStatus::Remaining), FlushAction::Continue));
    assert!(matches!(combine(SessionStatus::Remaining, SessionStatus::Finished), FlushAction::Continue));
    assert!(matches!(combine(SessionStatus::Finished, SessionStatus::Remaining), FlushAction::Continue));
}
