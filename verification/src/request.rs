//! The request that carries one batch: URL, headers, and a body that is the
//! gzip-compressed JSON array of the batch's records.

use crate::endpoint::{spec_request_url, ApiEndpoint, RecordKind};
use flate2::write::GzEncoder;
use flate2::Compression;
use std::io::Write;
use vstd::prelude::*;
use vstd::string::StringExecFns;

verus! {

/// One POST request, ready to be issued.
#[derive(Debug)]
pub struct Request {
    pub url: String,
    pub headers: Vec<(String, String)>,
    pub body: Vec<u8>,
}

/// A request as mathematical data.
pub struct RequestView {
    pub url: Seq<char>,
    pub headers: Seq<(Seq<char>, Seq<char>)>,
    pub body: Seq<u8>,
}

/// Header pairs as mathematical data.
pub open spec fn headers_view(headers: Seq<(String, String)>) -> Seq<(Seq<char>, Seq<char>)> {
    Seq::new(headers.len(), |i: int| (headers[i].0@, headers[i].1@))
}

impl View for Request {
    type V = RequestView;

    open spec fn view(&self) -> RequestView {
        RequestView { url: self.url@, headers: headers_view(self.headers@), body: self.body@ }
    }
}

/// The serialized records as mathematical data.
pub open spec fn payloads(records: Seq<Vec<u8>>) -> Seq<Seq<u8>> {
    Seq::new(records.len(), |i: int| records[i]@)
}

/// The items, each followed by a comma but the last.
pub open spec fn comma_joined(items: Seq<Seq<u8>>) -> Seq<u8>
    decreases items.len(),
{
    if items.len() == 0 {
        Seq::empty()
    } else if items.len() == 1 {
        items[0]
    } else {
        comma_joined(items.drop_last()) + seq![0x2cu8] + items.last()
    }
}

/// The compact JSON array whose elements are the given serialized values: an
/// opening bracket, the values separated by commas, a closing bracket.
pub open spec fn json_array(items: Seq<Seq<u8>>) -> Seq<u8> {
    seq![0x5bu8] + comma_joined(items) + seq![0x5du8]
}

/// The headers of a request for records of `kind` under the API key `key`.
pub open spec fn spec_headers(kind: RecordKind, key: Seq<char>) -> Seq<(Seq<char>, Seq<char>)> {
    let common = seq![
        ("Content-Type"@, "application/json"@),
        ("Content-Encoding"@, "gzip"@),
        ("Api-Key"@, key),
    ];
    match kind {
        RecordKind::Log => common,
        RecordKind::Span => common + seq![
            ("Data-Format"@, "newrelic"@),
            ("Data-Format-Version"@, "1"@),
        ],
    }
}

/// The request that posts the already compressed `body` of records of `kind`.
pub open spec fn spec_assemble_request(
    kind: RecordKind,
    endpoint: ApiEndpoint,
    key: Seq<char>,
    body: Seq<u8>,
) -> RequestView {
    RequestView {
        url: spec_request_url(endpoint, kind),
        headers: spec_headers(kind, key),
        body: body,
    }
}

/// What the gzip encoder of the `flate2` crate makes of `data` at its
/// fastest level: the bytes of the stream, or `None` where it reports an
/// error. Nothing is known of it but that it depends on `data` alone.
pub uninterp spec fn gzip_fast(data: Seq<u8>) -> Option<Seq<u8>>;

/// The request that posts `items` as one batch of `kind`, or `None` where
/// the body cannot be compressed.
pub open spec fn spec_build_request(
    kind: RecordKind,
    endpoint: ApiEndpoint,
    key: Seq<char>,
    items: Seq<Seq<u8>>,
) -> Option<RequestView> {
    match gzip_fast(json_array(items)) {
        Some(body) => Some(spec_assemble_request(kind, endpoint, key, body)),
        None => None,
    }
}

/// Compresses `data` into a gzip stream.
///
/// Trusted. The body makes a `flate2::write::GzEncoder` over an empty
/// `Vec<u8>` with `Compression::fast()`, hands it `data` through `write_all`,
/// and takes the buffer back with `finish`. The encoder writes a header
/// without a time stamp, file name or operating system mark, then the
/// deflate stream, then check sum and length, so the same `data` gives the
/// same bytes. The contract claims that and no more. An error of the encoder
/// comes back as `None`; none is promised never to occur.
#[verifier::external_body]
fn gzip(data: &[u8]) -> (out: Option<Vec<u8>>)
    ensures
        match out {
            Some(bytes) => gzip_fast(data@) == Some(bytes@),
            None => gzip_fast(data@) is None,
        },
{
    let mut encoder = GzEncoder::new(Vec::new(), Compression::fast());
    match encoder.write_all(data) {
        Ok(()) => match encoder.finish() {
            Ok(bytes) => Some(bytes),
            Err(_) => None,
        },
        Err(_) => None,
    }
}

/// Writes the records at positions `from..to` as one compact JSON array.
/// Each record must hold one serialized JSON value.
pub fn encode_json_array(records: &Vec<Vec<u8>>, from: usize, to: usize) -> (out: Vec<u8>)
    requires
        from <= to <= records.len(),
    ensures
        out@ == json_array(payloads(records@.subrange(from as int, to as int))),
{
    let ghost items = payloads(records@.subrange(from as int, to as int));
    let mut out: Vec<u8> = Vec::new();
    out.push(0x5b);
    let mut i: usize = from;
    while i < to
        invariant
            from <= i <= to <= records.len(),
            items == payloads(records@.subrange(from as int, to as int)),
            out@ == seq![0x5bu8] + comma_joined(items.take(i - from)),
        decreases to - i,
    {
        if i > from {
            out.push(0x2c);
        }
        out.extend_from_slice(records[i].as_slice());
        proof {
            let done = items.take(i - from + 1);
            assert(done.drop_last() =~= items.take(i - from));
            assert(done.last() == records@[i as int]@);
            if i == from {
                assert(comma_joined(items.take(0)) =~= Seq::<u8>::empty());
            }
            assert(out@ =~= seq![0x5bu8] + comma_joined(done));
        }
        i = i + 1;
    }
    proof {
        assert(items.take(to - from) =~= items);
    }
    out.push(0x5d);
    out
}

/// The headers of a request for records of `kind` under the API key `key`.
pub fn request_headers(kind: RecordKind, key: &String) -> (headers: Vec<(String, String)>)
    ensures
        headers_view(headers@) == spec_headers(kind, key@),
{
    let mut headers: Vec<(String, String)> = Vec::new();
    headers.push((String::from_str("Content-Type"), String::from_str("application/json")));
    headers.push((String::from_str("Content-Encoding"), String::from_str("gzip")));
    headers.push((String::from_str("Api-Key"), key.clone()));
    match kind {
        RecordKind::Log => {},
        RecordKind::Span => {
            headers.push((String::from_str("Data-Format"), String::from_str("newrelic")));
            headers.push((String::from_str("Data-Format-Version"), String::from_str("1")));
        },
    }
    proof {
        assert(headers_view(headers@) =~= spec_headers(kind, key@));
    }
    headers
}

/// Puts together the request that posts the already compressed `body`.
pub fn assemble_request(kind: RecordKind, endpoint: &ApiEndpoint, key: &String, body: Vec<u8>) -> (request:
    Request)
    ensures
        request@ == spec_assemble_request(kind, *endpoint, key@, body@),
{
    Request { url: endpoint.request_url(kind), headers: request_headers(kind, key), body }
}

/// Serializes the records at positions `from..to` as one JSON array and
/// compresses it; `None` where the compressor reports an error.
pub fn to_gz(records: &Vec<Vec<u8>>, from: usize, to: usize) -> (out: Option<Vec<u8>>)
    requires
        from <= to <= records.len(),
    ensures
        match out {
            Some(bytes) => Some(bytes@),
            None => None,
        } == gzip_fast(json_array(payloads(records@.subrange(from as int, to as int)))),
{
    let json = encode_json_array(records, from, to);
    gzip(json.as_slice())
}

/// Builds the request that posts the records at positions `from..to` as one
/// batch of `kind`; `None` where the body cannot be compressed.
pub fn build_request(
    kind: RecordKind,
    endpoint: &ApiEndpoint,
    key: &String,
    records: &Vec<Vec<u8>>,
    from: usize,
    to: usize,
) -> (request: Option<Request>)
    requires
        from <= to <= records.len(),
    ensures
        match request {
            Some(r) => Some(r@),
            None => None,
        } == spec_build_request(
            kind,
            *endpoint,
            key@,
            payloads(records@.subrange(from as int, to as int)),
        ),
{
    match to_gz(records, from, to) {
        Some(body) => Some(assemble_request(kind, endpoint, key, body)),
        None => None,
    }
}

} // verus!
