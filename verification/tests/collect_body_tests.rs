use client_stages::collect_body::{Error, Layer, ResponseStep};
use client_stages::message::{HeaderMap, Readiness, Request, Response};

/// A stand-in for a still-streaming body handle; the stage never looks
/// inside it.
#[derive(Debug, PartialEq)]
struct StreamHandle(u32);

fn sample_headers() -> HeaderMap {
    HeaderMap {
        entries: vec![
            (b"content-type".to_vec(), b"text/plain".to_vec()),
            (b"x-trace".to_vec(), b"abc123".to_vec()),
        ],
    }
}

#[test]
fn chunks_are_concatenated_in_order_and_metadata_is_untouched() {
    let layer = Layer {};
    let mut service = layer.layer(41u8);
    let (future, request) = service.call(Request { headers: HeaderMap::new(), body: "req" });
    assert_eq!(request.body, "req");

    let response = Response { status: 201, headers: sample_headers(), body: StreamHandle(7) };
    let step = future.on_response::<StreamHandle, (), ()>(Ok(response));
    let (body, mut future) = match step {
        ResponseStep::Drain { body, future } => (body, future),
        ResponseStep::Fail { .. } => panic!("a response should begin a drain"),
    };
    assert_eq!(body, StreamHandle(7));

    for chunk in [b"ab".to_vec(), b"".to_vec(), b"cde".to_vec()] {
        future = future.on_chunk(&chunk);
    }
    let collected = future.on_body_end();
    assert_eq!(collected.status, 201);
    assert_eq!(collected.headers.entries, sample_headers().entries);
    assert_eq!(collected.body.as_slice(), b"abcde");
}

#[test]
fn an_empty_stream_yields_an_empty_buffer() {
    let layer = Layer {};
    let mut service = layer.layer(0u8);
    let (future, _request) = service.call(Request { headers: HeaderMap::new(), body: () });
    let response = Response { status: 204, headers: HeaderMap::new(), body: StreamHandle(0) };
    let future = match future.on_response::<StreamHandle, (), ()>(Ok(response)) {
        ResponseStep::Drain { future, .. } => future,
        ResponseStep::Fail { .. } => panic!("a response should begin a drain"),
    };
    let collected = future.on_body_end();
    assert_eq!(collected.status, 204);
    assert!(collected.body.is_empty());
}

#[test]
fn an_inner_failure_is_reported_as_a_service_error() {
    let layer = Layer {};
    let mut service = layer.layer(0u8);
    let (future, _request) = service.call(Request { headers: HeaderMap::new(), body: () });
    let step = future.on_response::<StreamHandle, &'static str, ()>(Err("inner broke"));
    match step {
        ResponseStep::Fail { error } => assert_eq!(error, Error::Service("inner broke")),
        ResponseStep::Drain { .. } => panic!("an inner failure must not begin a drain"),
    }
}

#[test]
fn a_drain_failure_is_reported_as_a_body_error() {
    let layer = Layer {};
    let mut service = layer.layer(0u8);
    let (future, _request) = service.call(Request { headers: HeaderMap::new(), body: () });
    let future = match future.on_response::<StreamHandle, (), &'static str>(Ok(Response {
        status: 200,
        headers: HeaderMap::new(),
        body: StreamHandle(1),
    })) {
        ResponseStep::Drain { future, .. } => future,
        ResponseStep::Fail { .. } => panic!("a response should begin a drain"),
    };
    let error = future.on_body_error::<(), &'static str>("stream broke");
    assert_eq!(error, Error::Body("stream broke"));
}

#[test]
fn readiness_is_passed_through_and_repeating_it_changes_nothing() {
    let layer = Layer {};
    let service = layer.layer(0u8);
    let first = service.poll_ready::<&'static str, ()>(Readiness::Ready);
    let second = service.poll_ready::<&'static str, ()>(Readiness::Ready);
    assert!(matches!(first, Readiness::Ready));
    assert!(matches!(second, Readiness::Ready));

    let failed = service.poll_ready::<&'static str, ()>(Readiness::Failed("down"));
    assert!(matches!(failed, Readiness::Failed(Error::Service("down"))));
    let pending = service.poll_ready::<&'static str, ()>(Readiness::Pending);
    assert!(matches!(pending, Readiness::Pending));
}
