use std::cell::Cell;
use std::rc::Rc;

use client_stages::add_bearer::{Error, FetchFailure, Layer, Source, Step};
use client_stages::message::{HeaderMap, Readiness, Request};

/// An inner service that counts how many times it was handed a request.
#[derive(Clone)]
struct CountingInner {
    calls: Rc<Cell<usize>>,
}

impl CountingInner {
    fn new() -> (Self, Rc<Cell<usize>>) {
        let calls = Rc::new(Cell::new(0));
        (CountingInner { calls: calls.clone() }, calls)
    }

    fn call(&self) {
        self.calls.set(self.calls.get() + 1);
    }
}

fn empty_request() -> Request<&'static str> {
    Request { headers: HeaderMap::new(), body: "body" }
}

fn drive_fetch(
    layer: Layer,
    token: &[u8],
) -> Step<CountingInner, &'static str, ()> {
    let (inner, _calls) = CountingInner::new();
    let mut service = layer.layer(inner);
    let future = service.call(empty_request());
    future.on_fetch::<()>(Ok(token.to_vec()))
}

fn assert_bearer_header(step: Step<CountingInner, &'static str, ()>, expected: &[u8]) {
    match step {
        Step::Forward { request, .. } => {
            let name = b"authorization".to_vec();
            let value = request.headers.get_value(&name).expect("credential header missing");
            assert_eq!(value.as_slice(), expected);
            assert_eq!(request.body, "body");
        }
        Step::Fail { .. } => panic!("fetch should have succeeded"),
    }
}

#[test]
fn env_source_sets_exact_bearer_header() {
    let layer = Layer::from_env(b"API_TOKEN".to_vec());
    assert!(matches!(layer.source, Source::Env(_)));
    let step = drive_fetch(layer, b"sesame");
    assert_bearer_header(step, b"Bearer sesame");
}

#[test]
fn file_source_sets_exact_bearer_header() {
    let layer = Layer::from_file(b"/tmp/token".to_vec());
    assert!(matches!(layer.source, Source::File(_)));
    let step = drive_fetch(layer, b"from-a-file");
    assert_bearer_header(step, b"Bearer from-a-file");
}

#[test]
fn token_source_sets_exact_bearer_header() {
    let layer = Layer::from_token(b"static-token".to_vec()).expect("token is well formed");
    assert!(matches!(layer.source, Source::Token(_)));
    let step = drive_fetch(layer, b"static-token");
    assert_bearer_header(step, b"Bearer static-token");
}

#[test]
fn token_is_attached_verbatim_without_trimming() {
    let layer = Layer::from_env(b"KEY".to_vec());
    let step = drive_fetch(layer, b" padded ");
    assert_bearer_header(step, b"Bearer  padded ");
}

#[test]
fn empty_token_yields_bare_prefix() {
    let layer = Layer::from_env(b"KEY".to_vec());
    let step = drive_fetch(layer, b"");
    assert_bearer_header(step, b"Bearer ");
}

#[test]
fn insertion_replaces_an_existing_credential_header() {
    let layer = Layer::from_env(b"KEY".to_vec());
    let (inner, _calls) = CountingInner::new();
    let mut service = layer.layer(inner);
    let request = Request {
        headers: HeaderMap {
            entries: vec![
                (b"authorization".to_vec(), b"Bearer stale".to_vec()),
                (b"accept".to_vec(), b"application/json".to_vec()),
            ],
        },
        body: "body",
    };
    let future = service.call(request);
    match future.on_fetch::<()>(Ok(b"fresh".to_vec())) {
        Step::Forward { request, .. } => {
            let name = b"authorization".to_vec();
            let value = request.headers.get_value(&name).expect("credential header missing");
            assert_eq!(value.as_slice(), b"Bearer fresh");
            // the stale entry is gone, the unrelated one is kept
            assert_eq!(request.headers.entries.len(), 2);
            assert_eq!(request.headers.entries[0].0.as_slice(), b"accept");
        }
        Step::Fail { .. } => panic!("fetch should have succeeded"),
    }
}

#[test]
fn missing_environment_variable_never_reaches_inner() {
    let layer = Layer::from_env(b"ABSENT".to_vec());
    let (inner, calls) = CountingInner::new();
    let mut service = layer.layer(inner);
    let future = service.call(empty_request());
    let step = future.on_fetch::<()>(Err(FetchFailure::MissingEnvironmentVariable));
    match step {
        Step::Fail { error } => assert_eq!(error, Error::MissingEnvironmentVariable),
        Step::Forward { .. } => panic!("a failed fetch must not forward"),
    }
    assert_eq!(calls.get(), 0);
}

#[test]
fn unreadable_file_never_reaches_inner() {
    let layer = Layer::from_file(b"/no/such/file".to_vec());
    let (inner, calls) = CountingInner::new();
    let mut service = layer.layer(inner);
    let future = service.call(empty_request());
    let step = future.on_fetch::<()>(Err(FetchFailure::Io));
    match step {
        Step::Fail { error } => assert_eq!(error, Error::Io),
        Step::Forward { .. } => panic!("a failed fetch must not forward"),
    }
    assert_eq!(calls.get(), 0);
}

#[test]
fn control_characters_fail_validation_before_forwarding() {
    let layer = Layer::from_env(b"KEY".to_vec());
    let (inner, calls) = CountingInner::new();
    let mut service = layer.layer(inner);
    let future = service.call(empty_request());
    let step = future.on_fetch::<()>(Ok(b"bad\x01token".to_vec()));
    match step {
        Step::Fail { error } => assert_eq!(error, Error::InvalidCredential),
        Step::Forward { .. } => panic!("a malformed token must not forward"),
    }
    assert_eq!(calls.get(), 0);
}

#[test]
fn newline_and_delete_bytes_are_rejected_too() {
    let layer = Layer::from_env(b"KEY".to_vec());
    for bad in [b"with\nnewline".to_vec(), b"with\x7fdelete".to_vec(), b"with\ttab".to_vec()] {
        let (inner, _calls) = CountingInner::new();
        let mut service = layer.clone().layer(inner);
        let future = service.call(empty_request());
        match future.on_fetch::<()>(Ok(bad)) {
            Step::Fail { error } => assert_eq!(error, Error::InvalidCredential),
            Step::Forward { .. } => panic!("a malformed token must not forward"),
        }
    }
}

#[test]
fn from_token_rejects_a_malformed_token_at_construction() {
    assert!(Layer::from_token(b"bad\rtoken".to_vec()).is_err());
    assert!(Layer::from_token(b"good token".to_vec()).is_ok());
}

#[test]
fn abandoning_a_future_mid_fetch_never_calls_inner() {
    let layer = Layer::from_env(b"KEY".to_vec());
    let (inner, calls) = CountingInner::new();
    let mut service = layer.layer(inner);
    let future = service.call(empty_request());
    drop(future);
    assert_eq!(calls.get(), 0);
}

#[test]
fn forwarding_hands_back_the_original_inner_instance() {
    let layer = Layer::from_env(b"KEY".to_vec());
    let (inner, calls) = CountingInner::new();
    let mut service = layer.layer(inner);
    let future = service.call(empty_request());
    match future.on_fetch::<()>(Ok(b"tok".to_vec())) {
        Step::Forward { inner, future, .. } => {
            inner.call();
            assert_eq!(calls.get(), 1);
            let result = future.on_inner::<&'static str, ()>(Ok("answer"));
            assert_eq!(result, Ok("answer"));
        }
        Step::Fail { .. } => panic!("fetch should have succeeded"),
    }
}

#[test]
fn inner_service_errors_are_wrapped_distinctly() {
    let layer = Layer::from_token(b"tok".to_vec()).unwrap();
    let (inner, _calls) = CountingInner::new();
    let mut service = layer.layer(inner);
    let future = service.call(empty_request());
    match future.on_fetch::<&'static str>(Ok(b"tok".to_vec())) {
        Step::Forward { future, .. } => {
            let result = future.on_inner::<&'static str, &'static str>(Err("inner broke"));
            assert_eq!(result, Err(Error::Service("inner broke")));
        }
        Step::Fail { .. } => panic!("fetch should have succeeded"),
    }
}

#[test]
fn bearer_readiness_is_stateless_and_repeatable() {
    let layer = Layer::from_env(b"KEY".to_vec());
    let (inner, _calls) = CountingInner::new();
    let service = layer.layer(inner);
    let first = service.poll_ready::<&'static str>(Readiness::Ready);
    let second = service.poll_ready::<&'static str>(Readiness::Ready);
    assert!(matches!(first, Readiness::Ready));
    assert!(matches!(second, Readiness::Ready));
    let failed = service.poll_ready::<&'static str>(Readiness::Failed("down"));
    assert!(matches!(failed, Readiness::Failed(Error::Service("down"))));
}
