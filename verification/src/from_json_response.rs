use vstd::prelude::*;

use crate::collect_body;
use crate::document::{json_wf, parse_json};
use crate::message::{HeaderMap, Readiness, Request, Response};

verus! {

/// Everything that can go wrong in this stage: the two failures inherited
/// from the aggregation it builds on, and a parse failure of its own,
/// carrying the parser's diagnostic.
#[derive(Debug)]
pub enum Error<E, BE> {
    /// The inner service failed before any body arrived.
    Service(E),
    /// The streamed body failed while being drained.
    Body(BE),
    /// The aggregated buffer is not a well-formed document; the parser's
    /// diagnostic is carried as text.
    MalformedDocument(String),
}

/// How an aggregation error surfaces from this stage: the same failure,
/// under this stage's error type.
pub open spec fn lift_error<E, BE>(e: collect_body::Error<E, BE>) -> Error<E, BE> {
    match e {
        collect_body::Error::Service(x) => Error::Service(x),
        collect_body::Error::Body(x) => Error::Body(x),
    }
}

/// Rewraps an aggregation failure under this stage's error type.
pub fn map_err<E, BE>(e: collect_body::Error<E, BE>) -> (r: Error<E, BE>)
    ensures
        r == lift_error(e),
{
    match e {
        collect_body::Error::Service(x) => Error::Service(x),
        collect_body::Error::Body(x) => Error::Body(x),
    }
}

/// Stateless configuration: this stage has none of its own; it composes an
/// aggregation stage over the inner service.
#[derive(Clone, Debug)]
pub struct Layer {}

impl Default for Layer {
    fn default() -> (r: Layer)
        ensures
            r == (Layer {  }),
    {
        Layer {  }
    }
}

impl Layer {
    /// Wraps an inner service in an aggregation stage, which this stage then
    /// drives.
    pub fn layer<S>(&self, inner: S) -> (r: Service<S>)
        ensures
            r.inner.inner == inner,
    {
        let aggregate = collect_body::Layer {  };
        Service { inner: aggregate.layer(inner) }
    }
}

/// The wrapped service: an aggregation stage over the inner service. No
/// body-draining logic is repeated here; this stage only adds the parse
/// step.
#[derive(Clone, Debug)]
pub struct Service<S> {
    pub inner: collect_body::Service<S>,
}

/// How this stage answers a readiness check, given how the inner service
/// answered: the outcome is passed through, with an inner failure wrapped.
pub open spec fn readiness_of<E, BE>(inner: Readiness<E>) -> Readiness<Error<E, BE>> {
    match inner {
        Readiness::Ready => Readiness::Ready,
        Readiness::Pending => Readiness::Pending,
        Readiness::Failed(e) => Readiness::Failed(Error::Service(e)),
    }
}

impl<S> Service<S> {
    /// Maps the inner service's readiness outcome to this stage's, through
    /// the composed aggregation stage. The stage holds no per-call state, so
    /// the answer is a function of the inner outcome alone.
    pub fn poll_ready<E, BE>(&self, inner: Readiness<E>) -> (r: Readiness<Error<E, BE>>)
        ensures
            r == readiness_of::<E, BE>(inner),
    {
        let mid = self.inner.poll_ready::<E, BE>(inner);
        match mid {
            Readiness::Ready => Readiness::Ready,
            Readiness::Pending => Readiness::Pending,
            Readiness::Failed(e) => Readiness::Failed(map_err(e)),
        }
    }

    /// Starts one call: the request is forwarded unchanged and the composed
    /// aggregation machine is handed back; once it resolves, its result goes
    /// through `on_aggregated`.
    pub fn call<B>(&mut self, request: Request<B>) -> (r: (collect_body::Future, Request<B>))
        ensures
            r.0.state is AwaitingResponse,
            r.1 == request,
            *final(self) == *old(self),
    {
        self.inner.call(request)
    }
}

/// Reassembles the response once the buffer has been parsed: a parsed value
/// becomes the body under the untouched metadata; a parse failure surfaces
/// as a document error carrying the parser's diagnostic. This step is
/// exact for every possible parse outcome.
pub fn finish_decode<T, E, BE>(
    status: u16,
    headers: HeaderMap,
    parsed: Result<T, String>,
) -> (r: Result<Response<T>, Error<E, BE>>)
    ensures
        parsed matches Ok(v) ==> (r matches Ok(out) && out.status == status && out.headers
            == headers && out.body == v),
        parsed matches Err(e) ==> (r matches Err(er) && er == Error::<E, BE>::MalformedDocument(e)),
{
    match parsed {
        Ok(v) => Ok(Response { status, headers, body: v }),
        Err(e) => Err(Error::MalformedDocument(e)),
    }
}

/// The synchronous step this stage adds: the instant the aggregation
/// resolves, a successful buffer is parsed into a typed value and rewrapped
/// under the same status and headers; every failure is passed through under
/// this stage's error type.
pub fn on_aggregated<T: serde::de::DeserializeOwned, E, BE>(
    result: Result<Response<Vec<u8>>, collect_body::Error<E, BE>>,
) -> (r: Result<Response<T>, Error<E, BE>>)
    ensures
        result matches Ok(resp) ==> {
            &&& r matches Ok(out) ==> out.status == resp.status && out.headers == resp.headers
                && json_wf(resp.body@)
            &&& !json_wf(resp.body@) ==> (r matches Err(er) && er is MalformedDocument)
            &&& r matches Err(er) ==> er is MalformedDocument
        },
        result matches Err(e) ==> (r matches Err(er) && er == lift_error(e)),
{
    match result {
        Ok(resp) => {
            let Response { status, headers, body } = resp;
            let parsed = parse_json::<T>(&body);
            finish_decode(status, headers, parsed)
        },
        Err(e) => Err(map_err(e)),
    }
}

/// Readiness checks of this stage carry no state: two checks that observe
/// the same inner outcome give the same answer, so with no intervening call
/// a ready service stays ready.
pub proof fn lemma_poll_ready_idempotent<E, BE>(first: Readiness<E>, second: Readiness<E>)
    requires
        first == second,
    ensures
        readiness_of::<E, BE>(first) == readiness_of::<E, BE>(second),
{
}

} // verus!
