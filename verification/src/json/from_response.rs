use vstd::prelude::*;
use vstd::pervasive::unreached;

use crate::document::{json_wf, parse_json};
use crate::message::{append_bytes, HeaderMap, Readiness, Request, Response};

verus! {

/// Everything that can go wrong in this stage: the wrapped inner-service
/// error, a body-drain failure, and a parse failure carrying the parser's
/// diagnostic.
#[derive(Debug)]
pub enum Error<E, BE> {
    /// The inner service failed before any body arrived.
    Service(E),
    /// The streamed body failed while being drained.
    Body(BE),
    /// The aggregated buffer is not a well-formed document; the parser's
    /// diagnostic is carried as text.
    MalformedDocument(String),
}

/// Stateless configuration: this stage has none. Unlike the composed
/// variant, it drives the two aggregation states itself.
#[derive(Clone, Debug)]
pub struct Layer {}

impl Default for Layer {
    fn default() -> (r: Layer)
        ensures
            r == (Layer {  }),
    {
        Layer {  }
    }
}

impl Layer {
    /// Wraps an inner service.
    pub fn layer<S>(&self, inner: S) -> (r: Service<S>)
        ensures
            r.inner == inner,
    {
        Service { inner }
    }
}

/// The wrapped service: it only holds the inner service.
#[derive(Clone, Debug)]
pub struct Service<S> {
    pub inner: S,
}

/// How this stage answers a readiness check, given how the inner service
/// answered: the outcome is passed through, with an inner failure wrapped.
pub open spec fn readiness_of<E, BE>(inner: Readiness<E>) -> Readiness<Error<E, BE>> {
    match inner {
        Readiness::Ready => Readiness::Ready,
        Readiness::Pending => Readiness::Pending,
        Readiness::Failed(e) => Readiness::Failed(Error::Service(e)),
    }
}

impl<S> Service<S> {
    /// Maps the inner service's readiness outcome to this stage's. The stage
    /// holds no per-call state, so the answer is a function of the inner
    /// outcome alone.
    pub fn poll_ready<E, BE>(&self, inner: Readiness<E>) -> (r: Readiness<Error<E, BE>>)
        ensures
            r == readiness_of::<E, BE>(inner),
    {
        match inner {
            Readiness::Ready => Readiness::Ready,
            Readiness::Pending => Readiness::Pending,
            Readiness::Failed(e) => Readiness::Failed(Error::Service(e)),
        }
    }

    /// Starts one call. The request is forwarded unchanged; the per-call
    /// machine waits for the inner service's answer.
    pub fn call<B>(&mut self, request: Request<B>) -> (r: (Future, Request<B>))
        ensures
            r.0.state is AwaitingResponse,
            r.1 == request,
            *final(self) == *old(self),
    {
        (Future { state: State::AwaitingResponse }, request)
    }
}

/// The per-call state machine: the two aggregation states, inlined, with
/// the parse step performed the instant the buffer is complete — there is
/// no third suspension point.
pub struct Future {
    pub state: State,
}

/// The suspension points of one call.
pub enum State {
    /// Waiting for the inner service's answer.
    AwaitingResponse,
    /// The response arrived and was split: its status and headers are parked
    /// here while the streamed body is drained into the buffer.
    AwaitingBody { status: u16, headers: HeaderMap, buf: Vec<u8> },
}

/// What the machine asks of its driver once the inner service has answered.
pub enum ResponseStep<B, E, BE> {
    /// Drain this streamed body, reporting each chunk through `on_chunk` and
    /// the end (or failure) of the stream through `on_body_end`
    /// (`on_body_error`).
    Drain { body: B, future: Future },
    /// The call is over; surface this error.
    Fail { error: Error<E, BE> },
}

impl Future {
    /// Advances the machine once the inner service has answered: a failure
    /// resolves the call, a response is split into metadata — kept — and its
    /// still-streaming body, which is handed back to be drained.
    pub fn on_response<B, E, BE>(self, result: Result<Response<B>, E>) -> (r: ResponseStep<
        B,
        E,
        BE,
    >)
        requires
            self.state is AwaitingResponse,
        ensures
            match result {
                Ok(resp) => r matches ResponseStep::Drain { body, future } && body == resp.body
                    && (future.state matches State::AwaitingBody { status, headers, buf } && status
                    == resp.status && headers == resp.headers && buf@ == Seq::<u8>::empty()),
                Err(e) => r matches ResponseStep::Fail { error } && error == Error::<E, BE>::Service(
                    e,
                ),
            },
    {
        match result {
            Ok(resp) => {
                let Response { status, headers, body } = resp;
                ResponseStep::Drain {
                    body,
                    future: Future {
                        state: State::AwaitingBody { status, headers, buf: Vec::new() },
                    },
                }
            },
            Err(e) => ResponseStep::Fail { error: Error::Service(e) },
        }
    }

    /// Appends one chunk of the streamed body to the buffer; the metadata is
    /// untouched.
    pub fn on_chunk(self, chunk: &Vec<u8>) -> (r: Future)
        requires
            self.state is AwaitingBody,
        ensures
            r.state matches State::AwaitingBody { status, headers, buf } && status
                == self.state->status && headers == self.state->headers && buf@
                == self.state->buf@ + chunk@,
    {
        match self {
            Future { state: State::AwaitingBody { status, headers, buf } } => {
                let mut buf = buf;
                append_bytes(&mut buf, chunk);
                Future { state: State::AwaitingBody { status, headers, buf } }
            },
            Future { state: State::AwaitingResponse } => unreached(),
        }
    }

    /// Resolves the machine once the stream has ended: the complete buffer
    /// is parsed at once, and a typed value is rewrapped under the kept
    /// status and headers; a buffer that is not a well-formed document
    /// resolves to a document error instead.
    pub fn on_body_end<T: serde::de::DeserializeOwned, E, BE>(self) -> (r: Result<
        Response<T>,
        Error<E, BE>,
    >)
        requires
            self.state is AwaitingBody,
        ensures
            r matches Ok(out) ==> out.status == self.state->status && out.headers
                == self.state->headers && json_wf(self.state->buf@),
            !json_wf(self.state->buf@) ==> (r matches Err(e) && e is MalformedDocument),
            r matches Err(e) ==> e is MalformedDocument,
    {
        match self {
            Future { state: State::AwaitingBody { status, headers, buf } } => {
                match parse_json::<T>(&buf) {
                    Ok(v) => Ok(Response { status, headers, body: v }),
                    Err(e) => Err(Error::MalformedDocument(e)),
                }
            },
            Future { state: State::AwaitingResponse } => unreached(),
        }
    }

    /// Resolves the machine when draining the stream fails: the failure is
    /// reported as a body error, distinct from both an inner-service error
    /// and a parse failure.
    pub fn on_body_error<E, BE>(self, error: BE) -> (r: Error<E, BE>)
        requires
            self.state is AwaitingBody,
        ensures
            r == Error::<E, BE>::Body(error),
    {
        Error::Body(error)
    }
}

/// Readiness checks of this stage carry no state: two checks that observe
/// the same inner outcome give the same answer, so with no intervening call
/// a ready service stays ready.
pub proof fn lemma_poll_ready_idempotent<E, BE>(first: Readiness<E>, second: Readiness<E>)
    requires
        first == second,
    ensures
        readiness_of::<E, BE>(first) == readiness_of::<E, BE>(second),
{
}

} // verus!
