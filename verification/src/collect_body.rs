use vstd::prelude::*;
use vstd::pervasive::unreached;

use crate::message::{append_bytes, HeaderMap, Readiness, Request, Response};

verus! {

/// Everything that can go wrong in this stage: the wrapped inner-service
/// error and a body-drain failure, kept apart so a caller can tell which
/// side broke.
#[derive(Debug, PartialEq, Eq)]
pub enum Error<E, BE> {
    /// The inner service failed before any body arrived.
    Service(E),
    /// The streamed body failed while being drained.
    Body(BE),
}

/// Stateless configuration: this stage has none.
#[derive(Clone, Debug)]
pub struct Layer {}

impl Default for Layer {
    fn default() -> (r: Layer)
        ensures
            r == (Layer {  }),
    {
        Layer {  }
    }
}

impl Layer {
    /// Wraps an inner service.
    pub fn layer<S>(&self, inner: S) -> (r: Service<S>)
        ensures
            r.inner == inner,
    {
        Service { inner }
    }
}

/// The wrapped service: it only holds the inner service.
#[derive(Clone, Debug)]
pub struct Service<S> {
    pub inner: S,
}

/// How this stage answers a readiness check, given how the inner service
/// answered: the outcome is passed through, with an inner failure wrapped.
pub open spec fn readiness_of<E, BE>(inner: Readiness<E>) -> Readiness<Error<E, BE>> {
    match inner {
        Readiness::Ready => Readiness::Ready,
        Readiness::Pending => Readiness::Pending,
        Readiness::Failed(e) => Readiness::Failed(Error::Service(e)),
    }
}

impl<S> Service<S> {
    /// Maps the inner service's readiness outcome to this stage's. The stage
    /// holds no per-call state, so the answer is a function of the inner
    /// outcome alone.
    pub fn poll_ready<E, BE>(&self, inner: Readiness<E>) -> (r: Readiness<Error<E, BE>>)
        ensures
            r == readiness_of::<E, BE>(inner),
    {
        match inner {
            Readiness::Ready => Readiness::Ready,
            Readiness::Pending => Readiness::Pending,
            Readiness::Failed(e) => Readiness::Failed(Error::Service(e)),
        }
    }

    /// Starts one call. The request is forwarded unchanged — this stage only
    /// touches the response — and the per-call machine waits for the inner
    /// service's answer.
    pub fn call<B>(&mut self, request: Request<B>) -> (r: (Future, Request<B>))
        ensures
            r.0.state is AwaitingResponse,
            r.1 == request,
            *final(self) == *old(self),
    {
        (Future { state: State::AwaitingResponse }, request)
    }
}

/// The per-call state machine. Exactly one state is active; the response
/// metadata and the growing buffer are owned by the machine and move, never
/// copied, between states. Every step that resolves the call consumes the
/// machine, so a resolved call cannot be resumed.
pub struct Future {
    pub state: State,
}

/// The suspension points of one call.
pub enum State {
    /// Waiting for the inner service's answer.
    AwaitingResponse,
    /// The response arrived and was split: its status and headers are parked
    /// here while the streamed body is drained into the buffer.
    AwaitingBody { status: u16, headers: HeaderMap, buf: Vec<u8> },
}

/// What the machine asks of its driver once the inner service has answered.
pub enum ResponseStep<B, E, BE> {
    /// Drain this streamed body, reporting each chunk through `on_chunk` and
    /// the end (or failure) of the stream through `on_body_end`
    /// (`on_body_error`).
    Drain { body: B, future: Future },
    /// The call is over; surface this error.
    Fail { error: Error<E, BE> },
}

impl Future {
    /// Advances the machine once the inner service has answered: a failure
    /// resolves the call, a response is split into metadata — kept — and its
    /// still-streaming body, which is handed back to be drained.
    pub fn on_response<B, E, BE>(self, result: Result<Response<B>, E>) -> (r: ResponseStep<
        B,
        E,
        BE,
    >)
        requires
            self.state is AwaitingResponse,
        ensures
            match result {
                Ok(resp) => r matches ResponseStep::Drain { body, future } && body == resp.body
                    && (future.state matches State::AwaitingBody { status, headers, buf } && status
                    == resp.status && headers == resp.headers && buf@ == Seq::<u8>::empty()),
                Err(e) => r matches ResponseStep::Fail { error } && error == Error::<E, BE>::Service(
                    e,
                ),
            },
    {
        match result {
            Ok(resp) => {
                let Response { status, headers, body } = resp;
                ResponseStep::Drain {
                    body,
                    future: Future {
                        state: State::AwaitingBody { status, headers, buf: Vec::new() },
                    },
                }
            },
            Err(e) => ResponseStep::Fail { error: Error::Service(e) },
        }
    }

    /// Appends one chunk of the streamed body to the buffer; the metadata is
    /// untouched. An empty chunk leaves the buffer as it was.
    pub fn on_chunk(self, chunk: &Vec<u8>) -> (r: Future)
        requires
            self.state is AwaitingBody,
        ensures
            r.state matches State::AwaitingBody { status, headers, buf } && status
                == self.state->status && headers == self.state->headers && buf@
                == self.state->buf@ + chunk@,
    {
        match self {
            Future { state: State::AwaitingBody { status, headers, buf } } => {
                let mut buf = buf;
                append_bytes(&mut buf, chunk);
                Future { state: State::AwaitingBody { status, headers, buf } }
            },
            Future { state: State::AwaitingResponse } => unreached(),
        }
    }

    /// Resolves the machine once the stream has ended: the kept metadata is
    /// reassembled, unchanged, with the drained buffer as the body.
    pub fn on_body_end(self) -> (r: Response<Vec<u8>>)
        requires
            self.state is AwaitingBody,
        ensures
            r.status == self.state->status,
            r.headers == self.state->headers,
            r.body@ == self.state->buf@,
    {
        match self {
            Future { state: State::AwaitingBody { status, headers, buf } } => {
                Response { status, headers, body: buf }
            },
            Future { state: State::AwaitingResponse } => unreached(),
        }
    }

    /// Resolves the machine when draining the stream fails: the failure is
    /// reported as a body error, distinct from an inner-service error.
    pub fn on_body_error<E, BE>(self, error: BE) -> (r: Error<E, BE>)
        requires
            self.state is AwaitingBody,
        ensures
            r == Error::<E, BE>::Body(error),
    {
        Error::Body(error)
    }
}

/// The buffer a drain builds, starting from `buf`, after the chunks of
/// `chunks` are appended one at a time, in order.
pub open spec fn fold_chunks(buf: Seq<u8>, chunks: Seq<Seq<u8>>) -> Seq<u8>
    decreases chunks.len(),
{
    if chunks.len() == 0 {
        buf
    } else {
        fold_chunks(buf + chunks.first(), chunks.drop_first())
    }
}

/// Draining a streamed body chunk by chunk — what repeated `on_chunk` steps
/// do — leaves in the buffer exactly the concatenation of the chunks in the
/// order they arrived.
pub proof fn lemma_drain_concatenates(buf: Seq<u8>, chunks: Seq<Seq<u8>>)
    ensures
        fold_chunks(buf, chunks) == buf + chunks.flatten(),
    decreases chunks.len(),
{
    if chunks.len() == 0 {
        assert(chunks.flatten() =~= Seq::<u8>::empty());
        assert(buf + chunks.flatten() =~= buf);
    } else {
        lemma_drain_concatenates(buf + chunks.first(), chunks.drop_first());
        assert(chunks.flatten() == chunks.first() + chunks.drop_first().flatten());
        assert(buf + chunks.first() + chunks.drop_first().flatten() =~= buf + chunks.flatten());
    }
}

/// Readiness checks of this stage carry no state: two checks that observe
/// the same inner outcome give the same answer, so with no intervening call
/// a ready service stays ready.
pub proof fn lemma_poll_ready_idempotent<E, BE>(first: Readiness<E>, second: Readiness<E>)
    requires
        first == second,
    ensures
        readiness_of::<E, BE>(first) == readiness_of::<E, BE>(second),
{
}

} // verus!
