use vstd::prelude::*;
use vstd::pervasive::unreached;

use crate::message::{append_bytes, copy_bytes, lemma_lookup_insert, lookup, map_insert, Readiness, Request};

verus! {

/// A byte that may appear in a bearer token: any byte that is not a control
/// character (the range below space, and delete).
pub open spec fn valid_token_byte(b: u8) -> bool {
    32 <= b && b != 127
}

/// A bearer token is well formed when none of its bytes is a control
/// character.
pub open spec fn valid_token(s: Seq<u8>) -> bool {
    forall|i: int| 0 <= i < s.len() ==> valid_token_byte(s[i])
}

/// Decides whether a fetched credential is a well-formed bearer token.
pub fn is_valid_token(token: &Vec<u8>) -> (r: bool)
    ensures
        r == valid_token(token@),
{
    let mut i: usize = 0;
    while i < token.len()
        invariant
            i <= token.len(),
            forall|j: int| 0 <= j < i ==> valid_token_byte(token@[j]),
        decreases token.len() - i,
    {
        let b = token[i];
        if b < 32 || b == 127 {
            assert(!valid_token_byte(token@[i as int]));
            return false;
        }
        i += 1;
    }
    true
}

/// The name of the credential header, in its lower-case form.
pub open spec fn authorization_name() -> Seq<u8> {
    seq![97u8, 117u8, 116u8, 104u8, 111u8, 114u8, 105u8, 122u8, 97u8, 116u8, 105u8, 111u8, 110u8]
}

/// The scheme prefix of a bearer credential header value.
pub open spec fn bearer_prefix() -> Seq<u8> {
    seq![66u8, 101u8, 97u8, 114u8, 101u8, 114u8, 32u8]
}

/// The value of the credential header for a given token: the prefix followed
/// by the token, verbatim.
pub open spec fn bearer_value_of(token: Seq<u8>) -> Seq<u8> {
    bearer_prefix() + token
}

/// The credential header name as bytes.
pub fn authorization_name_bytes() -> (r: Vec<u8>)
    ensures
        r@ == authorization_name(),
{
    let mut v: Vec<u8> = Vec::new();
    v.push(97);
    v.push(117);
    v.push(116);
    v.push(104);
    v.push(111);
    v.push(114);
    v.push(105);
    v.push(122);
    v.push(97);
    v.push(116);
    v.push(105);
    v.push(111);
    v.push(110);
    proof {
        assert(v@ =~= authorization_name());
    }
    v
}

/// The credential header value for a token.
pub fn bearer_value_bytes(token: &Vec<u8>) -> (r: Vec<u8>)
    ensures
        r@ == bearer_value_of(token@),
{
    let mut v: Vec<u8> = Vec::new();
    v.push(66);
    v.push(101);
    v.push(97);
    v.push(114);
    v.push(101);
    v.push(114);
    v.push(32);
    proof {
        assert(v@ =~= bearer_prefix());
    }
    append_bytes(&mut v, token);
    v
}

/// Where the credential comes from. Exactly one variant is chosen when the
/// layer is built and it never changes afterwards.
#[derive(Clone, Debug)]
pub enum Source {
    /// A token given directly at construction time, already validated.
    Token(Vec<u8>),
    /// The name of a process-environment variable holding the token.
    Env(Vec<u8>),
    /// The path of a file whose contents are the token.
    File(Vec<u8>),
}

/// The mathematical content of a credential source.
pub enum SourceView {
    Token(Seq<u8>),
    Env(Seq<u8>),
    File(Seq<u8>),
}

impl View for Source {
    type V = SourceView;

    open spec fn view(&self) -> SourceView {
        match self {
            Source::Token(v) => SourceView::Token(v@),
            Source::Env(v) => SourceView::Env(v@),
            Source::File(v) => SourceView::File(v@),
        }
    }
}

impl Source {
    /// An exact copy of the source descriptor.
    pub fn duplicate(&self) -> (r: Source)
        ensures
            r@ == self@,
    {
        match self {
            Source::Token(v) => Source::Token(copy_bytes(v)),
            Source::Env(v) => Source::Env(copy_bytes(v)),
            Source::File(v) => Source::File(copy_bytes(v)),
        }
    }
}

/// Everything that can go wrong in this stage: the three fetch failures, and
/// the wrapped error of the inner service, kept apart so a caller can tell
/// its own broken source from a broken inner service.
#[derive(Debug, PartialEq, Eq)]
pub enum Error<E> {
    /// The configured environment variable is absent or not readable as text.
    MissingEnvironmentVariable,
    /// The configured file could not be read.
    Io,
    /// The fetched text is not a well-formed bearer token.
    InvalidCredential,
    /// The inner service failed after the credential was attached.
    Service(E),
}

/// How a fetch that ran outside the state machine failed.
#[derive(Debug, PartialEq, Eq, Clone, Copy)]
pub enum FetchFailure {
    MissingEnvironmentVariable,
    Io,
}

/// Rejection returned when a layer is built from a token that is not well
/// formed.
#[derive(Debug, PartialEq, Eq, Clone, Copy)]
pub struct InvalidToken;

/// Stateless configuration of the stage: it remembers the credential source
/// and wraps any inner service.
#[derive(Clone, Debug)]
pub struct Layer {
    pub source: Source,
}

impl Layer {
    /// A stage that reads the token from the named environment variable.
    pub fn from_env(key: Vec<u8>) -> (r: Layer)
        ensures
            r.source@ == SourceView::Env(key@),
    {
        Layer { source: Source::Env(key) }
    }

    /// A stage that reads the token from the file at the given path.
    pub fn from_file(path: Vec<u8>) -> (r: Layer)
        ensures
            r.source@ == SourceView::File(path@),
    {
        Layer { source: Source::File(path) }
    }

    /// A stage that always uses the given token; a token that is not well
    /// formed is rejected here, once, instead of on every call.
    pub fn from_token(token: Vec<u8>) -> (r: Result<Layer, InvalidToken>)
        ensures
            valid_token(token@) ==> (r matches Ok(l) && l.source@ == SourceView::Token(token@)),
            !valid_token(token@) ==> r is Err,
    {
        if is_valid_token(&token) {
            Ok(Layer { source: Source::Token(token) })
        } else {
            Err(InvalidToken)
        }
    }

    /// Wraps an inner service, handing it a copy of the configuration.
    pub fn layer<S>(&self, inner: S) -> (r: Service<S>)
        ensures
            r.inner == inner,
            r.source@ == self.source@,
    {
        Service { inner, source: self.source.duplicate() }
    }
}

/// The wrapped service: one owned inner instance plus the configuration.
#[derive(Clone, Debug)]
pub struct Service<S> {
    pub inner: S,
    pub source: Source,
}

/// How this stage answers a readiness check, given how the inner service
/// answered: the outcome is passed through, with an inner failure wrapped.
pub open spec fn readiness_of<E>(inner: Readiness<E>) -> Readiness<Error<E>> {
    match inner {
        Readiness::Ready => Readiness::Ready,
        Readiness::Pending => Readiness::Pending,
        Readiness::Failed(e) => Readiness::Failed(Error::Service(e)),
    }
}

impl<S> Service<S> {
    /// Maps the inner service's readiness outcome to this stage's. The stage
    /// holds no per-call state, so the answer is a function of the inner
    /// outcome alone.
    pub fn poll_ready<E>(&self, inner: Readiness<E>) -> (r: Readiness<Error<E>>)
        ensures
            r == readiness_of(inner),
    {
        match inner {
            Readiness::Ready => Readiness::Ready,
            Readiness::Pending => Readiness::Pending,
            Readiness::Failed(e) => Readiness::Failed(Error::Service(e)),
        }
    }
}

impl<S: Clone> Service<S> {
    /// Starts one call: the owned inner instance is handed to the per-call
    /// state machine and a fresh copy takes its place, so the service stays
    /// ready for the next caller while this call is still fetching.
    pub fn call<B>(&mut self, request: Request<B>) -> (f: Future<S, B>)
        ensures
            f.state matches State::FetchingCredential { inner, request: rq } && inner
                == old(self).inner && rq == request,
            f.source@ == old(self).source@,
            final(self).source@ == old(self).source@,
    {
        let mut taken = self.inner.clone();
        core::mem::swap(&mut self.inner, &mut taken);
        let source = self.source.duplicate();
        Future { source, state: State::FetchingCredential { inner: taken, request } }
    }
}

/// The per-call state machine. Exactly one state is active; the in-flight
/// request and the inner instance are owned by the machine and move, never
/// copied, between states. Every step consumes the machine, so a resolved
/// call cannot be resumed.
pub struct Future<S, B> {
    pub source: Source,
    pub state: State<S, B>,
}

/// The suspension points of one call.
pub enum State<S, B> {
    /// Waiting for the source-specific fetch; the request and the inner
    /// instance are parked here until the credential text arrives.
    FetchingCredential { inner: S, request: Request<B> },
    /// The decorated request has been handed to the inner service; waiting
    /// for its answer.
    Forwarding,
}

/// What the machine asks of its driver after the credential fetch resolves.
pub enum Step<S, B, E> {
    /// Call the inner service with the decorated request, then report its
    /// result through `on_inner`.
    Forward { inner: S, request: Request<B>, future: Future<S, B> },
    /// The call is over; surface this error. The inner service is never
    /// reached on this path.
    Fail { error: Error<E> },
}

impl<S, B> Future<S, B> {
    /// Advances the machine once the credential fetch has resolved. A fetch
    /// failure and a malformed token end the call before the inner service
    /// sees anything; a well-formed token is attached to the request as
    /// `Bearer <token>`, verbatim, and the request is forwarded.
    pub fn on_fetch<E>(self, outcome: Result<Vec<u8>, FetchFailure>) -> (r: Step<S, B, E>)
        requires
            self.state is FetchingCredential,
        ensures
            match outcome {
                Ok(token) => if valid_token(token@) {
                    r matches Step::Forward { inner, request, future } && inner
                        == self.state->inner && request.body == self.state->request.body
                        && request.headers@ == map_insert(
                        self.state->request.headers@,
                        authorization_name(),
                        bearer_value_of(token@),
                    ) && future.state is Forwarding && future.source@ == self.source@
                } else {
                    r matches Step::Fail { error } && error == Error::<E>::InvalidCredential
                },
                Err(FetchFailure::MissingEnvironmentVariable) => r matches Step::Fail { error }
                    && error == Error::<E>::MissingEnvironmentVariable,
                Err(FetchFailure::Io) => r matches Step::Fail { error } && error == Error::<E>::Io,
            },
    {
        match self {
            Future { source, state: State::FetchingCredential { inner, request } } => {
                match outcome {
                    Ok(token) => {
                        if is_valid_token(&token) {
                            let mut request = request;
                            let value = bearer_value_bytes(&token);
                            request.headers.insert(authorization_name_bytes(), value);
                            Step::Forward {
                                inner,
                                request,
                                future: Future { source, state: State::Forwarding },
                            }
                        } else {
                            Step::Fail { error: Error::InvalidCredential }
                        }
                    },
                    Err(FetchFailure::MissingEnvironmentVariable) => Step::Fail {
                        error: Error::MissingEnvironmentVariable,
                    },
                    Err(FetchFailure::Io) => Step::Fail { error: Error::Io },
                }
            },
            Future { state: State::Forwarding, .. } => unreached(),
        }
    }

    /// Resolves the machine once the inner service has answered: its result
    /// is returned verbatim, with an inner failure wrapped so the caller can
    /// tell it apart from a fetch failure.
    pub fn on_inner<R, E>(self, result: Result<R, E>) -> (r: Result<R, Error<E>>)
        requires
            self.state is Forwarding,
        ensures
            result matches Ok(v) ==> r matches Ok(w) && w == v,
            result matches Err(e) ==> r matches Err(err) && err == Error::<E>::Service(e),
    {
        match result {
            Ok(v) => Ok(v),
            Err(e) => Err(Error::Service(e)),
        }
    }
}

/// Whatever the source, a successful fetch leaves the request with a
/// credential header that reads exactly `Bearer <token>`, `<token>` being the
/// fetched text verbatim.
pub proof fn lemma_credential_header(m: Seq<(Seq<u8>, Seq<u8>)>, token: Seq<u8>)
    ensures
        lookup(
            map_insert(m, authorization_name(), bearer_value_of(token)),
            authorization_name(),
        ) == Some(bearer_value_of(token)),
{
    lemma_lookup_insert(m, authorization_name(), bearer_value_of(token));
}

/// Readiness checks of this stage carry no state: two checks that observe
/// the same inner outcome give the same answer, so with no intervening call
/// a ready service stays ready.
pub proof fn lemma_poll_ready_idempotent<E>(first: Readiness<E>, second: Readiness<E>)
    requires
        first == second,
    ensures
        readiness_of(first) == readiness_of(second),
{
}

} // verus!
