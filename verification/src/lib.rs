//! Composable request/response transformation stages for an asynchronous
//! client pipeline: inject a bearer credential before forwarding a request,
//! aggregate a streamed response body into one contiguous buffer, and decode
//! or encode that buffer as a structured document.
//!
//! Each stage is a layer (stateless configuration), a service (the wrapped
//! callable) and a per-call state machine that an outside driver advances by
//! reporting, one at a time, the outcomes of the asynchronous operations the
//! machine is waiting on: the credential fetch, the inner service's answer,
//! the chunks of a streamed body. The machines own the in-flight request or
//! response parts, move them between states, and resolve exactly once.

pub mod add_bearer;
pub mod collect_body;
pub mod document;
pub mod from_json_response;
pub mod json;
pub mod message;
pub mod to_json_request;
