//! Converting responses between the framework shape and the event shape, and
//! the round-trip law the two directions obey together.

use vstd::prelude::*;
use crate::body::{
    Body, FrameworkBody, body_bytes, body_to_bytes, classify_bytes, concat_bytes, materialize,
};
use crate::message::{
    AdapterError, EventResponse, FrameworkResponse, event_response_of,
    framework_response_of,
};

verus! {

/// Convert a framework response into the event response shape. The
/// framework's body abstraction may stand for a stream of chunks; the event
/// contract cannot stream a response, so a streamed body is first
/// materialized into one buffer. A body that reports itself absent maps to
/// the absent variant, and any other body is classified by its drained
/// bytes, so a body that drained to nothing is absent too, never a
/// zero-length binary payload. A body that cannot be drained into memory is
/// refused as an unsupported operation rather than silently truncated.
pub fn framework_to_event_response(res: FrameworkResponse) -> (r: Result<
    EventResponse,
    AdapterError,
>)
    ensures
        res.body is Unbufferable <==> r is Err,
        r matches Err(e) ==> e == AdapterError::UnsupportedStreaming,
        r matches Ok(er) ==> event_response_of(er, res),
{
    let FrameworkResponse { status, headers, body } = res;
    let b: Body = match body {
        FrameworkBody::NoBody => Body::Empty,
        FrameworkBody::Buffered(v) => classify_bytes(v),
        FrameworkBody::Streamed(chunks) => classify_bytes(materialize(chunks)),
        FrameworkBody::Unbufferable => {
            return Err(AdapterError::UnsupportedStreaming);
        },
    };
    Ok(EventResponse { status, headers, body: b })
}

/// The conversion a framework handler performs when it emits an event-shaped
/// response into the framework: an absent body is reported absent, any other
/// body is handed over buffered whole.
pub fn event_to_framework_response(r: EventResponse) -> (f: FrameworkResponse)
    ensures
        framework_response_of(f, r),
{
    let EventResponse { status, headers, body } = r;
    let fb: FrameworkBody = match body {
        Body::Empty => FrameworkBody::NoBody,
        other => FrameworkBody::Buffered(body_to_bytes(other)),
    };
    FrameworkResponse { status, headers, body: fb }
}

/// Convert an event response into the native server response shape: status
/// and headers carried over, the body union encoded as the byte payload, so
/// an absent body writes no bytes on the wire.
pub fn event_to_native_response(r: EventResponse) -> (f: FrameworkResponse)
    ensures
        f.status == r.status,
        f.headers@ == r.headers@,
        (f.body matches FrameworkBody::Buffered(v) && v@ == body_bytes(r.body)),
{
    let EventResponse { status, headers, body } = r;
    FrameworkResponse { status, headers, body: FrameworkBody::Buffered(body_to_bytes(body)) }
}

/// The response the local server answers with when a handler call fails: an
/// empty server-error response, so a failure costs only the one request and
/// no adapter-internal error ever crosses the boundary unconverted.
pub fn internal_error_response() -> (r: EventResponse)
    ensures
        r.status == 500,
        r.headers@.len() == 0,
        r.body is Empty,
{
    EventResponse { status: 500, headers: Vec::new(), body: Body::Empty }
}

/// Law: a response whose streamed body drained into chunks with any bytes at
/// all materializes into one single binary body, equal byte for byte to the
/// chunks' concatenation.
pub proof fn lemma_streamed_body_materializes(res: FrameworkResponse, e: EventResponse)
    requires
        res.body is Streamed,
        concat_bytes(res.body->Streamed_0@).len() > 0,
        event_response_of(e, res),
    ensures
        (e.body matches Body::Binary(v) && v@ == concat_bytes(res.body->Streamed_0@)),
{
}

/// Law: round-tripping a response through the framework conversion and back
/// preserves the status code, the full header list, and the body bytes, and
/// an absent body stays absent.
pub proof fn lemma_response_round_trip(
    r: EventResponse,
    f: FrameworkResponse,
    back: EventResponse,
)
    requires
        framework_response_of(f, r),
        event_response_of(back, f),
    ensures
        back.status == r.status,
        back.headers@ == r.headers@,
        body_bytes(back.body) == body_bytes(r.body),
        r.body is Empty ==> back.body is Empty,
{
    if !(r.body is Empty) && body_bytes(r.body).len() == 0 {
        assert(body_bytes(back.body) =~= body_bytes(r.body));
    }
}

} // verus!
