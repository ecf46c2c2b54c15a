//! Converting requests between the event shape and the framework shape, in
//! both directions. Each conversion carries the head fields through field
//! for field and translates only the body representation.

use vstd::prelude::*;
use crate::body::{Body, body_to_bytes};
use crate::message::{EventRequest, FrameworkRequest, framework_request_of};

verus! {

/// Convert an inbound event request into the framework request shape. Every
/// head field is carried over unchanged, the body union is encoded as the
/// byte payload (an absent body encodes as an empty payload), and the two
/// side-channel slots — the invocation context and the raw request context —
/// are attached to the framework request exactly when the inbound event
/// carried them, so framework handlers can read them from their extension
/// slots. All other side-channel entries are dropped on purpose: they repeat
/// what the URI already carries.
pub fn event_to_framework_request<C, R>(q: EventRequest<C, R>) -> (f: FrameworkRequest<C, R>)
    ensures
        framework_request_of(f, q),
{
    let EventRequest { method, uri, version, headers, context, request_context, body } = q;
    let payload = body_to_bytes(body);
    FrameworkRequest { method, uri, version, headers, payload, context, request_context }
}

/// Convert a native server request whose body has been drained into the
/// event request shape. The drained payload is always handed on as the
/// binary variant, byte for byte; the local server never guesses text.
pub fn native_to_event_request<C, R>(f: FrameworkRequest<C, R>) -> (q: EventRequest<C, R>)
    ensures
        q.method@ == f.method@,
        q.uri@ == f.uri@,
        q.version == f.version,
        q.headers@ == f.headers@,
        q.context == f.context,
        q.request_context == f.request_context,
        (q.body matches Body::Binary(v) && v@ == f.payload@),
{
    let FrameworkRequest { method, uri, version, headers, payload, context, request_context } = f;
    EventRequest {
        method,
        uri,
        version,
        headers,
        context,
        request_context,
        body: Body::Binary(payload),
    }
}

} // verus!
