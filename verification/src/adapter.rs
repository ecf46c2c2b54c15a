//! The verified decision core of the event-dispatch adapters: a readiness
//! gate in front of a wrapped router, and the two-phase transformation of a
//! dispatched call's outcome into an event response.

use vstd::prelude::*;
use crate::body::{classifies, classify_bytes, concat_bytes, materialize};
use crate::message::{
    AdapterError, EventRequest, EventResponse, FrameworkRequest, HeaderPair,
    framework_request_of,
};
use crate::request::event_to_framework_request;

verus! {

/// The two suspension phases of turning a dispatched call into an event
/// response: first the framework must produce a response head with a
/// streaming body, then that body must be fully drained. The tag records
/// what has already arrived.
#[derive(Debug)]
pub enum TransformPhase {
    /// Still waiting for the framework to produce a response.
    WaitResponse,
    /// The response head arrived; waiting for the body to drain.
    WaitBody { status: u16, headers: Vec<HeaderPair> },
}

/// The state of one response transformation, stepped forward by the caller
/// as the framework's response and then its drained body arrive.
#[derive(Debug)]
pub struct TransformResponse {
    pub phase: TransformPhase,
}

impl TransformResponse {
    /// A fresh transformation, in the initial waiting-for-response phase.
    pub fn new() -> (r: TransformResponse)
        ensures
            r.phase is WaitResponse,
    {
        TransformResponse { phase: TransformPhase::WaitResponse }
    }

    /// The framework produced its response head: keep the head and wait for
    /// the body.
    pub fn on_response(self, status: u16, headers: Vec<HeaderPair>) -> (r: TransformResponse)
        requires
            self.phase is WaitResponse,
        ensures
            (r.phase matches TransformPhase::WaitBody { status: s, headers: h } && s == status
                && h@ == headers@),
    {
        TransformResponse { phase: TransformPhase::WaitBody { status, headers } }
    }

    /// The streamed body drained into its chunks: materialize them into one
    /// buffer, classify the result, and emit the final event response. A
    /// body that drained to nothing classifies as the absent variant.
    pub fn on_body_drained(self, chunks: Vec<Vec<u8>>) -> (r: EventResponse)
        requires
            self.phase is WaitBody,
        ensures
            r.status == self.phase->WaitBody_status,
            r.headers@ == self.phase->WaitBody_headers@,
            classifies(concat_bytes(chunks@), r.body),
    {
        match self.phase {
            TransformPhase::WaitBody { status, headers } => {
                let body = classify_bytes(materialize(chunks));
                EventResponse { status, headers, body }
            },
            TransformPhase::WaitResponse => vstd::pervasive::unreached(),
        }
    }
}

/// The verified core of the router adapter. It latches the readiness the
/// wrapped router last reported and refuses to start a call while the router
/// is not ready, propagating that as a dispatch error instead of calling
/// through.
pub struct AxumService {
    ready: bool,
}

impl AxumService {
    /// Whether the wrapped router's last poll reported it ready for a call.
    pub closed spec fn is_ready(&self) -> bool {
        self.ready
    }

    /// A fresh adapter; the router has not reported readiness yet.
    pub fn new() -> (s: AxumService)
        ensures
            !s.is_ready(),
    {
        AxumService { ready: false }
    }

    /// Record what polling the wrapped router's readiness reported.
    pub fn poll_ready(&mut self, router_ready: bool)
        ensures
            final(self).is_ready() == router_ready,
    {
        self.ready = router_ready;
    }

    /// Start one call: convert the event request into the framework request
    /// and enter the first waiting phase — or refuse when the router is not
    /// ready. Starting a call uses the readiness report up, so the router
    /// must be polled again before the next call.
    pub fn call<C, R>(&mut self, q: EventRequest<C, R>) -> (r: Result<
        (FrameworkRequest<C, R>, TransformResponse),
        AdapterError,
    >)
        ensures
            old(self).is_ready() <==> r is Ok,
            !final(self).is_ready(),
            r matches Err(e) ==> e == AdapterError::NotReady,
            r matches Ok((f, t)) ==> framework_request_of(f, q) && t.phase is WaitResponse,
    {
        if self.ready {
            self.ready = false;
            let f = event_to_framework_request(q);
            Ok((f, TransformResponse::new()))
        } else {
            Err(AdapterError::NotReady)
        }
    }
}

} // verus!
