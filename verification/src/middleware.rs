//! Per-request trace propagation at the transport boundary.
//!
//! The middleware is the single point where inbound header bytes become an
//! in-process trace context, and where a session's context is persisted for
//! reuse by later, context-less requests of the same session. A transport
//! adapter drives it in two steps around the inner service:
//!
//! 1. [`begin_request`] on arrival — extract a context from the request's
//!    `traceparent` header and note it in the store's fallback slot; the
//!    adapter sets the returned context as the parent of the span that
//!    represents the request and forwards the request unchanged;
//! 2. [`finish_request`] once the response is formed — if the response
//!    carries a well-formed session-identifying header and a context was
//!    extracted, commit the pair into the store. The response itself is
//!    never modified.
//!
//! A missing or malformed `traceparent` is the "no parent" case, not an
//! error; a missing or malformed session header merely skips the write-back.

use vstd::prelude::*;

use crate::session::{check_session_token, is_session_token, SessionId};
use crate::span::spec_resolve_parent;
use crate::store::{spec_observe, spec_put, StoreModel, TraceStore};
use crate::trace_context::TraceContext;
use crate::traceparent::{parse_traceparent, spec_parse_traceparent};

verus! {

/// The extracted parent context of one request, as stored alongside the
/// request while it travels through the inner service (e.g. in request
/// extensions); `None` when the request carried no usable header.
#[derive(Clone, Copy, Debug)]
pub struct TraceParentContext(pub Option<TraceContext>);

/// A tower-style layer that wraps an inner service with trace propagation.
#[derive(Clone, Copy, Debug, Default)]
pub struct TracePropagationLayer;

/// The wrapped service: the inner service plus the propagation steps a
/// transport adapter performs around each call to it.
#[derive(Clone, Debug)]
pub struct TracePropagationMiddleware<S> {
    pub inner: S,
}

impl TracePropagationLayer {
    /// Wraps `inner` without altering it.
    pub fn layer<S>(&self, inner: S) -> (r: TracePropagationMiddleware<S>)
        ensures
            r.inner == inner,
    {
        TracePropagationMiddleware { inner }
    }
}

/// What step 1 extracts from a request's `traceparent` header, if one came.
pub open spec fn spec_extracted(traceparent: Option<Seq<u8>>) -> Option<TraceContext> {
    match traceparent {
        Some(h) => spec_parse_traceparent(h),
        None => None,
    }
}

/// The store after the write-back decision of step 2: the extracted context
/// is committed for the session the response names, and only then. A
/// response without a session header, a malformed session header, and a
/// request that yielded no context all leave the entries untouched.
pub open spec fn spec_write_back(
    m: StoreModel,
    session_header: Option<Seq<u8>>,
    extracted: Option<TraceContext>,
) -> StoreModel {
    match (session_header, extracted) {
        (Some(h), Some(c)) => if is_session_token(h) {
            spec_put(m, h, c)
        } else {
            m
        },
        _ => m,
    }
}

/// Step 1, on request arrival: extract a trace context from the request's
/// `traceparent` header value, if any. A usable context also overwrites the
/// store's fallback slot, so that the fallback reflects the most recent
/// request's context whether or not a session identifier is determined
/// later; the entries are untouched. The caller sets the returned context as
/// the parent of the request's span.
pub fn begin_request(store: &mut TraceStore, traceparent: Option<&[u8]>) -> (r: Option<
    TraceContext,
>)
    requires
        old(store).wf(),
    ensures
        final(store).wf(),
        r == spec_extracted(
            match traceparent {
                Some(h) => Some(h@),
                None => None,
            },
        ),
        final(store)@ == (match r {
            Some(c) => spec_observe(old(store)@, c),
            None => old(store)@,
        }),
{
    match traceparent {
        Some(h) => {
            match parse_traceparent(h) {
                Some(c) => {
                    store.observe_context(c);
                    Some(c)
                },
                None => None,
            }
        },
        None => None,
    }
}

/// Step 2, after the response is formed: if the response carries a
/// well-formed session-identifying header and step 1 extracted a context,
/// commit the pair into the store. Anything else performs no write-back.
pub fn finish_request(
    store: &mut TraceStore,
    session_header: Option<&[u8]>,
    extracted: Option<TraceContext>,
)
    requires
        old(store).wf(),
    ensures
        final(store).wf(),
        final(store)@ == spec_write_back(
            old(store)@,
            match session_header {
                Some(h) => Some(h@),
                None => None,
            },
            extracted,
        ),
{
    match (session_header, extracted) {
        (Some(h), Some(c)) => {
            if check_session_token(h) {
                let key = SessionId::from_bytes(vstd::slice::slice_to_vec(h));
                store.store_trace_context(key, c);
            }
        },
        _ => {},
    }
}

/// Session continuity: once a response's write-back has committed context
/// `c` for session `h`, a call of that session resolves its parent to `c` —
/// the trace that started the session — even if the call itself carries no
/// header.
pub proof fn lemma_session_continuity(m: StoreModel, h: Seq<u8>, c: TraceContext)
    requires
        is_session_token(h),
    ensures
        spec_resolve_parent(spec_write_back(m, Some(h), Some(c)), Some(h)) == Some(c),
{
}

} // verus!
