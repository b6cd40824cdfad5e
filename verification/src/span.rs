//! The span model and the uniform instrumentation wrapper around handlers.
//!
//! A [`SpanRecord`] is the library's explicit stand-in for "the current
//! span" of a call: which parent context it is attached to, and its `input`
//! and `output` attributes. It is plain data handed in by the caller — not
//! ambient state — so the wrapper's effect on the span is an ordinary
//! postcondition. A tracing adapter applies the finished record to its
//! backend after the call; a record applied to an already-finalized span may
//! be dropped there, never raised as a failure of the call.
//!
//! [`trace_io`] is the decorator applied once, at registration time, over
//! the uniform handler interface `Args -> Result<Output, Error>`: it
//! resolves the parent context from the store, records the call's input,
//! runs the handler, records its output on success, and returns the
//! handler's result unchanged. Handler authors write no tracing code.
//!
//! Serialization of inputs and outputs is the business of the registration
//! glue (argument types are required to be serializable by contract): the
//! wrapper takes the input's encoding as a value and the output's encoder as
//! a function, so that everything it does with them is verified.

use vstd::prelude::*;

use crate::session::SessionId;
use crate::store::{StoreModel, TraceStore};
use crate::trace_context::TraceContext;

verus! {

/// Failure to render a value as its structured (JSON) representation.
#[derive(Clone, Copy, Debug, PartialEq, Eq, Structural)]
pub struct EncodeError;

/// One call's span, as this library models it: the parent context the span
/// is attached to (or none, for a root span) and its recorded attributes.
#[derive(Debug)]
pub struct SpanRecord {
    /// The context the span is parented to; `None` is a root span.
    pub parent: Option<TraceContext>,
    /// The call's input payload, serialized, once recorded.
    pub input: Option<String>,
    /// The call's output payload, serialized, once recorded.
    pub output: Option<String>,
}

impl SpanRecord {
    /// A fresh span: root-parented, no attributes recorded.
    pub fn new() -> (r: SpanRecord)
        ensures
            r.parent is None,
            r.input is None,
            r.output is None,
    {
        SpanRecord { parent: None, input: None, output: None }
    }
}

/// How a call's parent context is resolved: the store entry for the call's
/// session if there is one, otherwise the fallback slot — also when a
/// session is known but has no entry yet (its first response may still be in
/// flight). Nothing found is not an error; the span stays root-parented.
pub open spec fn spec_resolve_parent(m: StoreModel, session: Option<Seq<u8>>) -> Option<
    TraceContext,
> {
    match session {
        Some(k) => if m.entries.contains_key(k) {
            Some(m.entries[k])
        } else {
            m.fallback
        },
        None => m.fallback,
    }
}

/// Resolves the parent context for a call, per [`spec_resolve_parent`].
pub fn resolve_parent(store: &TraceStore, session: Option<&SessionId>) -> (r: Option<TraceContext>)
    requires
        store.wf(),
    ensures
        r == spec_resolve_parent(
            store@,
            match session {
                Some(s) => Some(s@),
                None => None,
            },
        ),
{
    match session {
        Some(s) => match store.get_trace_context(s) {
            Some(c) => Some(c),
            None => store.get_current_trace_context(),
        },
        None => store.get_current_trace_context(),
    }
}

/// Pre-execution phase of the wrapper: resolve and attach the parent
/// context, then record the input attribute. A failed input encoding aborts
/// the call before the handler body runs — argument types must always be
/// serializable, so this is a programming-contract violation, not a quiet
/// drop of observability data; no attribute is recorded in that case.
pub fn trace_setup_input(
    span: &mut SpanRecord,
    store: &TraceStore,
    session: Option<&SessionId>,
    input_json: Result<String, EncodeError>,
) -> (r: Result<(), EncodeError>)
    requires
        store.wf(),
    ensures
        final(span).parent == (match spec_resolve_parent(
            store@,
            match session {
                Some(s) => Some(s@),
                None => None,
            },
        ) {
            Some(c) => Some(c),
            None => old(span).parent,
        }),
        final(span).output == old(span).output,
        match input_json {
            Ok(j) => r is Ok && final(span).input == Some(j),
            Err(e) => r == Err::<(), EncodeError>(e) && final(span).input == old(span).input,
        },
{
    match resolve_parent(store, session) {
        Some(c) => {
            span.parent = Some(c);
        },
        None => {},
    }
    match input_json {
        Ok(j) => {
            span.input = Some(j);
            Ok(())
        },
        Err(e) => Err(e),
    }
}

/// Post-execution phase of the wrapper: record the output attribute and
/// hand the result back unchanged — the wrapper never changes the business
/// outcome, only the observability side channel.
pub fn trace_output<T>(result: T, output_json: String, span: &mut SpanRecord) -> (r: T)
    ensures
        r == result,
        final(span).output == Some(output_json),
        final(span).parent == old(span).parent,
        final(span).input == old(span).input,
{
    span.output = Some(output_json);
    result
}

/// The uniform instrumentation wrapper, applied to every tool-handler entry
/// point at registration time.
///
/// Given the call's session (if resolvable), the input payload's encoding,
/// the handler and its argument, and the output encoder, it:
/// resolves and attaches the parent context (a miss leaves the span
/// root-parented); records the encoded input as the `input` attribute;
/// runs the handler; and on success records the encoded output as the
/// `output` attribute — a failed call gets no fabricated `output`, and a
/// failed output encoding drops the attribute rather than the result.
///
/// The returned value is exactly a result of `handler(args)` whenever the
/// input encoding was given (`call_ensures` below); when it was not, the
/// handler never runs and the call fails with `encode_failure`.
pub fn trace_io<A, O, E, F: FnOnce(A) -> Result<O, E>, G: FnOnce(&O) -> Option<String>>(
    store: &TraceStore,
    session: Option<&SessionId>,
    input_json: Result<String, EncodeError>,
    encode_failure: E,
    handler: F,
    args: A,
    encode_output: G,
    span: &mut SpanRecord,
) -> (r: Result<O, E>)
    requires
        store.wf(),
        input_json is Ok ==> call_requires(handler, (args,)),
        forall|o: O| call_requires(encode_output, (&o,)),
    ensures
        final(span).parent == (match spec_resolve_parent(
            store@,
            match session {
                Some(s) => Some(s@),
                None => None,
            },
        ) {
            Some(c) => Some(c),
            None => old(span).parent,
        }),
        match input_json {
            Ok(j) => final(span).input == Some(j) && call_ensures(handler, (args,), r),
            Err(_) => r == Err::<O, E>(encode_failure) && final(span).input == old(span).input,
        },
        r is Err ==> final(span).output == old(span).output,
        r matches Ok(o) ==> call_ensures(encode_output, (&o,), final(span).output),
{
    if trace_setup_input(span, store, session, input_json).is_err() {
        return Err(encode_failure);
    }
    let result = handler(args);
    match result {
        Ok(o) => {
            span.output = encode_output(&o);
            Ok(o)
        },
        Err(e) => Err(e),
    }
}

} // verus!
