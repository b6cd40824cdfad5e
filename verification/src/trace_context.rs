//! The point-in-a-trace value that the registry correlates with sessions.

use vstd::prelude::*;

verus! {

/// An immutable identifier set describing where a unit of work sits within a
/// distributed trace: the trace identifier, the identifier of the parent
/// span, and the sampling decision. `remote` marks a context that was
/// propagated from another process (extracted from a carrier) rather than
/// created locally.
///
/// A context is never mutated; new contexts are derived when a new span is
/// started within a parent. Absence of a parent is represented by
/// `Option<TraceContext>` being `None`, never by an all-zero value: the
/// carrier codec refuses zero identifiers, so every `TraceContext` that
/// enters the store through the middleware is valid.
#[derive(Clone, Copy, Debug, PartialEq, Eq, Structural)]
pub struct TraceContext {
    /// 128-bit trace identifier; zero is invalid per the W3C trace-context
    /// format.
    pub trace_id: u128,
    /// 64-bit identifier of the parent span; zero is invalid.
    pub span_id: u64,
    /// Whether the caller recorded this trace as sampled.
    pub sampled: bool,
    /// Whether the context was received from a remote parent.
    pub remote: bool,
}

impl TraceContext {
    /// A context locates a point in a trace only if both identifiers are
    /// non-zero.
    pub open spec fn spec_valid(self) -> bool {
        self.trace_id != 0 && self.span_id != 0
    }

    /// Runtime check matching [`TraceContext::spec_valid`].
    pub fn is_valid(&self) -> (r: bool)
        ensures
            r == self.spec_valid(),
    {
        self.trace_id != 0 && self.span_id != 0
    }
}

} // verus!
