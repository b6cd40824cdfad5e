//! Trace-context correlation for a session-based tool-invocation server.
//!
//! A client opens a logical session; the server assigns a session identifier
//! on the first response; later tool calls of the same session arrive as
//! independent HTTP requests that may or may not re-attach the original
//! W3C trace-context header. This library keeps every such call attached to
//! the trace that started the session:
//!
//! * [`trace_context`] — the immutable identifier set (trace id, parent span
//!   id, sampling flag) that locates a unit of work within a distributed
//!   trace;
//! * [`traceparent`] — the carrier codec: parsing and writing of the W3C
//!   `traceparent` header value;
//! * [`session`] — session identifiers and the validity rule for a
//!   session-identifying response header;
//! * [`store`] — the correlation registry keyed by session identifier, with
//!   a fallback slot holding the most recently observed context;
//! * [`middleware`] — the per-request propagation steps performed at the
//!   transport boundary;
//! * [`span`] — the span model and the uniform instrumentation wrapper that
//!   resolves a parent context, records input and output attributes, and
//!   hands execution to a business handler.
//!
//! The library itself performs no I/O and holds no ambient state: the store
//! is an explicitly constructed value, and the "current span" of a call is
//! an argument. A transport layer owns the store (behind whatever lock it
//! chooses), feeds header bytes in, and applies the returned contexts to its
//! tracing backend.

pub mod middleware;
pub mod session;
pub mod span;
pub mod store;
pub mod trace_context;
pub mod traceparent;
