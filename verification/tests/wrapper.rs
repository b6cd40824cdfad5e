use std::cell::Cell;

use trace_correlation::session::SessionId;
use trace_correlation::span::{trace_io, trace_output, trace_setup_input, EncodeError, SpanRecord};
use trace_correlation::store::TraceStore;
use trace_correlation::trace_context::TraceContext;

fn ctx(trace_id: u128, span_id: u64) -> TraceContext {
    TraceContext { trace_id, span_id, sampled: true, remote: true }
}

fn sid(s: &str) -> SessionId {
    SessionId::from_bytes(s.as_bytes().to_vec())
}

fn double(x: i32) -> Result<i32, String> {
    if x < 0 {
        Err("negative".to_string())
    } else {
        Ok(2 * x)
    }
}

#[test]
fn wrapper_is_transparent_on_success() {
    let store = TraceStore::new();
    let mut span = SpanRecord::new();
    let wrapped = trace_io(
        &store,
        None,
        Ok("21".to_string()),
        "unserializable input".to_string(),
        double,
        21,
        |o: &i32| Some(o.to_string()),
        &mut span,
    );
    assert_eq!(wrapped, double(21));
    assert_eq!(wrapped, Ok(42));
    assert_eq!(span.input, Some("21".to_string()));
    assert_eq!(span.output, Some("42".to_string()));
}

#[test]
fn wrapper_is_transparent_on_failure() {
    let store = TraceStore::new();
    let mut span = SpanRecord::new();
    let wrapped = trace_io(
        &store,
        None,
        Ok("-3".to_string()),
        "unserializable input".to_string(),
        double,
        -3,
        |o: &i32| Some(o.to_string()),
        &mut span,
    );
    assert_eq!(wrapped, double(-3));
    assert_eq!(wrapped, Err("negative".to_string()));
    // A failed call gets no fabricated output attribute.
    assert_eq!(span.input, Some("-3".to_string()));
    assert_eq!(span.output, None);
}

#[test]
fn input_encoding_failure_aborts_before_the_handler() {
    let store = TraceStore::new();
    let mut span = SpanRecord::new();
    let ran = Cell::new(false);
    let handler = |x: i32| -> Result<i32, String> {
        ran.set(true);
        Ok(x)
    };
    let wrapped = trace_io(
        &store,
        None,
        Err(EncodeError),
        "unserializable input".to_string(),
        handler,
        7,
        |o: &i32| Some(o.to_string()),
        &mut span,
    );
    assert_eq!(wrapped, Err("unserializable input".to_string()));
    assert!(!ran.get(), "the handler body must not execute");
    assert_eq!(span.input, None);
    assert_eq!(span.output, None);
}

#[test]
fn output_encoding_failure_keeps_the_result() {
    let store = TraceStore::new();
    let mut span = SpanRecord::new();
    let wrapped = trace_io(
        &store,
        None,
        Ok("5".to_string()),
        "unserializable input".to_string(),
        double,
        5,
        |_o: &i32| None,
        &mut span,
    );
    assert_eq!(wrapped, Ok(10));
    assert_eq!(span.output, None, "a dropped attribute write, not a failure");
}

#[test]
fn wrapper_resolves_the_session_parent() {
    let mut store = TraceStore::new();
    store.store_trace_context(sid("sess-1"), ctx(0xaaaa, 0xbbbb));
    store.observe_context(ctx(0x9999, 0x1111));
    let mut span = SpanRecord::new();
    let wrapped = trace_io(
        &store,
        Some(&sid("sess-1")),
        Ok("1".to_string()),
        "unserializable input".to_string(),
        double,
        1,
        |o: &i32| Some(o.to_string()),
        &mut span,
    );
    assert_eq!(wrapped, Ok(2));
    assert_eq!(span.parent, Some(ctx(0xaaaa, 0xbbbb)));
}

#[test]
fn wrapper_falls_back_when_the_session_is_unknown() {
    let mut store = TraceStore::new();
    store.observe_context(ctx(0x9999, 0x1111));
    let mut span = SpanRecord::new();
    let _ = trace_io(
        &store,
        Some(&sid("not-yet-written")),
        Ok("1".to_string()),
        "unserializable input".to_string(),
        double,
        1,
        |o: &i32| Some(o.to_string()),
        &mut span,
    );
    assert_eq!(span.parent, Some(ctx(0x9999, 0x1111)));
}

#[test]
fn wrapper_leaves_the_span_root_when_nothing_resolves() {
    let store = TraceStore::new();
    let mut span = SpanRecord::new();
    let _ = trace_io(
        &store,
        None,
        Ok("1".to_string()),
        "unserializable input".to_string(),
        double,
        1,
        |o: &i32| Some(o.to_string()),
        &mut span,
    );
    assert_eq!(span.parent, None);
}

#[test]
fn setup_and_output_phases_compose() {
    let mut store = TraceStore::new();
    store.store_trace_context(sid("sess-1"), ctx(3, 4));
    let mut span = SpanRecord::new();

    let input_json = serde_json::to_string(&7u32).map_err(|_| EncodeError);
    let setup = trace_setup_input(&mut span, &store, Some(&sid("sess-1")), input_json);
    assert_eq!(setup, Ok(()));
    assert_eq!(span.parent, Some(ctx(3, 4)));
    assert_eq!(span.input, Some("7".to_string()));

    let result = double(7);
    let output_json = serde_json::to_string(&14u32).expect("a number encodes");
    let result = trace_output(result, output_json, &mut span);
    assert_eq!(result, Ok(14));
    assert_eq!(span.output, Some("14".to_string()));
}

#[test]
fn setup_reports_the_encoding_error() {
    let store = TraceStore::new();
    let mut span = SpanRecord::new();
    let setup = trace_setup_input(&mut span, &store, None, Err(EncodeError));
    assert_eq!(setup, Err(EncodeError));
    assert_eq!(span.input, None);
}
