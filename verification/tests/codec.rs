use trace_correlation::trace_context::TraceContext;
use trace_correlation::traceparent::{format_traceparent, parse_traceparent};

const W3C_EXAMPLE: &[u8] = b"00-4bf92f3577b34da6a3ce929d0e0e4736-00f067aa0ba902b7-01";

#[test]
fn parses_w3c_example() {
    let c = parse_traceparent(W3C_EXAMPLE).expect("well-formed header");
    assert_eq!(c.trace_id, 0x4bf92f3577b34da6a3ce929d0e0e4736);
    assert_eq!(c.span_id, 0x00f067aa0ba902b7);
    assert!(c.sampled);
    assert!(c.remote);
}

#[test]
fn parses_unsampled_flags() {
    let c = parse_traceparent(b"00-0123456789abcdef0123456789abcdef-abcdefabcdef0123-00")
        .expect("well-formed header");
    assert_eq!(c.trace_id, 0x0123456789abcdef0123456789abcdef);
    assert_eq!(c.span_id, 0xabcdefabcdef0123);
    assert!(!c.sampled);
}

#[test]
fn keeps_only_the_sampling_bit() {
    let c = parse_traceparent(b"00-0123456789abcdef0123456789abcdef-abcdefabcdef0123-ff")
        .expect("well-formed header");
    assert!(c.sampled);
    let c = parse_traceparent(b"00-0123456789abcdef0123456789abcdef-abcdefabcdef0123-fe")
        .expect("well-formed header");
    assert!(!c.sampled);
}

#[test]
fn rejects_wrong_length() {
    assert_eq!(parse_traceparent(b""), None);
    assert_eq!(parse_traceparent(b"00-abc-def-01"), None);
    assert_eq!(
        parse_traceparent(b"00-4bf92f3577b34da6a3ce929d0e0e4736-00f067aa0ba902b7-01-extra"),
        None
    );
}

#[test]
fn rejects_other_versions() {
    assert_eq!(
        parse_traceparent(b"01-4bf92f3577b34da6a3ce929d0e0e4736-00f067aa0ba902b7-01"),
        None
    );
    assert_eq!(
        parse_traceparent(b"ff-4bf92f3577b34da6a3ce929d0e0e4736-00f067aa0ba902b7-01"),
        None
    );
}

#[test]
fn rejects_uppercase_digits() {
    assert_eq!(
        parse_traceparent(b"00-4BF92F3577B34DA6A3CE929D0E0E4736-00f067aa0ba902b7-01"),
        None
    );
    assert_eq!(
        parse_traceparent(b"00-4bf92f3577b34da6a3ce929d0e0e4736-00F067AA0BA902B7-01"),
        None
    );
}

#[test]
fn rejects_non_hex_bytes() {
    assert_eq!(
        parse_traceparent(b"00-4bf92f3577b34da6a3ce929d0e0e473g-00f067aa0ba902b7-01"),
        None
    );
    assert_eq!(
        parse_traceparent(b"00-4bf92f3577b34da6a3ce929d0e0e4736-00f067aa0ba902b7-0x"),
        None
    );
}

#[test]
fn rejects_zero_identifiers() {
    assert_eq!(
        parse_traceparent(b"00-00000000000000000000000000000000-00f067aa0ba902b7-01"),
        None
    );
    assert_eq!(
        parse_traceparent(b"00-4bf92f3577b34da6a3ce929d0e0e4736-0000000000000000-01"),
        None
    );
}

#[test]
fn rejects_misplaced_separators() {
    assert_eq!(
        parse_traceparent(b"00x4bf92f3577b34da6a3ce929d0e0e4736-00f067aa0ba902b7-01"),
        None
    );
    assert_eq!(
        parse_traceparent(b"00-4bf92f3577b34da6a3ce929d0e0e4736x00f067aa0ba902b7-01"),
        None
    );
}

#[test]
fn formats_exact_wire_shape() {
    let c = TraceContext {
        trace_id: 0x4bf92f3577b34da6a3ce929d0e0e4736,
        span_id: 0x00f067aa0ba902b7,
        sampled: true,
        remote: false,
    };
    assert_eq!(format_traceparent(&c), W3C_EXAMPLE.to_vec());
    let unsampled = TraceContext { sampled: false, ..c };
    assert_eq!(
        format_traceparent(&unsampled),
        b"00-4bf92f3577b34da6a3ce929d0e0e4736-00f067aa0ba902b7-00".to_vec()
    );
}

#[test]
fn round_trips_through_the_wire() {
    let c = TraceContext {
        trace_id: 0x0102030405060708090a0b0c0d0e0f10,
        span_id: 0x1112131415161718,
        sampled: false,
        remote: false,
    };
    let written = format_traceparent(&c);
    let back = parse_traceparent(&written).expect("own output is well-formed");
    assert_eq!(back.trace_id, c.trace_id);
    assert_eq!(back.span_id, c.span_id);
    assert_eq!(back.sampled, c.sampled);
    assert!(back.remote);
}
