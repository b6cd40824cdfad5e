//! Carrier codec for the W3C `traceparent` header value.
//!
//! The wire form is `00-<32 hex>-<16 hex>-<2 hex>`: a `00` version, the
//! trace identifier, the parent span identifier and the trace flags, all in
//! lowercase hexadecimal and separated by dashes — 55 bytes in all. A value
//! of any other shape (wrong length or version, uppercase digits, a zero
//! trace or span identifier) does not locate a point in a trace and is
//! treated as carrying no context at all; that is the "no parent" case, not
//! an error. Of the flags byte only the sampling bit (bit 0) is kept.

use vstd::arithmetic::div_mod::{lemma_fundamental_div_mod, lemma_multiply_divide_lt};
use vstd::arithmetic::power2::{lemma2_to64, lemma_pow2_adds, lemma_pow2_strictly_increases, pow2};
use vstd::prelude::*;

use crate::trace_context::TraceContext;

verus! {

/// Lowercase hexadecimal digits are the only ones the wire form admits.
pub open spec fn is_hex_digit(b: u8) -> bool {
    (0x30 <= b && b <= 0x39) || (0x61 <= b && b <= 0x66)
}

/// Numeric value of one lowercase hexadecimal digit.
pub open spec fn hex_digit_value(b: u8) -> nat
    recommends
        is_hex_digit(b),
{
    if 0x30 <= b && b <= 0x39 {
        (b - 0x30) as nat
    } else {
        (b - 0x61 + 10) as nat
    }
}

/// The lowercase hexadecimal digit for a value below 16.
pub open spec fn hex_digit_of(v: nat) -> u8
    recommends
        v < 16,
{
    if v < 10 {
        (v + 0x30) as u8
    } else {
        (v + 0x57) as u8
    }
}

/// Every byte of `s` is a lowercase hexadecimal digit.
pub open spec fn all_hex(s: Seq<u8>) -> bool {
    forall|i: int| 0 <= i < s.len() ==> is_hex_digit(#[trigger] s[i])
}

/// The number a big-endian string of hexadecimal digits denotes.
pub open spec fn hex_value(s: Seq<u8>) -> nat
    decreases s.len(),
{
    if s.len() == 0 {
        0
    } else {
        16 * hex_value(s.drop_last()) + hex_digit_value(s.last())
    }
}

/// The `n`-digit big-endian hexadecimal spelling of `v`.
pub open spec fn hex_digits(v: nat, n: nat) -> Seq<u8>
    decreases n,
{
    if n == 0 {
        Seq::empty()
    } else {
        hex_digits(v / 16, (n - 1) as nat).push(hex_digit_of(v % 16))
    }
}

proof fn lemma_hex_value_bound(s: Seq<u8>)
    requires
        all_hex(s),
    ensures
        hex_value(s) < pow2(4 * s.len()),
    decreases s.len(),
{
    lemma2_to64();
    if s.len() == 0 {
    } else {
        lemma_hex_value_bound(s.drop_last());
        lemma_pow2_adds(4 * (s.len() - 1) as nat, 4);
        assert(is_hex_digit(s[s.len() - 1]));
        assert(hex_digit_value(s.last()) < 16);
    }
}

proof fn lemma_hex_digits_value(v: nat, n: nat)
    requires
        v < pow2(4 * n),
    ensures
        hex_digits(v, n).len() == n,
        all_hex(hex_digits(v, n)),
        hex_value(hex_digits(v, n)) == v,
    decreases n,
{
    lemma2_to64();
    if n == 0 {
    } else {
        lemma_pow2_adds(4 * (n - 1) as nat, 4);
        lemma_multiply_divide_lt(v as int, 16, pow2(4 * (n - 1) as nat) as int);
        lemma_hex_digits_value(v / 16, (n - 1) as nat);
        lemma_fundamental_div_mod(v as int, 16);
        assert(is_hex_digit(hex_digit_of(v % 16)));
        assert(hex_digits(v, n).drop_last() =~= hex_digits(v / 16, (n - 1) as nat));
    }
}

proof fn lemma_pow2_128()
    ensures
        pow2(128) == 0x100000000000000000000000000000000,
        pow2(64) == 0x10000000000000000,
{
    lemma2_to64();
    lemma_pow2_adds(64, 64);
}

/// Reads the `len` bytes of `s` starting at `start` as a big-endian
/// lowercase-hexadecimal number; `None` exactly when some byte is not a
/// lowercase hexadecimal digit.
fn parse_hex(s: &[u8], start: usize, len: usize) -> (r: Option<u128>)
    requires
        start + len <= s@.len(),
        len <= 32,
    ensures
        match r {
            Some(v) => all_hex(s@.subrange(start as int, start + len)) && v == hex_value(
                s@.subrange(start as int, start + len),
            ),
            None => !all_hex(s@.subrange(start as int, start + len)),
        },
{
    let n: usize = s.len();
    let mut acc: u128 = 0;
    let mut i: usize = 0;
    while i < len
        invariant
            0 <= i <= len,
            start + len <= n,
            n == s@.len(),
            len <= 32,
            all_hex(s@.subrange(start as int, start + i)),
            acc == hex_value(s@.subrange(start as int, start + i)),
        decreases len - i,
    {
        let b: u8 = s[start + i];
        let d: u8 = if 0x30 <= b && b <= 0x39 {
            b - 0x30
        } else if 0x61 <= b && b <= 0x66 {
            b - 0x61 + 10
        } else {
            proof {
                assert(!is_hex_digit(b));
                assert(s@.subrange(start as int, start + len)[i as int] == b);
            }
            return None;
        };
        proof {
            let prefix = s@.subrange(start as int, start + i);
            lemma_hex_value_bound(prefix);
            lemma_pow2_128();
            lemma_pow2_adds(4 * (i as nat), 4);
            lemma2_to64();
            if 4 * i + 4 < 128 {
                lemma_pow2_strictly_increases(4 * (i as nat) + 4, 128);
            }
            assert(acc * 16 + d < pow2(4 * (i as nat) + 4));
        }
        acc = acc * 16 + (d as u128);
        proof {
            let prefix = s@.subrange(start as int, start + i);
            let extended = s@.subrange(start as int, start + i + 1);
            assert(extended.drop_last() =~= prefix);
            assert(extended.last() == b);
            assert(is_hex_digit(b));
            assert(hex_digit_value(b) == d as nat);
        }
        i = i + 1;
    }
    proof {
        assert(s@.subrange(start as int, start + i) =~= s@.subrange(start as int, start + len));
    }
    Some(acc)
}

/// The 55-byte wire shape: version `00`, dashes in place, every identifier
/// digit lowercase hexadecimal, and non-zero trace and span identifiers.
pub open spec fn well_formed_traceparent(s: Seq<u8>) -> bool {
    &&& s.len() == 55
    &&& s[0] == 0x30 && s[1] == 0x30
    &&& s[2] == 0x2d && s[35] == 0x2d && s[52] == 0x2d
    &&& all_hex(s.subrange(3, 35))
    &&& all_hex(s.subrange(36, 52))
    &&& all_hex(s.subrange(53, 55))
    &&& hex_value(s.subrange(3, 35)) != 0
    &&& hex_value(s.subrange(36, 52)) != 0
}

/// What extraction yields: the context a well-formed value denotes — marked
/// remote, keeping only the sampling bit of the flags — and nothing for any
/// other byte string.
pub open spec fn spec_parse_traceparent(s: Seq<u8>) -> Option<TraceContext> {
    if well_formed_traceparent(s) {
        Some(
            TraceContext {
                trace_id: hex_value(s.subrange(3, 35)) as u128,
                span_id: hex_value(s.subrange(36, 52)) as u64,
                sampled: hex_value(s.subrange(53, 55)) % 2 == 1,
                remote: true,
            },
        )
    } else {
        None
    }
}

/// Extracts a trace context from a `traceparent` header value, per
/// [`spec_parse_traceparent`]. Absence of a result is the "no parent" case,
/// not an error.
pub fn parse_traceparent(bytes: &[u8]) -> (r: Option<TraceContext>)
    ensures
        r == spec_parse_traceparent(bytes@),
{
    if bytes.len() != 55 {
        return None;
    }
    if !(bytes[0] == 0x30 && bytes[1] == 0x30 && bytes[2] == 0x2d && bytes[35] == 0x2d
        && bytes[52] == 0x2d) {
        return None;
    }
    let trace = parse_hex(bytes, 3, 32);
    let span = parse_hex(bytes, 36, 16);
    let flags = parse_hex(bytes, 53, 2);
    match (trace, span, flags) {
        (Some(t), Some(sp), Some(f)) => {
            if t == 0 || sp == 0 {
                return None;
            }
            proof {
                lemma_hex_value_bound(bytes@.subrange(36, 52));
                lemma_pow2_128();
            }
            Some(
                TraceContext {
                    trace_id: t,
                    span_id: sp as u64,
                    sampled: f % 2 == 1,
                    remote: true,
                },
            )
        },
        _ => None,
    }
}

/// The wire spelling of a context: `00-`, the trace identifier, `-`, the
/// span identifier, `-`, and `00` or `01` as the context is unsampled or
/// sampled.
pub open spec fn spec_format_traceparent(c: TraceContext) -> Seq<u8> {
    seq![0x30u8, 0x30u8, 0x2du8] + hex_digits(c.trace_id as nat, 32) + seq![0x2du8] + hex_digits(
        c.span_id as nat,
        16,
    ) + seq![0x2du8, 0x30u8, if c.sampled {
        0x31u8
    } else {
        0x30u8
    }]
}

/// Appends the `n`-digit big-endian lowercase-hexadecimal spelling of `v`.
fn push_hex_digits(out: &mut Vec<u8>, v: u128, n: usize)
    ensures
        final(out)@ == old(out)@ + hex_digits(v as nat, n as nat),
    decreases n,
{
    if n == 0 {
        proof {
            assert(out@ =~= old(out)@ + hex_digits(v as nat, 0));
        }
        return;
    }
    push_hex_digits(out, v / 16, n - 1);
    let d: u8 = (v % 16) as u8;
    let b: u8 = if d < 10 {
        d + 0x30
    } else {
        d + 0x57
    };
    out.push(b);
    proof {
        assert(b == hex_digit_of((v as nat) % 16));
        assert(out@ =~= old(out)@ + hex_digits(v as nat, n as nat));
    }
}

/// Writes `c` as a `traceparent` header value, per
/// [`spec_format_traceparent`].
pub fn format_traceparent(c: &TraceContext) -> (r: Vec<u8>)
    ensures
        r@ == spec_format_traceparent(*c),
{
    let mut out: Vec<u8> = Vec::new();
    out.push(0x30);
    out.push(0x30);
    out.push(0x2d);
    push_hex_digits(&mut out, c.trace_id, 32);
    out.push(0x2d);
    push_hex_digits(&mut out, c.span_id as u128, 16);
    out.push(0x2d);
    out.push(0x30);
    out.push(if c.sampled {
        0x31
    } else {
        0x30
    });
    proof {
        assert(out@ =~= spec_format_traceparent(*c));
    }
    out
}

/// The codec round-trips: a valid context written as a header value is
/// extracted back unchanged, except that the extracted copy is marked
/// remote — exactly what a peer on the other side of the transport would
/// reconstruct.
pub proof fn lemma_codec_round_trip(c: TraceContext)
    requires
        c.spec_valid(),
    ensures
        spec_parse_traceparent(spec_format_traceparent(c)) == Some(
            TraceContext {
                trace_id: c.trace_id,
                span_id: c.span_id,
                sampled: c.sampled,
                remote: true,
            },
        ),
{
    let s = spec_format_traceparent(c);
    lemma_pow2_128();
    lemma_hex_digits_value(c.trace_id as nat, 32);
    lemma_hex_digits_value(c.span_id as nat, 16);
    assert(s.subrange(3, 35) =~= hex_digits(c.trace_id as nat, 32));
    assert(s.subrange(36, 52) =~= hex_digits(c.span_id as nat, 16));
    assert(s.subrange(53, 55) =~= seq![0x30u8, if c.sampled {
        0x31u8
    } else {
        0x30u8
    }]);
    let flags = s.subrange(53, 55);
    let tens = seq![0x30u8];
    assert(tens.drop_last() =~= Seq::<u8>::empty());
    assert(hex_value(Seq::<u8>::empty()) == 0);
    assert(tens.last() == 0x30u8);
    assert(hex_value(tens) == 0);
    assert(flags.drop_last() =~= tens);
    assert(flags.last() == (if c.sampled {
        0x31u8
    } else {
        0x30u8
    }));
    assert(hex_value(flags) == hex_digit_value(flags.last()));
    assert(hex_value(flags) == (if c.sampled {
        1nat
    } else {
        0nat
    }));
    assert(all_hex(flags));
    assert(well_formed_traceparent(s));
}

} // verus!
