//! The wire codec: one JSON frame per domain message.
//!
//! Requests are externally tagged by variant name; the unit variants
//! serialize as their bare quoted name, so the three valid inbound frames
//! are exactly `"Increment"`, `"Decrement"` and `"Reset"`. Responses are
//! tagged objects, `{"Counter":<value>}` with the value in decimal. The
//! codec works on frame bytes; every frame here is pure ASCII.
//!
//! A frame that is not one of the three request frames parses to `None`:
//! a connection-local protocol error for the caller to absorb, never a
//! session-wide fault.

use vstd::prelude::*;

use crate::domain::{Request, Response};

verus! {

/// The ASCII byte of one decimal digit.
pub open spec fn digit_byte(d: nat) -> u8 {
    (48 + d % 10) as u8
}

/// The decimal digit bytes of `n`, most significant first, no sign and no
/// leading zero (a single zero for `n == 0`).
pub open spec fn dec_digits(n: nat) -> Seq<u8>
    decreases n,
{
    if n < 10 {
        seq![digit_byte(n)]
    } else {
        dec_digits(n / 10).push(digit_byte(n % 10))
    }
}

/// The decimal rendering of a signed value: a leading `-` for negatives,
/// then the digits of its magnitude.
pub open spec fn int_digits(v: int) -> Seq<u8> {
    if v < 0 {
        seq![('-' as u8)] + dec_digits((-v) as nat)
    } else {
        dec_digits(v as nat)
    }
}

/// The bytes of `{"Counter":`, the opening of every response frame.
pub open spec fn counter_prefix() -> Seq<u8> {
    seq![
        ('{' as u8),
        ('"' as u8),
        ('C' as u8),
        ('o' as u8),
        ('u' as u8),
        ('n' as u8),
        ('t' as u8),
        ('e' as u8),
        ('r' as u8),
        ('"' as u8),
        (':' as u8),
    ]
}

/// The frame that encodes one response.
pub open spec fn response_frame(resp: Response) -> Seq<u8> {
    match resp {
        Response::Counter(v) => counter_prefix() + int_digits(v as int) + seq![('}' as u8)],
    }
}

/// The frame `"Increment"`.
pub open spec fn increment_frame() -> Seq<u8> {
    seq![
        ('"' as u8),
        ('I' as u8),
        ('n' as u8),
        ('c' as u8),
        ('r' as u8),
        ('e' as u8),
        ('m' as u8),
        ('e' as u8),
        ('n' as u8),
        ('t' as u8),
        ('"' as u8),
    ]
}

/// The frame `"Decrement"`.
pub open spec fn decrement_frame() -> Seq<u8> {
    seq![
        ('"' as u8),
        ('D' as u8),
        ('e' as u8),
        ('c' as u8),
        ('r' as u8),
        ('e' as u8),
        ('m' as u8),
        ('e' as u8),
        ('n' as u8),
        ('t' as u8),
        ('"' as u8),
    ]
}

/// The frame `"Reset"`.
pub open spec fn reset_frame() -> Seq<u8> {
    seq![
        ('"' as u8),
        ('R' as u8),
        ('e' as u8),
        ('s' as u8),
        ('e' as u8),
        ('t' as u8),
        ('"' as u8),
    ]
}

/// The request one inbound frame carries: `None` for every frame that is
/// not exactly one of the three request frames.
pub open spec fn request_of_frame(frame: Seq<u8>) -> Option<Request> {
    if frame == increment_frame() {
        Some(Request::Increment())
    } else if frame == decrement_frame() {
        Some(Request::Decrement())
    } else if frame == reset_frame() {
        Some(Request::Reset())
    } else {
        None
    }
}

/// Whether two byte strings hold the same bytes.
fn bytes_eq(a: &[u8], b: &[u8]) -> (r: bool)
    ensures
        r == (a@ == b@),
{
    if a.len() != b.len() {
        return false;
    }
    let mut i: usize = 0;
    while i < a.len()
        invariant
            i <= a.len(),
            a.len() == b.len(),
            forall|j: int| 0 <= j < i ==> a@[j] == b@[j],
        decreases a.len() - i,
    {
        if a[i] != b[i] {
            return false;
        }
        i += 1;
    }
    proof {
        assert(a@ =~= b@);
    }
    true
}

/// The bytes of the frame `"Increment"`.
fn increment_bytes() -> (v: Vec<u8>)
    ensures
        v@ == increment_frame(),
{
    let mut v: Vec<u8> = Vec::new();
    v.push('"' as u8);
    v.push('I' as u8);
    v.push('n' as u8);
    v.push('c' as u8);
    v.push('r' as u8);
    v.push('e' as u8);
    v.push('m' as u8);
    v.push('e' as u8);
    v.push('n' as u8);
    v.push('t' as u8);
    v.push('"' as u8);
    proof {
        assert(v@ =~= increment_frame());
    }
    v
}

/// The bytes of the frame `"Decrement"`.
fn decrement_bytes() -> (v: Vec<u8>)
    ensures
        v@ == decrement_frame(),
{
    let mut v: Vec<u8> = Vec::new();
    v.push('"' as u8);
    v.push('D' as u8);
    v.push('e' as u8);
    v.push('c' as u8);
    v.push('r' as u8);
    v.push('e' as u8);
    v.push('m' as u8);
    v.push('e' as u8);
    v.push('n' as u8);
    v.push('t' as u8);
    v.push('"' as u8);
    proof {
        assert(v@ =~= decrement_frame());
    }
    v
}

/// The bytes of the frame `"Reset"`.
fn reset_bytes() -> (v: Vec<u8>)
    ensures
        v@ == reset_frame(),
{
    let mut v: Vec<u8> = Vec::new();
    v.push('"' as u8);
    v.push('R' as u8);
    v.push('e' as u8);
    v.push('s' as u8);
    v.push('e' as u8);
    v.push('t' as u8);
    v.push('"' as u8);
    proof {
        assert(v@ =~= reset_frame());
    }
    v
}

/// Decode one inbound frame into a domain request. Returns `Some` exactly
/// on the three request frames, `None` on everything else.
pub fn parse_request(frame: &[u8]) -> (req: Option<Request>)
    ensures
        req == request_of_frame(frame@),
{
    let inc = increment_bytes();
    if bytes_eq(frame, inc.as_slice()) {
        return Some(Request::Increment());
    }
    let dec = decrement_bytes();
    if bytes_eq(frame, dec.as_slice()) {
        return Some(Request::Decrement());
    }
    let rst = reset_bytes();
    if bytes_eq(frame, rst.as_slice()) {
        return Some(Request::Reset());
    }
    None
}

/// Append the decimal digits of `n`, most significant first.
fn push_dec_digits(out: &mut Vec<u8>, n: u64)
    ensures
        final(out)@ == old(out)@ + dec_digits(n as nat),
    decreases n,
{
    if n < 10 {
        out.push((n as u8) + 48);
        proof {
            assert(out@ =~= old(out)@ + dec_digits(n as nat));
        }
    } else {
        push_dec_digits(out, n / 10);
        out.push(((n % 10) as u8) + 48);
        proof {
            assert(out@ =~= old(out)@ + dec_digits(n as nat));
        }
    }
}

/// Append the decimal rendering of `v`, sign included.
fn push_int_digits(out: &mut Vec<u8>, v: i64)
    ensures
        final(out)@ == old(out)@ + int_digits(v as int),
{
    if v < 0 {
        out.push('-' as u8);
        let mag: u64 = if v == i64::MIN {
            9223372036854775808u64
        } else {
            (-v) as u64
        };
        proof {
            assert(mag as nat == (-(v as int)) as nat);
        }
        push_dec_digits(out, mag);
        proof {
            assert(out@ =~= old(out)@ + int_digits(v as int));
        }
    } else {
        push_dec_digits(out, v as u64);
    }
}

/// Encode one response as its wire frame, `{"Counter":<value>}`.
pub fn encode_response(resp: &Response) -> (frame: Vec<u8>)
    ensures
        frame@ == response_frame(*resp),
{
    let mut out: Vec<u8> = Vec::new();
    out.push('{' as u8);
    out.push('"' as u8);
    out.push('C' as u8);
    out.push('o' as u8);
    out.push('u' as u8);
    out.push('n' as u8);
    out.push('t' as u8);
    out.push('e' as u8);
    out.push('r' as u8);
    out.push('"' as u8);
    out.push(':' as u8);
    proof {
        assert(out@ =~= counter_prefix());
    }
    match resp {
        Response::Counter(v) => {
            push_int_digits(&mut out, *v);
        },
    }
    out.push('}' as u8);
    proof {
        assert(out@ =~= response_frame(*resp));
    }
    out
}

} // verus!
