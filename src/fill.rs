use vstd::prelude::*;

use crate::cache::Provider;
use js_sys::Uint8Array;

verus! {

/// The most bytes one `getRandomValues` call may be asked for.
pub const BROWSER_FILL_MAX: usize = 65536;

/// The byte range `[start, end)` of a destination buffer that one provider
/// call fills.
#[derive(Clone, Copy, Debug, PartialEq, Eq, Structural)]
pub struct Span {
    pub start: usize,
    pub end: usize,
}

impl Span {
    /// The number of bytes in the span.
    pub fn len(&self) -> (r: usize)
        requires
            self.start <= self.end,
        ensures
            r == self.end - self.start,
    {
        self.end - self.start
    }
}

/// The spans that cover `[start, len)` in order, each of `max` bytes but a
/// shorter last one.
pub open spec fn spans_from(start: nat, len: nat, max: nat) -> Seq<Span>
    decreases len - start,
{
    if start >= len || max == 0 {
        Seq::empty()
    } else {
        let end = if len - start > max {
            start + max
        } else {
            len
        };
        seq![Span { start: start as usize, end: end as usize }] + spans_from(end, len, max)
    }
}

/// The provider calls that fill a buffer of `len` bytes: none for an empty
/// buffer; else one call over the whole buffer for the server-side module,
/// and consecutive spans of at most `BROWSER_FILL_MAX` bytes for a browser.
pub open spec fn fill_plan_spec<N, B>(p: Provider<N, B>, len: nat) -> Seq<Span> {
    match p {
        Provider::Node(_) => if len == 0 {
            Seq::empty()
        } else {
            seq![Span { start: 0, end: len as usize }]
        },
        Provider::Browser(_) => spans_from(0, len, BROWSER_FILL_MAX as nat),
    }
}

/// The spans `s` fill a buffer of `len` bytes with calls of at most `max`
/// bytes: they are non-empty, follow each other without gap or overlap from
/// offset 0 to `len`, so that every byte lies in exactly one of them.
pub open spec fn partitions(s: Seq<Span>, len: nat, max: nat) -> bool {
    &&& (s.len() == 0 <==> len == 0)
    &&& s.len() > 0 ==> s[0].start == 0 && s.last().end == len
    &&& forall|i: int|
        0 <= i < s.len() ==> #[trigger] s[i].start < s[i].end && s[i].end - s[i].start <= max
    &&& forall|i: int| 0 < i < s.len() ==> s[i - 1].end == #[trigger] s[i].start
    &&& forall|i: int, k: int| 0 <= i < k < s.len() ==> #[trigger] s[i].end <= #[trigger] s[k].start
    &&& forall|j: int| 0 <= j < len ==> #[trigger] covers(s, j)
}

/// Some span of `s` holds offset `j`.
pub open spec fn covers(s: Seq<Span>, j: int) -> bool {
    exists|i: int| 0 <= i < s.len() && #[trigger] s[i].start <= j < s[i].end
}

proof fn lemma_spans_from_shape(start: nat, len: nat, max: nat)
    requires
        max > 0,
        len <= usize::MAX,
    ensures
        ({
            let s = spans_from(start, len, max);
            &&& (s.len() == 0 <==> start >= len)
            &&& s.len() > 0 ==> s[0].start == start && s.last().end == len
            &&& forall|i: int|
                0 <= i < s.len() ==> #[trigger] s[i].start == start + i * max && s[i].start
                    < s[i].end <= len && s[i].end - s[i].start <= max && (s[i].end == len
                    || s[i].end == s[i].start + max)
            &&& forall|i: int| 0 < i < s.len() ==> s[i - 1].end == #[trigger] s[i].start
            &&& forall|j: int| start <= j < len ==> #[trigger] covers(s, j)
        }),
    decreases len - start,
{
    let s = spans_from(start, len, max);
    if start < len {
        let end: nat = if len - start > max {
            start + max
        } else {
            len
        };
        let rest = spans_from(end, len, max);
        lemma_spans_from_shape(end, len, max);
        assert(s == seq![Span { start: start as usize, end: end as usize }] + rest);
        assert forall|i: int| 0 <= i < s.len() implies #[trigger] s[i].start == start + i * max
            && s[i].start < s[i].end <= len && s[i].end - s[i].start <= max && (s[i].end == len
            || s[i].end == s[i].start + max) by {
            if i > 0 {
                assert(s[i] == rest[i - 1]);
                assert(rest[i - 1].start == end + (i - 1) * max);
                assert(end == start + max);
                assert(end + (i - 1) * max == start + i * max) by (nonlinear_arith)
                    requires
                        end == start + max,
                ;
            }
        }
        assert forall|i: int| 0 < i < s.len() implies s[i - 1].end == #[trigger] s[i].start by {
            assert(s[i] == rest[i - 1]);
            if i > 1 {
                assert(s[i - 1] == rest[i - 2]);
            }
        }
        assert forall|j: int| start <= j < len implies #[trigger] covers(s, j) by {
            if j < end {
                assert(s[0].start <= j < s[0].end);
            } else {
                assert(covers(rest, j));
                let i2 = choose|i2: int|
                    0 <= i2 < rest.len() && #[trigger] rest[i2].start <= j < rest[i2].end;
                assert(s[i2 + 1] == rest[i2]);
            }
        }
    }
}

/// The spans of `[0, len)` in calls of `max` bytes partition the buffer; span
/// `i` starts at offset `i * max`, so every call's bytes land at their
/// absolute place; and there are as many spans as `max`-byte blocks needed to
/// hold `len` bytes.
pub proof fn lemma_chunk_spans(len: nat, max: nat)
    requires
        max > 0,
        len <= usize::MAX,
    ensures
        partitions(spans_from(0, len, max), len, max),
        forall|i: int|
            0 <= i < spans_from(0, len, max).len() ==> #[trigger] spans_from(0, len, max)[i].start
                == i * max,
        spans_from(0, len, max).len() > 0 ==> (spans_from(0, len, max).len() - 1) * max < len
            <= spans_from(0, len, max).len() * max,
{
    let s = spans_from(0, len, max);
    lemma_spans_from_shape(0, len, max);
    assert forall|i: int, k: int| 0 <= i < k < s.len() implies #[trigger] s[i].end <= #[trigger] s[k].start by {
        assert(s[i].start == i * max);
        assert(s[k].start == k * max);
        assert(s[i].end <= i * max + max);
        assert(i * max + max <= k * max) by (nonlinear_arith)
            requires
                i < k,
                max > 0,
        ;
    }
    if s.len() > 0 {
        let n = s.len() - 1;
        assert(s[n].start == n * max);
        assert(n * max + max == s.len() * max) by (nonlinear_arith)
            requires
                n == s.len() - 1,
        ;
    }
}

/// The most bytes that one call to provider `p` is asked for when filling
/// `len` bytes: the whole buffer for the server-side module, which has no
/// ceiling, and `BROWSER_FILL_MAX` for a browser.
pub open spec fn call_limit<N, B>(p: Provider<N, B>, len: nat) -> nat {
    match p {
        Provider::Node(_) => len,
        Provider::Browser(_) => BROWSER_FILL_MAX as nat,
    }
}

/// Whatever the provider, the plan for `len` bytes writes every byte of the
/// buffer exactly once, in order, and never asks a call for more than the
/// provider allows. An empty buffer needs no call at all; the server-side
/// module is called at most once; browser call `i` fills the bytes from
/// offset `i * BROWSER_FILL_MAX` on.
pub proof fn lemma_fill_plan<N, B>(p: Provider<N, B>, len: nat)
    requires
        len <= usize::MAX,
    ensures
        partitions(fill_plan_spec(p, len), len, call_limit(p, len)),
        len == 0 ==> fill_plan_spec(p, len).len() == 0,
        p is Node ==> fill_plan_spec(p, len).len() <= 1,
        p is Browser ==> forall|i: int|
            0 <= i < fill_plan_spec(p, len).len() ==> #[trigger] fill_plan_spec(p, len)[i].start
                == i * BROWSER_FILL_MAX,
{
    let s = fill_plan_spec(p, len);
    match p {
        Provider::Node(_) => {
            if len > 0 {
                assert forall|j: int| 0 <= j < len implies #[trigger] covers(s, j) by {
                    assert(s[0].start <= j < s[0].end);
                }
            }
        },
        Provider::Browser(_) => {
            lemma_chunk_spans(len, BROWSER_FILL_MAX as nat);
        },
    }
}

/// Splits `[0, len)` into consecutive spans of `max` bytes, the last one
/// possibly shorter.
pub fn chunk_spans(len: usize, max: usize) -> (r: Vec<Span>)
    requires
        max > 0,
    ensures
        r@ == spans_from(0, len as nat, max as nat),
{
    let mut spans: Vec<Span> = Vec::new();
    let mut start: usize = 0;
    while start < len
        invariant
            max > 0,
            start <= len,
            spans@ + spans_from(start as nat, len as nat, max as nat) == spans_from(
                0,
                len as nat,
                max as nat,
            ),
        decreases len - start,
    {
        let end: usize = if len - start > max {
            start + max
        } else {
            len
        };
        let span = Span { start, end };
        proof {
            let rest = spans_from(end as nat, len as nat, max as nat);
            assert(spans_from(start as nat, len as nat, max as nat) == seq![span] + rest);
            assert(spans@.push(span) + rest =~= spans@ + (seq![span] + rest));
        }
        spans.push(span);
        start = end;
    }
    proof {
        assert(spans@ + spans_from(start as nat, len as nat, max as nat) =~= spans@);
    }
    spans
}

/// The provider calls that fill a buffer of `len` bytes from provider `p`.
pub fn fill_plan<N, B>(p: &Provider<N, B>, len: usize) -> (r: Vec<Span>)
    ensures
        r@ == fill_plan_spec(*p, len as nat),
{
    match p {
        Provider::Node(_) => {
            let mut spans: Vec<Span> = Vec::new();
            if len > 0 {
                spans.push(Span { start: 0, end: len });
            }
            proof {
                assert(spans@ =~= fill_plan_spec(*p, len as nat));
            }
            spans
        },
        Provider::Browser(_) => chunk_spans(len, BROWSER_FILL_MAX),
    }
}

#[verifier::external_type_specification]
#[verifier::external_body]
pub struct ExUint8Array(Uint8Array);

/// The length of JS byte array `a`.
pub uninterp spec fn uint8_array_len(a: Uint8Array) -> nat;

/// Relies on js_sys::Uint8Array::new_with_length: allocates a JS byte array
/// of `len` bytes, which the host's `getRandomValues` then fills.
#[verifier::external_body]
fn new_uint8_array(len: u32) -> (r: Uint8Array)
    ensures
        uint8_array_len(r) == len,
{
    Uint8Array::new_with_length(len)
}

/// The length of the JS array that one browser call fills for `span`, in
/// the host's 32-bit lengths: a span of at most `BROWSER_FILL_MAX` bytes
/// always fits, whatever the width of `usize`.
pub fn transfer_len(span: &Span) -> (r: u32)
    requires
        span.start <= span.end,
        span.end - span.start <= BROWSER_FILL_MAX,
    ensures
        r == span.end - span.start,
{
    span.len() as u32
}

/// A JS byte array of `transfer_len(span)` bytes, for one browser call to
/// fill before its bytes are copied into `span` of the destination.
pub fn transfer_array(span: &Span) -> (r: Uint8Array)
    requires
        span.start <= span.end,
        span.end - span.start <= BROWSER_FILL_MAX,
    ensures
        uint8_array_len(r) == span.end - span.start,
{
    new_uint8_array(transfer_len(span))
}

} // verus!
