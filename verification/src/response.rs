//! Decoding the server-sent-event stream of the Responses API into the JSON
//! payloads of its `data:` lines.

use vstd::prelude::*;

use crate::text::{
    chars_eq, chars_of, chars_start_with, string_from_chars, trim, trim_chars,
};

verus! {

/// Where requests for model responses are sent.
pub const BASE_URL: &'static str = "https://openrouter.ai/api/v1/responses";

/// The decoder's abstract state after reading some input: the text of the
/// current unfinished line, the payloads delivered so far, and whether the
/// end-of-stream marker has been seen.
pub struct SseModel {
    pub rest: Seq<char>,
    pub payloads: Seq<Seq<char>>,
    pub done: bool,
}

pub open spec fn data_prefix() -> Seq<char> {
    seq!['d', 'a', 't', 'a', ':']
}

pub open spec fn done_marker() -> Seq<char> {
    seq!['[', 'D', 'O', 'N', 'E', ']']
}

/// `s` with every leading copy of `p` removed, as `str::trim_start_matches` does.
pub open spec fn strip_prefixes(s: Seq<char>, p: Seq<char>) -> Seq<char>
    decreases s.len(),
{
    if p.len() > 0 && p.len() <= s.len() && s.subrange(0, p.len() as int) == p {
        strip_prefixes(s.skip(p.len() as int), p)
    } else {
        s
    }
}

/// The payload a complete line carries: present only when the trimmed line
/// begins with `data:`; it is what follows the `data:` prefixes, trimmed.
pub open spec fn line_payload(line: Seq<char>) -> Option<Seq<char>> {
    let t = trim(line);
    if data_prefix().len() <= t.len() && t.subrange(0, data_prefix().len() as int)
        == data_prefix() {
        Some(trim(strip_prefixes(t, data_prefix())))
    } else {
        None
    }
}

/// The decoder's state before any input.
pub open spec fn sse_initial() -> SseModel {
    SseModel { rest: seq![], payloads: seq![], done: false }
}

/// The state after one more character.
pub open spec fn sse_step(st: SseModel, c: char) -> SseModel {
    if st.done {
        st
    } else if c == '\n' {
        match line_payload(st.rest) {
            Some(p) => if p == done_marker() {
                SseModel { rest: seq![], payloads: st.payloads, done: true }
            } else {
                SseModel { rest: seq![], payloads: st.payloads.push(p), done: false }
            },
            None => SseModel { rest: seq![], payloads: st.payloads, done: false },
        }
    } else {
        SseModel { rest: st.rest.push(c), payloads: st.payloads, done: false }
    }
}

/// The state reached from `st` after reading `s`.
pub open spec fn sse_feed(st: SseModel, s: Seq<char>) -> SseModel
    decreases s.len(),
{
    if s.len() == 0 {
        st
    } else {
        sse_step(sse_feed(st, s.drop_last()), s.last())
    }
}

/// The state after reading the whole input `s` from the start.
pub open spec fn sse_decode(s: Seq<char>) -> SseModel {
    sse_feed(sse_initial(), s)
}

/// Reading `a` and then `b` reaches the state that reading `a + b` reaches.
pub proof fn lemma_sse_feed_append(st: SseModel, a: Seq<char>, b: Seq<char>)
    ensures
        sse_feed(sse_feed(st, a), b) == sse_feed(st, a + b),
    decreases b.len(),
{
    if b.len() == 0 {
        assert(a + b =~= a);
    } else {
        lemma_sse_feed_append(st, a, b.drop_last());
        assert((a + b).drop_last() =~= a + b.drop_last());
        assert((a + b).last() == b.last());
    }
}

/// Payloads once delivered stay delivered: reading more input only appends.
pub proof fn lemma_sse_payloads_grow(st: SseModel, s: Seq<char>)
    ensures
        sse_feed(st, s).payloads.subrange(0, st.payloads.len() as int) == st.payloads,
        st.payloads.len() <= sse_feed(st, s).payloads.len(),
        st.done ==> sse_feed(st, s) == st,
    decreases s.len(),
{
    if s.len() > 0 {
        lemma_sse_payloads_grow(st, s.drop_last());
        let mid = sse_feed(st, s.drop_last());
        assert(mid.payloads.push(line_payload(mid.rest).unwrap_or(seq![])).subrange(
            0,
            mid.payloads.len() as int,
        ) =~= mid.payloads);
        assert(sse_feed(st, s).payloads.subrange(0, st.payloads.len() as int) =~= mid.payloads.subrange(
            0,
            st.payloads.len() as int,
        ));
    }
}

/// How the body of the stream is cut into chunks does not change what is
/// delivered: the payloads of `a + b` are those of `a` followed by those that
/// reading `b` adds, and the end marker is seen in the same place.
pub proof fn law_sse_chunking(a: Seq<char>, b: Seq<char>)
    ensures
        sse_feed(sse_decode(a), b) == sse_decode(a + b),
        sse_decode(a + b).payloads.subrange(0, sse_decode(a).payloads.len() as int)
            == sse_decode(a).payloads,
{
    lemma_sse_feed_append(sse_initial(), a, b);
    lemma_sse_payloads_grow(sse_decode(a), b);
}

/// The end-of-stream marker is never delivered as a payload, and nothing
/// after it is.
pub proof fn law_sse_marker_not_delivered(s: Seq<char>)
    ensures
        forall|i: int|
            0 <= i < sse_decode(s).payloads.len() ==> #[trigger] sse_decode(s).payloads[i]
                != done_marker(),
    decreases s.len(),
{
    if s.len() > 0 {
        law_sse_marker_not_delivered(s.drop_last());
        let mid = sse_decode(s.drop_last());
        assert(sse_decode(s) == sse_step(mid, s.last()));
        assert forall|i: int|
            0 <= i < sse_decode(s).payloads.len() implies #[trigger] sse_decode(s).payloads[i]
            != done_marker() by {
            if i < mid.payloads.len() {
                assert(sse_decode(s).payloads[i] == mid.payloads[i]);
            }
        }
    }
}

/// Lossy UTF-8 decoding of a chunk, as `String::from_utf8_lossy` performs it.
pub uninterp spec fn utf8_lossy(bytes: Seq<u8>) -> Seq<char>;

/// `String::from_utf8_lossy` followed by `into_owned`: the text of `bytes`,
/// with each invalid sequence replaced by U+FFFD. Valid UTF-8 decodes exactly;
/// for other input only the name of the result is stated.
#[verifier::external_body]
fn decode_chunk(bytes: &[u8]) -> (s: String)
    ensures
        s@ == utf8_lossy(bytes@),
        vstd::utf8::valid_utf8(bytes@) ==> s@ == vstd::utf8::decode_utf8(bytes@),
{
    String::from_utf8_lossy(bytes).into_owned()
}

/// Incremental decoder of an event stream.
pub struct SseDecoder {
    buffer: Vec<char>,
    done: bool,
    consumed: Ghost<Seq<char>>,
}

impl SseDecoder {
    /// All the text read so far.
    pub closed spec fn input(&self) -> Seq<char> {
        self.consumed@
    }

    /// The decoder's internal state matches the model of the text read so far.
    pub closed spec fn wf(&self) -> bool {
        &&& self.buffer@ == sse_decode(self.consumed@).rest
        &&& self.done == sse_decode(self.consumed@).done
    }

    /// Whether the end-of-stream marker has been read.
    pub fn is_done(&self) -> (r: bool)
        requires
            self.wf(),
        ensures
            r == sse_decode(self.input()).done,
    {
        self.done
    }

    /// A decoder that has read nothing.
    pub fn new() -> (d: Self)
        ensures
            d.wf(),
            d.input() == Seq::<char>::empty(),
    {
        SseDecoder { buffer: Vec::new(), done: false, consumed: Ghost(Seq::empty()) }
    }

    /// Reads one chunk of text and returns the payloads of the lines that it
    /// completes, stopping at the end-of-stream marker.
    pub fn push_str(&mut self, chunk: &str) -> (out: Vec<String>)
        requires
            old(self).wf(),
        ensures
            final(self).wf(),
            final(self).input() == old(self).input() + chunk@,
            sse_decode(old(self).input()).payloads + out@.map_values(|s: String| s@)
                == sse_decode(final(self).input()).payloads,
    {
        let cs = chars_of(chunk);
        let ghost start = self.consumed@;
        let mut out: Vec<String> = Vec::new();
        let mut i: usize = 0;
        assert(cs@.subrange(0, 0) =~= Seq::<char>::empty());
        assert(start + cs@.subrange(0, 0) =~= start);
        while i < cs.len()
            invariant
                i <= cs@.len(),
                cs@ == chunk@,
                self.consumed@ == start + cs@.subrange(0, i as int),
                self.wf(),
                sse_decode(start).payloads + out@.map_values(|s: String| s@) == sse_decode(
                    self.consumed@,
                ).payloads,
            decreases cs.len() - i,
        {
            let ghost before = self.consumed@;
            let c = cs[i];
            proof {
                let next = before.push(c);
                assert(next.drop_last() =~= before);
                assert(next.last() == c);
            }
            if !self.done {
                if c == '\n' {
                    let mut line: Vec<char> = Vec::new();
                    std::mem::swap(&mut line, &mut self.buffer);
                    match payload_of_line(line.as_slice()) {
                        Some(p) => {
                            if is_done_marker(p.as_slice()) {
                                self.done = true;
                            } else {
                                out.push(string_from_chars(p.as_slice()));
                                proof {
                                    let ghost pv = out@.map_values(|s: String| s@);
                                    assert(pv =~= (out@.drop_last().map_values(|s: String| s@)).push(
                                        p@,
                                    ));
                                }
                            }
                        },
                        None => {},
                    }
                } else {
                    self.buffer.push(c);
                }
            }
            self.consumed = Ghost(before.push(c));
            i = i + 1;
            assert(start + cs@.subrange(0, i as int) =~= before.push(c));
        }
        assert(cs@.subrange(0, i as int) =~= chunk@);
        out
    }

    /// Reads one chunk of raw bytes, decoded lossily as UTF-8.
    pub fn push_bytes(&mut self, chunk: &[u8]) -> (out: Vec<String>)
        requires
            old(self).wf(),
        ensures
            final(self).wf(),
            final(self).input() == old(self).input() + utf8_lossy(chunk@),
            sse_decode(old(self).input()).payloads + out@.map_values(|s: String| s@)
                == sse_decode(final(self).input()).payloads,
    {
        let text = decode_chunk(chunk);
        self.push_str(text.as_str())
    }
}

fn strip_prefixes_exec(s: &[char], p: &[char]) -> (r: Vec<char>)
    requires
        p@.len() > 0,
    ensures
        r@ == strip_prefixes(s@, p@),
{
    let mut i: usize = 0;
    let n = s.len();
    let m = p.len();
    assert(s@.skip(0) =~= s@);
    while m <= n - i && starts_with_at(s, p, i)
        invariant
            i <= n,
            n == s@.len(),
            m == p@.len(),
            m > 0,
            strip_prefixes(s@, p@) == strip_prefixes(s@.skip(i as int), p@),
        decreases n - i,
    {
        proof {
            let t = s@.skip(i as int);
            assert(t.subrange(0, m as int) =~= s@.subrange(i as int, i + m));
            assert(t.skip(m as int) =~= s@.skip(i + m));
        }
        i = i + m;
    }
    proof {
        let t = s@.skip(i as int);
        if i + m <= n {
            assert(t.subrange(0, m as int) =~= s@.subrange(i as int, i + m));
        }
    }
    let mut r: Vec<char> = Vec::new();
    let mut k = i;
    while k < n
        invariant
            i <= k <= n,
            n == s@.len(),
            r@ == s@.subrange(i as int, k as int),
        decreases n - k,
    {
        r.push(s[k]);
        k = k + 1;
        assert(r@ =~= s@.subrange(i as int, k as int));
    }
    assert(r@ =~= s@.skip(i as int));
    r
}

fn starts_with_at(s: &[char], p: &[char], i: usize) -> (r: bool)
    requires
        i + p@.len() <= s@.len(),
    ensures
        r == (s@.subrange(i as int, i + p@.len()) == p@),
{
    let m = p.len();
    let n = s.len();
    let mut t: usize = 0;
    while t < m
        invariant
            t <= m,
            m == p@.len(),
            n == s@.len(),
            i + m <= n,
            s@.subrange(i as int, i + t) == p@.subrange(0, t as int),
        decreases m - t,
    {
        if s[i + t] != p[t] {
            assert(s@.subrange(i as int, i + m)[t as int] == s@[i + t]);
            return false;
        }
        t = t + 1;
        assert(s@.subrange(i as int, i + t) =~= p@.subrange(0, t as int));
    }
    assert(p@.subrange(0, m as int) =~= p@);
    true
}

fn data_prefix_exec() -> (v: Vec<char>)
    ensures
        v@ == data_prefix(),
{
    let v = vec!['d', 'a', 't', 'a', ':'];
    assert(v@ =~= data_prefix());
    v
}

fn is_done_marker(p: &[char]) -> (r: bool)
    ensures
        r == (p@ == done_marker()),
{
    let m = vec!['[', 'D', 'O', 'N', 'E', ']'];
    assert(m@ =~= done_marker());
    chars_eq(p, m.as_slice())
}

/// The payload of one complete line, as `line_payload` states it.
pub fn payload_of_line(line: &[char]) -> (r: Option<Vec<char>>)
    ensures
        match r {
            Some(v) => line_payload(line@) == Some(v@),
            None => line_payload(line@) is None,
        },
{
    let t = trim_chars(line);
    let prefix = data_prefix_exec();
    if chars_start_with(t.as_slice(), prefix.as_slice()) {
        let stripped = strip_prefixes_exec(t.as_slice(), prefix.as_slice());
        Some(trim_chars(stripped.as_slice()))
    } else {
        None
    }
}

} // verus!
