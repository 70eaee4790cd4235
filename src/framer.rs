use vstd::prelude::*;

verus! {

/// Carriage return.
pub const CR: u8 = 13;

/// Line feed.
pub const LF: u8 = 10;

/// The longest line content, terminator excluded, that the framer accepts.
pub const MAX_LINE: usize = 512;

/// A line that the framer could not hand on.
#[derive(Clone, Copy, Debug, PartialEq, Eq, Structural)]
pub enum UtilReadError {
    /// The line grew past the limit before its terminator came.
    TooLong,
    /// The line holds a byte outside 7-bit ASCII.
    NotAscii,
    /// Reading from the connection failed.
    NetError,
}

/// What a framer holds between two bytes.
pub struct FramerState {
    /// The bytes of the line so far (its terminator's CR may already be here).
    pub data: Seq<u8>,
    /// Whether an overlong line is being skipped up to its terminator.
    pub discarding: bool,
    /// While skipping: whether the last byte was a CR.
    pub pending_cr: bool,
    /// The longest line content accepted.
    pub limit: nat,
}

/// A framer at a line boundary.
pub open spec fn clean(limit: nat) -> FramerState {
    FramerState { data: seq![], discarding: false, pending_cr: false, limit }
}

/// Whether every byte is 7-bit ASCII.
pub open spec fn all_ascii(s: Seq<u8>) -> bool {
    forall|i: int| 0 <= i < s.len() ==> s[i] < 128
}

/// Whether a CR LF pair starts at index `i` of `s`.
pub open spec fn crlf_at(s: Seq<u8>, i: int) -> bool {
    0 <= i < s.len() - 1 && s[i] == CR && s[i + 1] == LF
}

/// Whether a CR LF pair stands anywhere in `s`.
pub open spec fn has_crlf(s: Seq<u8>) -> bool {
    exists|i: int| #[trigger] crlf_at(s, i)
}

/// Whether `s` ends with CR LF.
pub open spec fn ends_with_crlf(s: Seq<u8>) -> bool {
    s.len() >= 2 && s[s.len() - 2] == CR && s[s.len() - 1] == LF
}

/// The two terminator bytes.
pub open spec fn crlf() -> Seq<u8> {
    seq![CR, LF]
}

/// Whether pending bytes with no terminator yet can still end a line within
/// the limit: at most `limit` bytes, or one more if that one is a CR.
pub open spec fn fits(d: Seq<u8>, limit: nat) -> bool {
    d.len() <= limit || (d.len() == limit + 1 && d.last() == CR)
}

/// What a well-formed framer holds: while collecting, bytes with no terminator
/// that still fit; while skipping, nothing.
pub open spec fn framer_wf(st: FramerState) -> bool {
    if st.discarding {
        st.data.len() == 0
    } else {
        !has_crlf(st.data) && fits(st.data, st.limit) && !st.pending_cr
    }
}

/// One byte through the framer: the next state, and the line or error that
/// this byte completes, if any.
pub open spec fn step(st: FramerState, b: u8) -> (FramerState, Option<Result<Seq<u8>, UtilReadError>>) {
    if st.discarding {
        if st.pending_cr && b == LF {
            (clean(st.limit), None)
        } else {
            (FramerState { data: seq![], discarding: true, pending_cr: b == CR, limit: st.limit }, None)
        }
    } else {
        let d = st.data.push(b);
        if ends_with_crlf(d) {
            let content = d.subrange(0, d.len() - 2);
            (
                clean(st.limit),
                Some(
                    if all_ascii(content) {
                        Ok(content)
                    } else {
                        Err(UtilReadError::NotAscii)
                    },
                ),
            )
        } else if !fits(d, st.limit) {
            (
                FramerState { data: seq![], discarding: true, pending_cr: b == CR, limit: st.limit },
                Some(Err(UtilReadError::TooLong)),
            )
        } else {
            (FramerState { data: d, discarding: false, pending_cr: false, limit: st.limit }, None)
        }
    }
}

/// A byte stream through the framer: the final state, and the lines and errors
/// in the order the stream completes them.
pub open spec fn run(st: FramerState, s: Seq<u8>) -> (FramerState, Seq<Result<Seq<u8>, UtilReadError>>)
    decreases s.len(),
{
    if s.len() == 0 {
        (st, seq![])
    } else {
        let (st1, evs) = run(st, s.drop_last());
        let (st2, ev) = step(st1, s.last());
        (
            st2,
            match ev {
                Some(e) => evs.push(e),
                None => evs,
            },
        )
    }
}

/// The events that one optional result stands for.
pub open spec fn event_seq(r: Option<Result<Vec<u8>, UtilReadError>>) -> Seq<Result<Seq<u8>, UtilReadError>> {
    match r {
        None => seq![],
        Some(Ok(v)) => seq![Ok(v@)],
        Some(Err(e)) => seq![Err(e)],
    }
}

/// Framing a stream in two pieces gives what framing it whole gives: the state
/// after the second piece and the events of both, in order. So how reads cut
/// the stream does not change the lines that come out.
pub proof fn lemma_run_append(st: FramerState, a: Seq<u8>, b: Seq<u8>)
    ensures
        run(st, a + b) == ({
            let (st1, e1) = run(st, a);
            let (st2, e2) = run(st1, b);
            (st2, e1 + e2)
        }),
    decreases b.len(),
{
    let (st1, e1) = run(st, a);
    if b.len() == 0 {
        assert(a + b =~= a);
        assert(e1 + seq![] =~= e1);
    } else {
        assert((a + b).drop_last() =~= a + b.drop_last());
        assert((a + b).last() == b.last());
        lemma_run_append(st, a, b.drop_last());
        let (_, e2) = run(st1, b.drop_last());
        let (_, ev) = step(run(st1, b.drop_last()).0, b.last());
        if let Some(e) = ev {
            assert((e1 + e2).push(e) =~= e1 + e2.push(e));
        }
    }
}

/// The prefix of a line before its terminator: no events while it fits, then
/// one `TooLong` and the skipping state.
proof fn lemma_unterminated(limit: nat, p: Seq<u8>)
    requires
        !has_crlf(p),
    ensures
        fits(p, limit) ==> run(clean(limit), p) == (
            FramerState { data: p, discarding: false, pending_cr: false, limit },
            Seq::<Result<Seq<u8>, UtilReadError>>::empty(),
        ),
        !fits(p, limit) ==> run(clean(limit), p) == (
            FramerState { data: seq![], discarding: true, pending_cr: p.last() == CR, limit },
            seq![Err::<Seq<u8>, UtilReadError>(UtilReadError::TooLong)],
        ),
    decreases p.len(),
{
    if p.len() == 0 {
        assert(clean(limit).data =~= p);
    } else {
        let q = p.drop_last();
        assert(!has_crlf(q)) by {
            if has_crlf(q) {
                let i = choose|i: int| #[trigger] crlf_at(q, i);
                assert(crlf_at(p, i));
            }
        };
        lemma_unterminated(limit, q);
        assert(q.push(p.last()) =~= p);
        if p.len() >= 2 && p[p.len() - 2] == CR && p.last() == LF {
            assert(crlf_at(p, p.len() - 2));
        }
        if p.len() >= 2 {
            assert(q.last() == p[p.len() - 2]);
        }
        assert(seq![Err::<Seq<u8>, UtilReadError>(UtilReadError::TooLong)] =~= Seq::<
            Result<Seq<u8>, UtilReadError>,
        >::empty().push(Err(UtilReadError::TooLong)));
    }
}

/// A line longer than the limit, followed by its terminator, is reported once
/// as too long, and framing picks up right after the terminator: what follows
/// is framed as if the stream began there.
pub proof fn lemma_too_long_resyncs(limit: nat, w: Seq<u8>, rest: Seq<u8>)
    requires
        !has_crlf(w),
        w.len() > limit,
    ensures
        run(clean(limit), w + crlf() + rest) == (
            run(clean(limit), rest).0,
            seq![Err::<Seq<u8>, UtilReadError>(UtilReadError::TooLong)] + run(clean(limit), rest).1,
        ),
{
    let p = w.push(CR);
    assert(!has_crlf(p)) by {
        if has_crlf(p) {
            let i = choose|i: int| #[trigger] crlf_at(p, i);
            if i < w.len() - 1 {
                assert(crlf_at(w, i));
            }
        }
    };
    lemma_unterminated(limit, p);
    assert(p.push(LF).drop_last() =~= p);
    assert(w + crlf() =~= p.push(LF));
    lemma_run_append(clean(limit), w + crlf(), rest);
}

/// A line within the limit, followed by its terminator, comes out whole when it
/// is all 7-bit ASCII and is reported as not ASCII otherwise; either way its
/// terminator is consumed, and what follows is framed as if the stream began
/// there.
pub proof fn lemma_line_resyncs(limit: nat, l: Seq<u8>, rest: Seq<u8>)
    requires
        !has_crlf(l),
        l.len() <= limit,
    ensures
        run(clean(limit), l + crlf() + rest) == (
            run(clean(limit), rest).0,
            seq![
                if all_ascii(l) {
                    Ok(l)
                } else {
                    Err(UtilReadError::NotAscii)
                },
            ] + run(clean(limit), rest).1,
        ),
{
    let p = l.push(CR);
    assert(!has_crlf(p)) by {
        if has_crlf(p) {
            let i = choose|i: int| #[trigger] crlf_at(p, i);
            if i < l.len() - 1 {
                assert(crlf_at(l, i));
            }
        }
    };
    lemma_unterminated(limit, p);
    let d = p.push(LF);
    assert(d.drop_last() =~= p);
    assert(d.subrange(0, d.len() - 2) =~= l);
    assert(l + crlf() =~= d);
    lemma_run_append(clean(limit), l + crlf(), rest);
}

/// Drops the last two bytes of a line, its terminator; a line shorter than
/// that becomes empty.
pub fn remove_crlf(line: &mut Vec<u8>)
    ensures
        final(line)@ == (if old(line)@.len() >= 2 {
            old(line)@.subrange(0, old(line)@.len() - 2)
        } else {
            seq![]
        }),
{
    let len = line.len();
    if len >= 2 {
        line.truncate(len - 2);
    } else {
        line.clear();
    }
}

/// Whether every byte is 7-bit ASCII.
pub fn check_8bit(data: &Vec<u8>) -> (r: bool)
    ensures
        r == all_ascii(data@),
{
    let mut i: usize = 0;
    while i < data.len()
        invariant
            0 <= i <= data.len(),
            forall|j: int| 0 <= j < i ==> data@[j] < 128,
        decreases data.len() - i,
    {
        if data[i] >= 128 {
            return false;
        }
        i = i + 1;
    }
    true
}

/// Splits a byte stream into CRLF-terminated lines of at most `limit` bytes of
/// 7-bit ASCII, across reads of any size.
pub struct LineFramer {
    data: Vec<u8>,
    discarding: bool,
    pending_cr: bool,
    limit: usize,
}

impl View for LineFramer {
    type V = FramerState;

    closed spec fn view(&self) -> FramerState {
        FramerState {
            data: self.data@,
            discarding: self.discarding,
            pending_cr: self.pending_cr,
            limit: self.limit as nat,
        }
    }
}

impl LineFramer {
    /// A framer at a line boundary that accepts lines of up to `limit` bytes.
    pub fn new(limit: usize) -> (r: LineFramer)
        ensures
            r@ == clean(limit as nat),
            framer_wf(r@),
    {
        LineFramer { data: Vec::new(), discarding: false, pending_cr: false, limit }
    }

    /// Takes one byte, as `step` says.
    fn push_byte(&mut self, b: u8) -> (r: Option<Result<Vec<u8>, UtilReadError>>)
        requires
            framer_wf(old(self)@),
        ensures
            framer_wf(final(self)@),
            (final(self)@, event_seq(r)) == ({
                let (st, ev) = step(old(self)@, b);
                (
                    st,
                    match ev {
                        Some(e) => seq![e],
                        None => seq![],
                    },
                )
            }),
    {
        if self.discarding {
            assert(self.data@ =~= seq![]);
            if self.pending_cr && b == LF {
                self.discarding = false;
                self.pending_cr = false;
            } else {
                self.pending_cr = b == CR;
            }
            return None;
        }
        let ghost d = self.data@.push(b);
        self.data.push(b);
        let n = self.data.len();
        if n >= 2 && self.data[n - 2] == CR && b == LF {
            remove_crlf(&mut self.data);
            let ok = check_8bit(&self.data);
            let mut line: Vec<u8> = Vec::new();
            std::mem::swap(&mut line, &mut self.data);
            assert(self.data@ =~= seq![]);
            if ok {
                return Some(Ok(line));
            } else {
                return Some(Err(UtilReadError::NotAscii));
            }
        }
        if n - 1 > self.limit || (n - 1 == self.limit && b != CR) {
            self.data.clear();
            self.discarding = true;
            self.pending_cr = b == CR;
            assert(self.data@ =~= seq![]);
            return Some(Err(UtilReadError::TooLong));
        }
        proof {
            assert(!has_crlf(d)) by {
                if has_crlf(d) {
                    let i = choose|i: int| #[trigger] crlf_at(d, i);
                    if i < d.len() - 2 {
                        assert(crlf_at(old(self)@.data, i));
                    }
                }
            }
        }
        None
    }

    /// Takes bytes from the front of `buf` until one completes a line or an
    /// error, and returns how many it took with what they completed. It takes
    /// all of `buf` when nothing is complete yet.
    pub fn feed(&mut self, buf: &[u8]) -> (r: (usize, Option<Result<Vec<u8>, UtilReadError>>))
        requires
            framer_wf(old(self)@),
        ensures
            framer_wf(final(self)@),
            r.0 <= buf@.len(),
            r.1 is None ==> r.0 == buf@.len(),
            r.1 is Some ==> r.0 > 0,
            (final(self)@, event_seq(r.1)) == run(old(self)@, buf@.subrange(0, r.0 as int)),
    {
        let mut i: usize = 0;
        assert(buf@.subrange(0, 0) =~= seq![]);
        while i < buf.len()
            invariant
                0 <= i <= buf@.len(),
                framer_wf(self@),
                (self@, Seq::<Result<Seq<u8>, UtilReadError>>::empty()) == run(
                    old(self)@,
                    buf@.subrange(0, i as int),
                ),
            decreases buf.len() - i,
        {
            let ev = self.push_byte(buf[i]);
            assert(buf@.subrange(0, i + 1).drop_last() =~= buf@.subrange(0, i as int));
            i = i + 1;
            if ev.is_some() {
                return (i, ev);
            }
        }
        (i, None)
    }
}

} // verus!
