use vstd::prelude::*;
use crate::framing::{NEWLINE, no_newline, splits_at_first_line};

verus! {

/// The bytes on the wire for `lines`: each line followed by a newline.
pub open spec fn frame(lines: Seq<Seq<u8>>) -> Seq<u8>
    decreases lines.len(),
{
    if lines.len() == 0 {
        Seq::empty()
    } else {
        lines[0] + seq![NEWLINE] + frame(lines.drop_first())
    }
}

/// No element of `lines` holds a newline.
pub open spec fn all_lines(lines: Seq<Seq<u8>>) -> bool {
    forall|i: int| 0 <= i < lines.len() ==> no_newline(#[trigger] lines[i])
}

/// What successive write attempts, accepting `counts[0]`, `counts[1]`, ...
/// bytes, take off the front of `pending` and hand to the transport.
pub open spec fn sent_by(pending: Seq<u8>, counts: Seq<nat>) -> Seq<u8>
    decreases counts.len(),
{
    if counts.len() == 0 {
        Seq::empty()
    } else {
        pending.take(counts[0] as int) + sent_by(pending.skip(counts[0] as int), counts.drop_first())
    }
}

/// What is still pending after those write attempts.
pub open spec fn left_after(pending: Seq<u8>, counts: Seq<nat>) -> Seq<u8>
    decreases counts.len(),
{
    if counts.len() == 0 {
        pending
    } else {
        left_after(pending.skip(counts[0] as int), counts.drop_first())
    }
}

/// The number of bytes accepted over all of `counts`.
pub open spec fn total(counts: Seq<nat>) -> nat
    decreases counts.len(),
{
    if counts.len() == 0 {
        0
    } else {
        counts[0] + total(counts.drop_first())
    }
}

proof fn lemma_first_line_unique(x: Seq<u8>, y: Seq<u8>, u: Seq<u8>, v: Seq<u8>)
    requires
        no_newline(x),
        no_newline(u),
        x + seq![NEWLINE] + y == u + seq![NEWLINE] + v,
    ensures
        x == u,
        y == v,
{
    let a = x + seq![NEWLINE] + y;
    let b = u + seq![NEWLINE] + v;
    if x.len() < u.len() {
        assert(a[x.len() as int] == NEWLINE);
        assert(b[x.len() as int] == u[x.len() as int]);
    } else if u.len() < x.len() {
        assert(b[u.len() as int] == NEWLINE);
        assert(a[u.len() as int] == x[u.len() as int]);
    }
    assert(x =~= a.take(x.len() as int));
    assert(u =~= b.take(u.len() as int));
    assert(y =~= a.skip(x.len() as int + 1));
    assert(v =~= b.skip(u.len() as int + 1));
}

proof fn lemma_frame_push(lines: Seq<Seq<u8>>, line: Seq<u8>)
    ensures
        frame(lines.push(line)) == frame(lines) + line + seq![NEWLINE],
    decreases lines.len(),
{
    if lines.len() == 0 {
        assert(lines.push(line).drop_first() =~= Seq::<Seq<u8>>::empty());
        assert(frame(lines.push(line).drop_first()) == Seq::<u8>::empty());
        assert(lines.push(line)[0] == line);
        assert(frame(lines) == Seq::<u8>::empty());
        assert(frame(lines.push(line)) =~= line + seq![NEWLINE]);
    } else {
        assert(lines.push(line).drop_first() =~= lines.drop_first().push(line));
        lemma_frame_push(lines.drop_first(), line);
        assert(frame(lines.push(line)) =~= frame(lines) + line + seq![NEWLINE]);
    }
}

/// Reading the first complete line out of the pending bytes keeps the
/// framing: the lines returned so far, framed, followed by what is pending,
/// are the same bytes before and after the step.
pub proof fn law_line_step_keeps_framing(
    returned: Seq<Seq<u8>>,
    pending: Seq<u8>,
    line: Seq<u8>,
    rest: Seq<u8>,
)
    requires
        splits_at_first_line(pending, line, rest),
    ensures
        frame(returned.push(line)) + rest == frame(returned) + pending,
{
    lemma_frame_push(returned, line);
    assert(frame(returned.push(line)) + rest =~= frame(returned) + pending);
}

/// Framing does not depend on how the byte stream was cut into reads: two
/// readers that received the same bytes and hold no complete line pending
/// have returned the same lines and hold the same pending bytes.
pub proof fn law_framing_independent_of_chunking(
    a: Seq<Seq<u8>>,
    pending_a: Seq<u8>,
    b: Seq<Seq<u8>>,
    pending_b: Seq<u8>,
)
    requires
        all_lines(a),
        all_lines(b),
        no_newline(pending_a),
        no_newline(pending_b),
        frame(a) + pending_a == frame(b) + pending_b,
    ensures
        a == b,
        pending_a == pending_b,
    decreases a.len(),
{
    if a.len() == 0 {
        if b.len() > 0 {
            assert((frame(b) + pending_b)[b[0].len() as int] == NEWLINE);
            assert(frame(a) + pending_a =~= pending_a);
            assert(false);
        }
        assert(frame(a) + pending_a =~= pending_a);
        assert(frame(b) + pending_b =~= pending_b);
        assert(a =~= b);
    } else if b.len() == 0 {
        assert((frame(a) + pending_a)[a[0].len() as int] == NEWLINE);
        assert(frame(b) + pending_b =~= pending_b);
        assert(false);
    } else {
        let ra = frame(a.drop_first()) + pending_a;
        let rb = frame(b.drop_first()) + pending_b;
        assert(frame(a) + pending_a =~= a[0] + seq![NEWLINE] + ra);
        assert(frame(b) + pending_b =~= b[0] + seq![NEWLINE] + rb);
        assert(no_newline(a[0]));
        assert(no_newline(b[0]));
        lemma_first_line_unique(a[0], ra, b[0], rb);
        assert(all_lines(a.drop_first()));
        assert(all_lines(b.drop_first()));
        law_framing_independent_of_chunking(a.drop_first(), pending_a, b.drop_first(), pending_b);
        assert(a =~= seq![a[0]] + a.drop_first());
        assert(b =~= seq![b[0]] + b.drop_first());
    }
}

/// A flush interrupted any number of times loses and repeats nothing: the
/// chunks handed to the transport, followed by what is still pending, are
/// the pending bytes the flushing started from, and what is still pending is
/// exactly the part not yet accepted.
pub proof fn law_interrupted_flush_sends_once(pending: Seq<u8>, counts: Seq<nat>)
    requires
        total(counts) <= pending.len(),
    ensures
        sent_by(pending, counts) + left_after(pending, counts) == pending,
        left_after(pending, counts) == pending.skip(total(counts) as int),
    decreases counts.len(),
{
    if counts.len() == 0 {
        assert(sent_by(pending, counts) + left_after(pending, counts) =~= pending);
        assert(pending.skip(0) =~= pending);
    } else {
        let n = counts[0] as int;
        let rest = pending.skip(n);
        law_interrupted_flush_sends_once(rest, counts.drop_first());
        assert(pending.take(n) + rest =~= pending);
        assert(sent_by(pending, counts) + left_after(pending, counts) =~= pending);
        assert(rest.skip(total(counts.drop_first()) as int) =~= pending.skip(total(counts) as int));
    }
}

} // verus!
