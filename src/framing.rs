use vstd::prelude::*;
use vstd::slice::{slice_subrange, slice_to_vec};

verus! {

/// The byte that ends every message on the wire.
pub const NEWLINE: u8 = 10;

/// The capacity of a fresh read buffer.
pub const INITIAL_READ_CAPACITY: usize = 1024;

/// `s` holds no newline byte: it can be (part of) the body of one line.
pub open spec fn no_newline(s: Seq<u8>) -> bool {
    forall|i: int| 0 <= i < s.len() ==> s[i] != NEWLINE
}

/// `whole` is `line`, a newline, then `rest`, where `line` holds no newline:
/// `line` is the first complete line of `whole`.
pub open spec fn splits_at_first_line(whole: Seq<u8>, line: Seq<u8>, rest: Seq<u8>) -> bool {
    &&& no_newline(line)
    &&& whole == line + seq![NEWLINE] + rest
}

/// The outcome of handing freshly read bytes to the stream.
#[derive(Debug)]
pub enum ReadStep {
    /// A complete line is available: its bytes, without the newline.
    Line(Vec<u8>),
    /// The bytes were kept; no line is complete yet.
    Pending,
    /// The transport delivered no bytes: the peer closed the stream.
    EndOfStream,
}

/// The outcome of reporting a write attempt to the stream.
#[derive(PartialEq, Eq, Structural, Debug, Clone, Copy)]
pub enum WriteStep {
    /// The write buffer is empty: everything has been flushed.
    Flushed,
    /// Bytes remain to be written.
    Pending,
    /// The transport accepted no bytes although some were offered.
    WriteZero,
}

/// Index of the first newline in `buf[from..to]`, if any.
fn find_newline(buf: &Vec<u8>, from: usize, to: usize) -> (r: Option<usize>)
    requires
        from <= to <= buf@.len(),
    ensures
        match r {
            Some(i) => from <= i < to && buf@[i as int] == NEWLINE && no_newline(
                buf@.subrange(from as int, i as int),
            ),
            None => no_newline(buf@.subrange(from as int, to as int)),
        },
{
    let mut i: usize = from;
    while i < to
        invariant
            from <= i <= to <= buf@.len(),
            no_newline(buf@.subrange(from as int, i as int)),
        decreases to - i,
    {
        if buf[i] == NEWLINE {
            return Some(i);
        }
        assert(buf@.subrange(from as int, i + 1) == buf@.subrange(from as int, i as int).push(
            buf@[i as int],
        ));
        i = i + 1;
    }
    None
}

/// Moves `buf[from..to]` down to the start of `buf`.
fn shift_down(buf: &mut Vec<u8>, from: usize, to: usize)
    requires
        from <= to <= old(buf)@.len(),
    ensures
        final(buf)@.len() == old(buf)@.len(),
        final(buf)@.subrange(0, to - from) == old(buf)@.subrange(from as int, to as int),
{
    let ghost before = buf@;
    let n: usize = to - from;
    let mut k: usize = 0;
    while k < n
        invariant
            n == to - from,
            from <= to <= before.len(),
            k <= n,
            buf@.len() == before.len(),
            forall|j: int| 0 <= j < k ==> buf@[j] == before[from + j],
            forall|j: int| k <= j < before.len() ==> buf@[j] == before[j],
        decreases n - k,
    {
        let b = buf[from + k];
        buf.set(k, b);
        k = k + 1;
    }
    assert(buf@.subrange(0, n as int) =~= before.subrange(from as int, to as int));
}

/// Writes `data` into `buf` starting at `at`.
fn copy_into(buf: &mut Vec<u8>, at: usize, data: &[u8])
    requires
        at + data@.len() <= old(buf)@.len(),
    ensures
        final(buf)@.len() == old(buf)@.len(),
        final(buf)@.subrange(0, at as int) == old(buf)@.subrange(0, at as int),
        final(buf)@.subrange(at as int, at + data@.len()) == data@,
{
    let ghost before = buf@;
    let blen = buf.len();
    let mut k: usize = 0;
    while k < data.len()
        invariant
            blen == before.len(),
            at + data@.len() <= before.len(),
            k <= data@.len(),
            buf@.len() == before.len(),
            forall|j: int| 0 <= j < at ==> buf@[j] == before[j],
            forall|j: int| 0 <= j < k ==> buf@[at + j] == data@[j],
        decreases data@.len() - k,
    {
        buf.set(at + k, data[k]);
        k = k + 1;
    }
    assert(buf@.subrange(0, at as int) =~= before.subrange(0, at as int));
    assert(buf@.subrange(at as int, at + data@.len()) =~= data@);
}

/// The capacity that a full read buffer of `n` bytes grows to: twice as
/// large, as far as a `usize` allows.
pub open spec fn grown_capacity(n: nat) -> nat {
    if n * 2 <= usize::MAX {
        n * 2
    } else {
        usize::MAX as nat
    }
}

/// A JSON Lines stream over a duplex transport `S`.
///
/// The read buffer is split into a consumed prefix `[0, read_buf_offset)`,
/// the pending bytes `[read_buf_offset, read_buf_end)` that do not yet form a
/// returned line, and spare capacity `[read_buf_end, len)`. The write buffer
/// holds encoded bytes, of which `[0, write_buf_offset)` were flushed.
pub struct JsonlStream<S> {
    inner: S,
    read_buf: Vec<u8>,
    read_buf_end: usize,
    read_buf_offset: usize,
    write_buf: Vec<u8>,
    write_buf_offset: usize,
}

impl<S> JsonlStream<S> {
    /// The offsets lie within their buffers, the read buffer is never empty,
    /// and the pending bytes hold no newline whenever nothing was consumed
    /// since the last compaction.
    pub closed spec fn wf(&self) -> bool {
        &&& self.read_buf_offset <= self.read_buf_end
        &&& self.read_buf_end <= self.read_buf@.len()
        &&& self.read_buf@.len() > 0
        &&& self.write_buf_offset <= self.write_buf@.len()
        &&& self.read_buf_offset == 0 ==> no_newline(self.pending_read())
    }

    /// Bytes received but not yet returned as part of a line.
    pub closed spec fn pending_read(&self) -> Seq<u8> {
        self.read_buf@.subrange(self.read_buf_offset as int, self.read_buf_end as int)
    }

    /// Bytes queued for the transport and not yet written.
    pub closed spec fn pending_write(&self) -> Seq<u8> {
        self.write_buf@.subrange(self.write_buf_offset as int, self.write_buf@.len() as int)
    }

    /// Room left behind the pending bytes for the next read.
    pub closed spec fn spare_read(&self) -> nat {
        (self.read_buf@.len() - self.read_buf_end) as nat
    }

    /// The wrapped transport.
    pub closed spec fn transport(&self) -> S {
        self.inner
    }

    /// Makes a new stream over `inner`, with empty buffers.
    pub fn new(inner: S) -> (r: JsonlStream<S>)
        ensures
            r.wf(),
            r.transport() == inner,
            r.pending_read() == Seq::<u8>::empty(),
            r.pending_write() == Seq::<u8>::empty(),
            r.spare_read() == INITIAL_READ_CAPACITY,
            r.read_capacity() == INITIAL_READ_CAPACITY,
    {
        JsonlStream {
            inner,
            read_buf: vec![0u8; INITIAL_READ_CAPACITY],
            read_buf_end: 0,
            read_buf_offset: 0,
            write_buf: Vec::new(),
            write_buf_offset: 0,
        }
    }

    /// The length of the read buffer: pending bytes, consumed prefix and spare room.
    pub closed spec fn read_capacity(&self) -> nat {
        self.read_buf@.len()
    }

    /// Takes the first complete line out of the pending bytes and returns it
    /// without its newline. Where no line is complete, returns `None` and
    /// moves the pending bytes to the start of the buffer, so that the next
    /// read has all the room behind them.
    pub fn take_line(&mut self) -> (r: Option<Vec<u8>>)
        requires
            old(self).wf(),
        ensures
            final(self).wf(),
            final(self).transport() == old(self).transport(),
            final(self).pending_write() == old(self).pending_write(),
            final(self).read_capacity() == old(self).read_capacity(),
            match r {
                Some(line) => splits_at_first_line(
                    old(self).pending_read(),
                    line@,
                    final(self).pending_read(),
                ) && final(self).spare_read() == old(self).spare_read(),
                None => no_newline(old(self).pending_read()) && final(self).pending_read()
                    == old(self).pending_read() && final(self).spare_read()
                    == final(self).read_capacity() - old(self).pending_read().len(),
            },
    {
        let off = self.read_buf_offset;
        let end = self.read_buf_end;
        if off != 0 {
            match find_newline(&self.read_buf, off, end) {
                Some(i) => {
                    let line = slice_to_vec(slice_subrange(self.read_buf.as_slice(), off, i));
                    self.read_buf_offset = i + 1;
                    proof {
                        let p = self.read_buf@.subrange(off as int, end as int);
                        assert(p =~= line@ + seq![NEWLINE] + self.pending_read());
                    }
                    return Some(line);
                }
                None => {},
            }
            let ghost p = self.pending_read();
            shift_down(&mut self.read_buf, off, end);
            self.read_buf_end = end - off;
            self.read_buf_offset = 0;
            assert(self.pending_read() =~= p);
        }
        None
    }

    /// Makes room for the next read: a full read buffer grows to
    /// `grown_capacity` of its length. Returns the number of bytes the next
    /// read may bring, which is zero only where the buffer cannot grow.
    pub fn reserve_read(&mut self) -> (r: usize)
        requires
            old(self).wf(),
        ensures
            final(self).wf(),
            final(self).transport() == old(self).transport(),
            final(self).pending_write() == old(self).pending_write(),
            final(self).pending_read() == old(self).pending_read(),
            r == final(self).spare_read(),
            old(self).spare_read() > 0 ==> final(self).read_capacity() == old(
                self,
            ).read_capacity() && r == old(self).spare_read(),
            old(self).spare_read() == 0 ==> final(self).read_capacity() == grown_capacity(
                old(self).read_capacity(),
            ) && r == grown_capacity(old(self).read_capacity()) - old(self).read_capacity(),
    {
        let len = self.read_buf.len();
        if self.read_buf_end == len {
            let ghost p = self.pending_read();
            let new_len: usize = if len <= usize::MAX / 2 {
                len * 2
            } else {
                usize::MAX
            };
            self.read_buf.resize(new_len, 0u8);
            assert(self.pending_read() =~= p) by {
                assert(self.read_buf@.subrange(0, len as int) == old(self).read_buf@);
                assert(self.pending_read() =~= self.read_buf@.subrange(0, len as int).subrange(
                    self.read_buf_offset as int,
                    self.read_buf_end as int,
                ));
            }
        }
        self.read_buf.len() - self.read_buf_end
    }

    /// Hands the stream the bytes of one read from the transport, at most
    /// `spare_read` of them, while no complete line is pending. No bytes
    /// means the peer closed the stream. Otherwise the bytes join the pending
    /// ones and the first line they complete, if any, is returned.
    pub fn feed(&mut self, data: &[u8]) -> (r: ReadStep)
        requires
            old(self).wf(),
            no_newline(old(self).pending_read()),
            data@.len() <= old(self).spare_read(),
        ensures
            final(self).wf(),
            final(self).transport() == old(self).transport(),
            final(self).pending_write() == old(self).pending_write(),
            final(self).read_capacity() == old(self).read_capacity(),
            final(self).spare_read() == old(self).spare_read() - data@.len(),
            match r {
                ReadStep::EndOfStream => data@.len() == 0 && final(self).pending_read() == old(
                    self,
                ).pending_read(),
                ReadStep::Pending => data@.len() > 0 && no_newline(
                    old(self).pending_read() + data@,
                ) && final(self).pending_read() == old(self).pending_read() + data@,
                ReadStep::Line(line) => data@.len() > 0 && splits_at_first_line(
                    old(self).pending_read() + data@,
                    line@,
                    final(self).pending_read(),
                ),
            },
    {
        if data.len() == 0 {
            return ReadStep::EndOfStream;
        }
        let ghost p = self.pending_read();
        let off = self.read_buf_offset;
        let old_end = self.read_buf_end;
        let blen = self.read_buf.len();
        assert(old_end + data@.len() <= blen);
        copy_into(&mut self.read_buf, old_end, data);
        let end = old_end + data.len();
        self.read_buf_end = end;
        assert(self.read_buf@.subrange(off as int, end as int) =~= p + data@) by {
            assert(self.read_buf@.subrange(off as int, old_end as int) =~= self.read_buf@.subrange(
                0,
                old_end as int,
            ).subrange(off as int, old_end as int));
            assert(old(self).read_buf@.subrange(off as int, old_end as int) =~= old(
                self,
            ).read_buf@.subrange(0, old_end as int).subrange(off as int, old_end as int));
        }
        match find_newline(&self.read_buf, old_end, end) {
            Some(i) => {
                let line = slice_to_vec(slice_subrange(self.read_buf.as_slice(), off, i));
                self.read_buf_offset = i + 1;
                proof {
                    let whole = self.read_buf@.subrange(off as int, end as int);
                    assert(whole =~= line@ + seq![NEWLINE] + self.pending_read());
                    assert forall|j: int| 0 <= j < line@.len() implies line@[j] != NEWLINE by {
                        if j >= old_end - off {
                            assert(line@[j] == self.read_buf@.subrange(old_end as int, i as int)[j
                                - (old_end - off)]);
                        } else {
                            assert(line@[j] == p[j]);
                        }
                    }
                }
                ReadStep::Line(line)
            },
            None => {
                proof {
                    let whole = self.read_buf@.subrange(off as int, end as int);
                    assert forall|j: int| 0 <= j < whole.len() implies whole[j] != NEWLINE by {
                        if j >= old_end - off {
                            assert(whole[j] == self.read_buf@.subrange(old_end as int, end as int)[j
                                - (old_end - off)]);
                        } else {
                            assert(whole[j] == p[j]);
                        }
                    }
                }
                ReadStep::Pending
            },
        }
    }

    /// Queues one encoded message and its newline behind any bytes not yet
    /// written; nothing is handed to the transport yet.
    pub fn queue_message(&mut self, encoded: &[u8])
        requires
            old(self).wf(),
        ensures
            final(self).wf(),
            final(self).transport() == old(self).transport(),
            final(self).pending_read() == old(self).pending_read(),
            final(self).read_capacity() == old(self).read_capacity(),
            final(self).spare_read() == old(self).spare_read(),
            final(self).pending_write() == old(self).pending_write() + encoded@ + seq![NEWLINE],
    {
        let ghost w = self.pending_write();
        self.write_buf.extend_from_slice(encoded);
        self.write_buf.push(NEWLINE);
        assert(self.pending_write() =~= w + encoded@ + seq![NEWLINE]);
    }

    /// Records that the transport accepted the first `n` pending bytes.
    ///
    /// With nothing pending the write buffer is reset and reported flushed.
    /// Zero bytes accepted out of a non-empty offer is a stalled writer: the
    /// buffer is left as it was. Otherwise the `n` bytes leave the pending
    /// region, and a fully drained buffer is reset.
    pub fn commit_write(&mut self, n: usize) -> (r: WriteStep)
        requires
            old(self).wf(),
            n <= old(self).pending_write().len(),
        ensures
            final(self).wf(),
            final(self).transport() == old(self).transport(),
            final(self).pending_read() == old(self).pending_read(),
            final(self).read_capacity() == old(self).read_capacity(),
            final(self).spare_read() == old(self).spare_read(),
            old(self).pending_write().len() > 0 && n == 0 ==> r == WriteStep::WriteZero
                && final(self).pending_write() == old(self).pending_write(),
            old(self).pending_write().len() == 0 || n > 0 ==> final(self).pending_write()
                == old(self).pending_write().skip(n as int) && (r == WriteStep::Flushed
                <==> final(self).pending_write().len() == 0) && r != WriteStep::WriteZero,
    {
        let len = self.write_buf.len();
        if self.write_buf_offset < len && n == 0 {
            return WriteStep::WriteZero;
        }
        let ghost w = self.pending_write();
        let off = self.write_buf_offset + n;
        if off == len {
            self.write_buf.clear();
            self.write_buf_offset = 0;
            assert(self.pending_write() =~= w.skip(n as int));
            WriteStep::Flushed
        } else {
            self.write_buf_offset = off;
            assert(self.pending_write() =~= w.skip(n as int));
            WriteStep::Pending
        }
    }

    /// Returns a reference to the inner stream.
    pub fn inner(&self) -> (r: &S)
        ensures
            *r == self.transport(),
    {
        &self.inner
    }

    /// Returns a mutable reference to the inner stream; the buffers are left
    /// as they are.
    pub fn inner_mut(&mut self) -> (r: &mut S)
        ensures
            *r == old(self).transport(),
            final(self).transport() == *final(r),
            final(self).wf() == old(self).wf(),
            final(self).pending_read() == old(self).pending_read(),
            final(self).pending_write() == old(self).pending_write(),
            final(self).spare_read() == old(self).spare_read(),
    {
        &mut self.inner
    }

    /// Consumes the stream and returns the inner stream.
    ///
    /// Any bytes left in the read and write buffers are lost.
    pub fn into_inner(self) -> (r: S)
        ensures
            r == self.transport(),
    {
        self.inner
    }

    /// Returns the bytes received that do not yet form a returned line.
    pub fn read_buf(&self) -> (r: &[u8])
        requires
            self.wf(),
        ensures
            r@ == self.pending_read(),
    {
        slice_subrange(self.read_buf.as_slice(), self.read_buf_offset, self.read_buf_end)
    }

    /// Returns the bytes queued for the transport and not yet written.
    pub fn write_buf(&self) -> (r: &[u8])
        requires
            self.wf(),
        ensures
            r@ == self.pending_write(),
    {
        slice_subrange(self.write_buf.as_slice(), self.write_buf_offset, self.write_buf.len())
    }
}

} // verus!
