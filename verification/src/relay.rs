//! One direction of the PTY relay: a fixed-capacity byte buffer between a
//! source descriptor and a sink descriptor.
//!
//! The event loop fills the buffer with whatever the source yielded and
//! drains a prefix whenever the sink took bytes. The buffer holds exactly
//! the bytes already read and not yet written, so the bytes handed to the
//! sink over the whole run are, in order, exactly the bytes taken from the
//! source. Backpressure falls out of the two sides: a full buffer accepts
//! no read, an empty one offers no write.

use vstd::prelude::*;

verus! {

/// A directional relay buffer.
pub struct RelayBuffer {
    buffer: Vec<u8>,
    capacity: usize,
    read_eof: bool,
    write_error: bool,
    delivered: Ghost<Seq<u8>>,
}

impl RelayBuffer {
    /// Bytes read from the source and not yet written to the sink.
    pub closed spec fn pending(&self) -> Seq<u8> {
        self.buffer@
    }

    /// Bytes already written to the sink, in order.
    pub closed spec fn spec_delivered(&self) -> Seq<u8> {
        self.delivered@
    }

    /// Every byte taken from the source so far, in order.
    pub open spec fn taken_in(&self) -> Seq<u8> {
        self.spec_delivered() + self.pending()
    }

    /// The fixed capacity.
    pub closed spec fn spec_capacity(&self) -> usize {
        self.capacity
    }

    /// The source reached end of file.
    pub closed spec fn spec_read_eof(&self) -> bool {
        self.read_eof
    }

    /// The sink failed for good.
    pub closed spec fn spec_write_error(&self) -> bool {
        self.write_error
    }

    /// The buffer never holds more than its capacity.
    pub open spec fn wf(&self) -> bool {
        self.pending().len() <= self.spec_capacity()
    }

    /// A fresh, empty buffer.
    pub fn new(capacity: usize) -> (b: Self)
        ensures
            b.wf(),
            b.pending() == Seq::<u8>::empty(),
            b.spec_delivered() == Seq::<u8>::empty(),
            b.spec_capacity() == capacity,
            !b.spec_read_eof(),
            !b.spec_write_error(),
    {
        RelayBuffer {
            buffer: Vec::new(),
            capacity,
            read_eof: false,
            write_error: false,
            delivered: Ghost(Seq::empty()),
        }
    }

    /// How many bytes a read from the source may still yield.
    pub fn space_left(&self) -> (n: usize)
        requires
            self.wf(),
        ensures
            n == self.spec_capacity() - self.pending().len(),
    {
        self.capacity - self.buffer.len()
    }

    /// Whether the read side should stay registered: there is room and no
    /// end of file was seen.
    pub fn wants_read(&self) -> (r: bool)
        ensures
            r == (self.pending().len() < self.spec_capacity() && !self.spec_read_eof()),
    {
        self.buffer.len() < self.capacity && !self.read_eof
    }

    /// Whether the write side should stay registered: there are bytes to
    /// flush and the sink still works.
    pub fn wants_write(&self) -> (r: bool)
        ensures
            r == (self.pending().len() > 0 && !self.spec_write_error()),
    {
        self.buffer.len() > 0 && !self.write_error
    }

    /// Accept the bytes one read from the source yielded. The source is
    /// read with at most `space_left()` asked for, so the bytes fit.
    pub fn accept(&mut self, data: &Vec<u8>)
        requires
            old(self).wf(),
            old(self).pending().len() + data@.len() <= old(self).spec_capacity(),
        ensures
            final(self).wf(),
            final(self).pending() == old(self).pending() + data@,
            final(self).spec_delivered() == old(self).spec_delivered(),
            final(self).taken_in() == old(self).taken_in() + data@,
            final(self).spec_capacity() == old(self).spec_capacity(),
            final(self).spec_read_eof() == old(self).spec_read_eof(),
            final(self).spec_write_error() == old(self).spec_write_error(),
    {
        let mut i: usize = 0;
        assert(data@.take(0) =~= Seq::<u8>::empty());
        assert(self.buffer@ =~= self.buffer@ + data@.take(0));
        while i < data.len()
            invariant
                i <= data@.len(),
                self.buffer@ == old(self).buffer@ + data@.take(i as int),
                old(self).buffer@.len() + data@.len() <= self.capacity,
                self.capacity == old(self).capacity,
                self.read_eof == old(self).read_eof,
                self.write_error == old(self).write_error,
                self.delivered == old(self).delivered,
            decreases data@.len() - i,
        {
            self.buffer.push(data[i]);
            i = i + 1;
            assert(self.buffer@ =~= old(self).buffer@ + data@.take(i as int));
        }
        assert(self.buffer@ =~= old(self).buffer@ + data@);
        assert(self.delivered@ + self.buffer@ =~= (old(self).delivered@ + old(self).buffer@)
            + data@);
    }

    /// The bytes the sink should be offered next.
    pub fn to_flush(&self) -> (b: &Vec<u8>)
        ensures
            b@ == self.pending(),
    {
        &self.buffer
    }

    /// Note that the sink took the first `n` offered bytes; a short write
    /// leaves the rest pending.
    pub fn flushed(&mut self, n: usize)
        requires
            old(self).wf(),
            n <= old(self).pending().len(),
        ensures
            final(self).wf(),
            final(self).pending() == old(self).pending().skip(n as int),
            final(self).spec_delivered() == old(self).spec_delivered() + old(self).pending().take(
                n as int,
            ),
            final(self).taken_in() == old(self).taken_in(),
            final(self).spec_capacity() == old(self).spec_capacity(),
            final(self).spec_read_eof() == old(self).spec_read_eof(),
            final(self).spec_write_error() == old(self).spec_write_error(),
    {
        let mut rest: Vec<u8> = Vec::new();
        let mut i: usize = n;
        assert(rest@ =~= self.buffer@.subrange(n as int, n as int));
        while i < self.buffer.len()
            invariant
                n <= i <= self.buffer@.len(),
                self.buffer@ == old(self).buffer@,
                rest@ == self.buffer@.subrange(n as int, i as int),
                self.capacity == old(self).capacity,
                self.read_eof == old(self).read_eof,
                self.write_error == old(self).write_error,
                self.delivered == old(self).delivered,
            decreases self.buffer@.len() - i,
        {
            let byte = self.buffer[i];
            rest.push(byte);
            i = i + 1;
            assert(rest@ =~= self.buffer@.subrange(n as int, i as int));
        }
        proof {
            self.delivered@ = self.delivered@ + self.buffer@.take(n as int);
        }
        self.buffer = rest;
        assert(self.buffer@ =~= old(self).buffer@.skip(n as int));
        assert(self.delivered@ + self.buffer@ =~= old(self).delivered@ + old(self).buffer@);
    }

    /// Note end of file on the source.
    pub fn mark_read_eof(&mut self)
        ensures
            final(self).pending() == old(self).pending(),
            final(self).spec_delivered() == old(self).spec_delivered(),
            final(self).spec_capacity() == old(self).spec_capacity(),
            final(self).spec_read_eof(),
            final(self).spec_write_error() == old(self).spec_write_error(),
            old(self).wf() ==> final(self).wf(),
    {
        self.read_eof = true;
    }

    /// Note an unrecoverable sink error.
    pub fn mark_write_error(&mut self)
        ensures
            final(self).pending() == old(self).pending(),
            final(self).spec_delivered() == old(self).spec_delivered(),
            final(self).spec_capacity() == old(self).spec_capacity(),
            final(self).spec_read_eof() == old(self).spec_read_eof(),
            final(self).spec_write_error(),
            old(self).wf() ==> final(self).wf(),
    {
        self.write_error = true;
    }

    /// Whether this direction is finished: nothing pending and either end
    /// closed it.
    pub fn finished(&self) -> (r: bool)
        ensures
            r == (self.spec_write_error() || (self.spec_read_eof() && self.pending().len() == 0)),
    {
        self.write_error || (self.read_eof && self.buffer.len() == 0)
    }
}

/// Byte-exact relay: at every point of a run, what went out to the sink
/// is, byte for byte and in order, a prefix of what came in from the
/// source, and nothing is lost: the rest is exactly what the buffer still
/// holds.
pub proof fn lemma_relay_byte_exact(b: RelayBuffer)
    ensures
        b.spec_delivered() == b.taken_in().take(b.spec_delivered().len() as int),
        b.taken_in() == b.spec_delivered() + b.pending(),
{
    assert(b.spec_delivered() =~= b.taken_in().take(b.spec_delivered().len() as int));
}

} // verus!
