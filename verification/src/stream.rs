//! An in-memory byte stream with a read cursor.
//!
//! Values are encoded by appending bytes at the end of the stream and decoded
//! by advancing the cursor through the bytes, so the codec is a pure function
//! of byte sequences. An embedding moves bytes between a `MemStream` and its
//! transport (a socket, a file, a pipe) outside of the codec.

use vstd::prelude::*;

use crate::errors::RPCError;

verus! {

/// A growable byte buffer with a read position. Writers append at the end;
/// readers consume from the cursor forward.
pub struct MemStream {
    data: Vec<u8>,
    pos: usize,
}

impl MemStream {
    /// All bytes ever written to the stream, consumed or not.
    pub closed spec fn bytes(&self) -> Seq<u8> {
        self.data@
    }

    /// The read position: bytes before it have been consumed.
    pub closed spec fn cursor(&self) -> int {
        self.pos as int
    }

    /// The cursor never runs past the end of the data.
    pub open spec fn wf(&self) -> bool {
        0 <= self.cursor() <= self.bytes().len()
    }

    /// The bytes still available for reading.
    pub open spec fn rest(&self) -> Seq<u8> {
        self.bytes().skip(self.cursor())
    }

    /// An empty stream.
    pub fn new() -> (s: Self)
        ensures
            s.wf(),
            s.bytes() == Seq::<u8>::empty(),
            s.cursor() == 0,
    {
        MemStream { data: Vec::new(), pos: 0 }
    }

    /// A stream holding the given bytes, with nothing consumed yet.
    pub fn from_bytes(data: Vec<u8>) -> (s: Self)
        ensures
            s.wf(),
            s.bytes() == data@,
            s.cursor() == 0,
    {
        MemStream { data, pos: 0 }
    }

    /// The bytes of the stream, for handing to a transport.
    pub fn as_bytes(&self) -> (r: &Vec<u8>)
        ensures
            r@ == self.bytes(),
    {
        &self.data
    }

    /// The current read position, for dropping consumed bytes from a buffer.
    pub fn position(&self) -> (r: usize)
        ensures
            r == self.cursor(),
    {
        self.pos
    }

    /// How many bytes are still available for reading.
    pub fn remaining(&self) -> (r: usize)
        requires
            self.wf(),
        ensures
            r == self.rest().len(),
    {
        self.data.len() - self.pos
    }
}

/// A stream lives in memory, so it never holds more than `usize::MAX` bytes.
pub proof fn lemma_stream_bounded(s: &MemStream)
    ensures
        s.bytes().len() <= usize::MAX,
{
    vstd::std_specs::vec::axiom_spec_len(&s.data);
}

/// Reads exactly `n` bytes from the stream, or fails with `StreamClosed`
/// when fewer are available, consuming nothing.
pub fn fill_buf(s: &mut MemStream, n: usize) -> (r: Result<Vec<u8>, RPCError>)
    requires
        old(s).wf(),
    ensures
        final(s).wf(),
        final(s).bytes() == old(s).bytes(),
        r matches Ok(buf) ==> ({
            &&& buf@ == old(s).rest().take(n as int)
            &&& buf@.len() == n
            &&& final(s).cursor() == old(s).cursor() + n
        }),
        r is Ok <==> old(s).rest().len() >= n,
        r is Err ==> r == Err::<Vec<u8>, RPCError>(RPCError::StreamClosed) && *final(s) == *old(s),
{
    if n > s.data.len() - s.pos {
        return Err(RPCError::StreamClosed);
    }
    let mut buf: Vec<u8> = Vec::new();
    let mut i: usize = 0;
    while i < n
        invariant
            old(s).wf(),
            *s == *old(s),
            0 <= i <= n,
            old(s).cursor() + n <= old(s).bytes().len(),
            old(s).bytes().len() <= usize::MAX,
            buf@ == old(s).rest().take(i as int),
        decreases n - i,
    {
        let b = s.data[s.pos + i];
        buf.push(b);
        proof {
            assert(buf@ =~= old(s).rest().take(i + 1));
        }
        i = i + 1;
    }
    s.pos = s.pos + n;
    Ok(buf)
}

/// Appends the given bytes at the end of the stream. Writing into memory
/// cannot fail; the `Result` mirrors the codec's uniform signature.
pub fn write_buf(s: &mut MemStream, buf: &[u8]) -> (r: Result<(), RPCError>)
    requires
        old(s).wf(),
    ensures
        final(s).wf(),
        r is Ok,
        final(s).bytes() == old(s).bytes() + buf@,
        final(s).cursor() == old(s).cursor(),
{
    let mut i: usize = 0;
    while i < buf.len()
        invariant
            old(s).wf(),
            s.pos == old(s).pos,
            0 <= i <= buf@.len(),
            s.data@ == old(s).data@ + buf@.take(i as int),
        decreases buf@.len() - i,
    {
        let b = buf[i];
        s.data.push(b);
        proof {
            assert(s.data@ =~= old(s).data@ + buf@.take(i + 1));
        }
        i = i + 1;
    }
    proof {
        assert(s.data@ =~= old(s).data@ + buf@);
    }
    Ok(())
}

} // verus!
