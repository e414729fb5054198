//! A growable window over the not-yet-consumed bytes of the input: it grows
//! by appending freshly read bytes at the back and shrinks only by dropping a
//! consumed prefix at the front. Bytes behind the drain point are never read
//! again.

use vstd::prelude::*;

verus! {

/// The buffered, not-yet-consumed bytes of the input stream.
pub struct ByteWindow {
    bytes: Vec<u8>,
}

impl View for ByteWindow {
    type V = Seq<u8>;

    closed spec fn view(&self) -> Seq<u8> {
        self.bytes@
    }
}

impl ByteWindow {
    /// An empty window.
    pub fn new() -> (r: ByteWindow)
        ensures
            r@ == Seq::<u8>::empty(),
    {
        ByteWindow { bytes: Vec::new() }
    }

    /// How many bytes are buffered and not yet consumed.
    pub fn len(&self) -> (r: usize)
        ensures
            r == self@.len(),
    {
        self.bytes.len()
    }

    /// A slice of every buffered byte, in order.
    pub fn as_bytes(&self) -> (r: &[u8])
        ensures
            r@ == self@,
    {
        self.bytes.as_slice()
    }

    /// Appends freshly supplied bytes at the back of the window.
    pub fn append(&mut self, chunk: &[u8])
        ensures
            final(self)@ == old(self)@ + chunk@,
    {
        self.bytes.extend_from_slice(chunk);
    }

    /// Drops the first `n` bytes, which the decoder has consumed; they are
    /// never looked at again.
    pub fn drain_front(&mut self, n: usize)
        requires
            n <= old(self)@.len(),
        ensures
            final(self)@ == old(self)@.skip(n as int),
    {
        let rest = self.bytes.split_off(n);
        self.bytes = rest;
        proof {
            assert(self@ =~= old(self)@.skip(n as int));
        }
    }
}

} // verus!
