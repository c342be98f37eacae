//! The buffer that holds the bytes read from the HCI driver and not parsed yet.
use vstd::prelude::*;

use crate::error::Error;

verus! {

/// The capacity of the read buffer: the largest HCI packet.
pub const HCI_MAX_READ_BUFFER_SIZE: usize = 259;

/// Bytes read from the HCI driver and not parsed yet, at most 259.
#[derive(Debug, Clone)]
pub struct HciBuffer {
    buffer: Vec<u8>,
}

impl HciBuffer {
    /// The bytes held.
    pub closed spec fn spec_data(&self) -> Seq<u8> {
        self.buffer@
    }

    /// Well-formedness: the bytes fit in the capacity.
    pub open spec fn wf(&self) -> bool {
        self.spec_data().len() <= HCI_MAX_READ_BUFFER_SIZE
    }

    /// Creates an empty buffer.
    pub fn new() -> (r: HciBuffer)
        ensures
            r.spec_data() == Seq::<u8>::empty(),
            r.wf(),
    {
        HciBuffer { buffer: Vec::new() }
    }

    /// Creates a buffer holding `data`, which must fit.
    pub fn try_from_slice(data: &[u8]) -> (r: Result<HciBuffer, Error>)
        ensures
            r is Ok <==> data@.len() <= HCI_MAX_READ_BUFFER_SIZE,
            r matches Ok(b) ==> b.spec_data() == data@ && b.wf(),
            r is Err ==> r == Err::<HciBuffer, Error>(Error::BufferTooSmall),
    {
        if data.len() > HCI_MAX_READ_BUFFER_SIZE {
            Err(Error::BufferTooSmall)
        } else {
            Ok(HciBuffer { buffer: vstd::slice::slice_to_vec(data) })
        }
    }

    /// Empties the buffer.
    pub fn clear(&mut self)
        ensures
            final(self).spec_data() == Seq::<u8>::empty(),
    {
        self.buffer = Vec::new();
    }

    /// The bytes held.
    pub fn data(&self) -> (r: &[u8])
        ensures
            r@ == self.spec_data(),
    {
        self.buffer.as_slice()
    }

    /// Whether no byte is held.
    pub fn is_empty(&self) -> (r: bool)
        ensures
            r == (self.spec_data().len() == 0),
    {
        self.buffer.len() == 0
    }

    /// The number of bytes held.
    pub fn len(&self) -> (r: usize)
        ensures
            r == self.spec_data().len(),
    {
        self.buffer.len()
    }

    /// The number of bytes that can still be appended.
    pub fn free_space(&self) -> (r: usize)
        requires
            self.wf(),
        ensures
            r == HCI_MAX_READ_BUFFER_SIZE - self.spec_data().len(),
    {
        HCI_MAX_READ_BUFFER_SIZE - self.buffer.len()
    }

    /// Appends bytes read from the driver, which must fit.
    pub fn extend(&mut self, data: &[u8])
        requires
            old(self).spec_data().len() + data@.len() <= HCI_MAX_READ_BUFFER_SIZE,
        ensures
            final(self).spec_data() == old(self).spec_data() + data@,
            final(self).wf(),
    {
        crate::bytes::push_slice(&mut self.buffer, data);
    }

    /// Drops the first `n` bytes, which have been parsed.
    pub fn consume(&mut self, n: usize)
        requires
            n <= old(self).spec_data().len(),
        ensures
            final(self).spec_data() == old(self).spec_data().subrange(
                n as int,
                old(self).spec_data().len() as int,
            ),
    {
        let rest = vstd::slice::slice_subrange(self.buffer.as_slice(), n, self.buffer.len());
        self.buffer = vstd::slice::slice_to_vec(rest);
    }
}

impl Default for HciBuffer {
    fn default() -> (r: HciBuffer)
        ensures
            r.spec_data() == Seq::<u8>::empty(),
            r.wf(),
    {
        HciBuffer::new()
    }
}

} // verus!
