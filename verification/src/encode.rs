//! Serialisation of HCI values into byte buffers.
use vstd::prelude::*;

verus! {

/// A value that has a fixed byte encoding in HCI packets.
pub trait EncodeToBuffer {
    /// The bytes that encode this value.
    spec fn spec_encode(&self) -> Seq<u8>;

    /// Appends the encoding of this value to `buffer` and returns the number of bytes written.
    fn encode(&self, buffer: &mut Vec<u8>) -> (n: usize)
        ensures
            final(buffer)@ == old(buffer)@ + self.spec_encode(),
            n == self.spec_encode().len(),
    ;

    /// The number of bytes of the encoding of this value.
    fn encoded_size(&self) -> (n: usize)
        ensures
            n == self.spec_encode().len(),
    ;
}

} // verus!
