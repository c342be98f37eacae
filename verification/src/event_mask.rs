//! HCI event mask.
use vstd::prelude::*;

use crate::bytes::{
    lemma_u64_le_bytes_roundtrip, lemma_u64_le_roundtrip, push_u64_le, read_u64_le,
    spec_u64_from_le, spec_u64_le_bytes,
};
use crate::encode::EncodeToBuffer;

verus! {

/// HCI event mask.
///
/// See Core Specification 6.0, Vol. 4, Part E, 7.3.1.
#[derive(Debug, Clone, Copy, PartialEq, Eq, Structural)]
pub struct EventMask {
    bits: u64,
}

impl EventMask {
    /// This event occurs when a connection is terminated.
    pub fn disconnection_complete() -> (r: EventMask)
        ensures
            r.spec_bits() == 1u64 << 4u64,
    {
        EventMask { bits: 1u64 << 4u64 }
    }

    /// Indicates that the change of the encryption mode has been completed.
    pub fn encryption_change() -> (r: EventMask)
        ensures
            r.spec_bits() == 1u64 << 7u64,
    {
        EventMask { bits: 1u64 << 7u64 }
    }

    /// Indicate the completion of the process obtaining the version information of the remote Controller.
    pub fn read_remote_version_information_comlete() -> (r: EventMask)
        ensures
            r.spec_bits() == 1u64 << 11u64,
    {
        EventMask { bits: 1u64 << 11u64 }
    }

    /// Notifies the Host that a hardware failure has occurred in the Controller.
    pub fn hardware_error() -> (r: EventMask)
        ensures
            r.spec_bits() == 1u64 << 15u64,
    {
        EventMask { bits: 1u64 << 15u64 }
    }

    /// Indicates that the Controller’s data buffers have been overflowed.
    pub fn data_buffer_overflow() -> (r: EventMask)
        ensures
            r.spec_bits() == 1u64 << 25u64,
    {
        EventMask { bits: 1u64 << 25u64 }
    }

    /// Indicates to the Host that the encryption key was refreshed.
    pub fn encryption_key_refresh_complete() -> (r: EventMask)
        ensures
            r.spec_bits() == 1u64 << 47u64,
    {
        EventMask { bits: 1u64 << 47u64 }
    }

    /// Encapsulates all LE Controller specific events.
    pub fn le_meta() -> (r: EventMask)
        ensures
            r.spec_bits() == 1u64 << 61u64,
    {
        EventMask { bits: 1u64 << 61u64 }
    }

    /// The bits of the set.
    pub closed spec fn spec_bits(self) -> u64 {
        self.bits
    }

    /// The set holding exactly `bits`.
    pub closed spec fn spec_from_bits_retain(bits: u64) -> EventMask {
        EventMask { bits }
    }

    /// The bits that name a flag.
    pub open spec fn spec_known_bits() -> u64 {
        0x2000800002008890
    }

    /// The empty set.
    pub fn empty() -> (r: EventMask)
        ensures
            r.spec_bits() == 0,
    {
        EventMask { bits: 0 }
    }

    /// The set of all the named flags.
    pub fn all() -> (r: EventMask)
        ensures
            r.spec_bits() == EventMask::spec_known_bits(),
    {
        EventMask { bits: 0x2000800002008890 }
    }

    /// The bits of the set.
    pub fn bits(&self) -> (r: u64)
        ensures
            r == self.spec_bits(),
    {
        self.bits
    }

    /// The set holding exactly `bits`, unknown bits included.
    pub fn from_bits_retain(bits: u64) -> (r: EventMask)
        ensures
            r == EventMask::spec_from_bits_retain(bits),
            r.spec_bits() == bits,
    {
        EventMask { bits }
    }

    /// The set holding the known bits of `bits`, the others dropped.
    pub fn from_bits_truncate(bits: u64) -> (r: EventMask)
        ensures
            r.spec_bits() == bits & EventMask::spec_known_bits(),
    {
        EventMask { bits: bits & 0x2000800002008890 }
    }

    /// The set holding `bits`, or `None` where an unknown bit is set.
    pub fn from_bits(bits: u64) -> (r: Option<EventMask>)
        ensures
            r is Some <==> bits & !EventMask::spec_known_bits() == 0,
            r matches Some(m) ==> m.spec_bits() == bits,
    {
        if bits & !0x2000800002008890 == 0 {
            Some(EventMask { bits })
        } else {
            None
        }
    }

    /// Whether no flag is set.
    pub fn is_empty(&self) -> (r: bool)
        ensures
            r == (self.spec_bits() == 0),
    {
        self.bits == 0
    }

    /// Whether every flag of `other` is set.
    pub fn contains(&self, other: EventMask) -> (r: bool)
        ensures
            r == (self.spec_bits() & other.spec_bits() == other.spec_bits()),
    {
        self.bits & other.bits == other.bits
    }

    /// The flags set in either set.
    pub closed spec fn spec_union(a: EventMask, b: EventMask) -> EventMask {
        EventMask { bits: a.bits | b.bits }
    }

    /// The flags set in either set.
    pub fn union(self, other: EventMask) -> (r: EventMask)
        ensures
            r == EventMask::spec_union(self, other),
            r.spec_bits() == self.spec_bits() | other.spec_bits(),
    {
        EventMask { bits: self.bits | other.bits }
    }

    /// Sets the flags of `other`.
    pub fn insert(&mut self, other: EventMask)
        ensures
            final(self).spec_bits() == old(self).spec_bits() | other.spec_bits(),
    {
        self.bits = self.bits | other.bits;
    }

    /// Clears the flags of `other`.
    pub fn remove(&mut self, other: EventMask)
        ensures
            final(self).spec_bits() == old(self).spec_bits() & !other.spec_bits(),
    {
        self.bits = self.bits & !other.bits;
    }

    /// Sets are determined by their bits.
    pub proof fn lemma_spec_bits_injective(a: EventMask, b: EventMask)
        ensures
            a.spec_bits() == b.spec_bits() ==> a == b,
    {
    }

    /// The outcome of parsing exactly eight bytes: the little-endian bits, unknown bits kept.
    pub open spec fn spec_parse(s: Seq<u8>) -> Option<EventMask> {
        if s.len() == 8 {
            Some(EventMask::spec_from_bits_retain(spec_u64_from_le(s)))
        } else {
            None
        }
    }

    /// Parses exactly eight bytes.
    pub fn parse(input: &[u8]) -> (r: Option<EventMask>)
        ensures
            r == EventMask::spec_parse(input@),
    {
        if input.len() != 8 {
            return None;
        }
        assert(input@.subrange(0, 8) =~= input@);
        let bits = read_u64_le(input, 0);
        Some(EventMask { bits: bits })
    }

    /// Parsing the encoding of a set gives it back.
    pub proof fn lemma_parse_encode(self)
        
            
        ensures
            EventMask::spec_parse(self.spec_encode()) == Some(self),
    {
        lemma_u64_le_roundtrip(self.bits);

    }

    /// The encoding of a parsed set is the bytes parsed.
    pub proof fn lemma_encode_parse(s: Seq<u8>)
        
            
        ensures
            EventMask::spec_parse(s) matches Some(p) ==> p.spec_encode() == s,
    {
        if s.len() == 8 {
            lemma_u64_le_bytes_roundtrip(s);

        }
    }
}

impl Default for EventMask {
    fn default() -> (r: EventMask)
        ensures
            r.spec_bits() == 0x0000_1FFF_FFFF_FFFFu64,
    {
        EventMask { bits: 0x0000_1FFF_FFFF_FFFFu64 }
    }
}

impl core::ops::BitOr for EventMask {
    type Output = EventMask;

    fn bitor(self, rhs: EventMask) -> EventMask {
        self.union(rhs)
    }
}

impl vstd::std_specs::ops::BitOrSpecImpl for EventMask {
    open spec fn obeys_bitor_spec() -> bool {
        true
    }

    open spec fn bitor_req(self, rhs: EventMask) -> bool {
        true
    }

    open spec fn bitor_spec(self, rhs: EventMask) -> EventMask {
        EventMask::spec_union(self, rhs)
    }
}

impl EncodeToBuffer for EventMask {
    open spec fn spec_encode(&self) -> Seq<u8> {
        spec_u64_le_bytes(self.spec_bits())
    }

    fn encode(&self, buffer: &mut Vec<u8>) -> (n: usize) {
        push_u64_le(buffer, self.bits);
        8
    }

    fn encoded_size(&self) -> (n: usize) {
        8
    }
}

} // verus!
