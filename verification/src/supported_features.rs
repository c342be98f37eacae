//! Features supported by a Controller.
use vstd::prelude::*;

use crate::bytes::{
    lemma_u64_le_bytes_roundtrip, lemma_u64_le_roundtrip, push_u64_le, read_u64_le,
    spec_u64_from_le, spec_u64_le_bytes,
};
use crate::encode::EncodeToBuffer;

verus! {

/// Features supported by the Controller (LMP features, page 0), one bit per feature.
///
/// See Core Specification 6.0, Vol. 2, Part C, 3.3.
#[derive(Debug, Clone, Copy, PartialEq, Eq, Structural)]
pub struct SupportedFeatures {
    bits: u64,
}

impl SupportedFeatures {
    /// LE Supported (Controller).
    pub fn le_supported_controller() -> (r: SupportedFeatures)
        ensures
            r.spec_bits() == 1u64 << 38u64,
    {
        SupportedFeatures { bits: 1u64 << 38u64 }
    }

    /// The bits of the set.
    pub closed spec fn spec_bits(self) -> u64 {
        self.bits
    }

    /// The set holding exactly `bits`.
    pub closed spec fn spec_from_bits_retain(bits: u64) -> SupportedFeatures {
        SupportedFeatures { bits }
    }

    /// The bits that name a flag.
    pub open spec fn spec_known_bits() -> u64 {
        0xFFFF_FFFF_FFFF_FFFFu64
    }

    /// The empty set.
    pub fn empty() -> (r: SupportedFeatures)
        ensures
            r.spec_bits() == 0,
    {
        SupportedFeatures { bits: 0 }
    }

    /// The set of all the named flags.
    pub fn all() -> (r: SupportedFeatures)
        ensures
            r.spec_bits() == SupportedFeatures::spec_known_bits(),
    {
        SupportedFeatures { bits: 0xFFFF_FFFF_FFFF_FFFFu64 }
    }

    /// The bits of the set.
    pub fn bits(&self) -> (r: u64)
        ensures
            r == self.spec_bits(),
    {
        self.bits
    }

    /// The set holding exactly `bits`, unknown bits included.
    pub fn from_bits_retain(bits: u64) -> (r: SupportedFeatures)
        ensures
            r == SupportedFeatures::spec_from_bits_retain(bits),
            r.spec_bits() == bits,
    {
        SupportedFeatures { bits }
    }

    /// The set holding the known bits of `bits`, the others dropped.
    pub fn from_bits_truncate(bits: u64) -> (r: SupportedFeatures)
        ensures
            r.spec_bits() == bits & SupportedFeatures::spec_known_bits(),
    {
        SupportedFeatures { bits: bits & 0xFFFF_FFFF_FFFF_FFFFu64 }
    }

    /// The set holding `bits`, or `None` where an unknown bit is set.
    pub fn from_bits(bits: u64) -> (r: Option<SupportedFeatures>)
        ensures
            r is Some <==> bits & !SupportedFeatures::spec_known_bits() == 0,
            r matches Some(m) ==> m.spec_bits() == bits,
    {
        if bits & !0xFFFF_FFFF_FFFF_FFFFu64 == 0 {
            Some(SupportedFeatures { bits })
        } else {
            None
        }
    }

    /// Whether no flag is set.
    pub fn is_empty(&self) -> (r: bool)
        ensures
            r == (self.spec_bits() == 0),
    {
        self.bits == 0
    }

    /// Whether every flag of `other` is set.
    pub fn contains(&self, other: SupportedFeatures) -> (r: bool)
        ensures
            r == (self.spec_bits() & other.spec_bits() == other.spec_bits()),
    {
        self.bits & other.bits == other.bits
    }

    /// The flags set in either set.
    pub closed spec fn spec_union(a: SupportedFeatures, b: SupportedFeatures) -> SupportedFeatures {
        SupportedFeatures { bits: a.bits | b.bits }
    }

    /// The flags set in either set.
    pub fn union(self, other: SupportedFeatures) -> (r: SupportedFeatures)
        ensures
            r == SupportedFeatures::spec_union(self, other),
            r.spec_bits() == self.spec_bits() | other.spec_bits(),
    {
        SupportedFeatures { bits: self.bits | other.bits }
    }

    /// Sets the flags of `other`.
    pub fn insert(&mut self, other: SupportedFeatures)
        ensures
            final(self).spec_bits() == old(self).spec_bits() | other.spec_bits(),
    {
        self.bits = self.bits | other.bits;
    }

    /// Clears the flags of `other`.
    pub fn remove(&mut self, other: SupportedFeatures)
        ensures
            final(self).spec_bits() == old(self).spec_bits() & !other.spec_bits(),
    {
        self.bits = self.bits & !other.bits;
    }

    /// Sets are determined by their bits.
    pub proof fn lemma_spec_bits_injective(a: SupportedFeatures, b: SupportedFeatures)
        ensures
            a.spec_bits() == b.spec_bits() ==> a == b,
    {
    }

    /// The outcome of parsing exactly eight bytes: the little-endian bits, unknown bits kept.
    pub open spec fn spec_parse(s: Seq<u8>) -> Option<SupportedFeatures> {
        if s.len() == 8 {
            Some(SupportedFeatures::spec_from_bits_retain(spec_u64_from_le(s)))
        } else {
            None
        }
    }

    /// Parses exactly eight bytes.
    pub fn parse(input: &[u8]) -> (r: Option<SupportedFeatures>)
        ensures
            r == SupportedFeatures::spec_parse(input@),
    {
        if input.len() != 8 {
            return None;
        }
        assert(input@.subrange(0, 8) =~= input@);
        let bits = read_u64_le(input, 0);
        Some(SupportedFeatures { bits: bits })
    }

    /// Parsing the encoding of a set gives it back.
    pub proof fn lemma_parse_encode(self)
        
            
        ensures
            SupportedFeatures::spec_parse(self.spec_encode()) == Some(self),
    {
        lemma_u64_le_roundtrip(self.bits);

    }

    /// The encoding of a parsed set is the bytes parsed.
    pub proof fn lemma_encode_parse(s: Seq<u8>)
        
            
        ensures
            SupportedFeatures::spec_parse(s) matches Some(p) ==> p.spec_encode() == s,
    {
        if s.len() == 8 {
            lemma_u64_le_bytes_roundtrip(s);

        }
    }
}

impl Default for SupportedFeatures {
    fn default() -> (r: SupportedFeatures)
        ensures
            r.spec_bits() == 0u64,
    {
        SupportedFeatures { bits: 0u64 }
    }
}

impl core::ops::BitOr for SupportedFeatures {
    type Output = SupportedFeatures;

    fn bitor(self, rhs: SupportedFeatures) -> SupportedFeatures {
        self.union(rhs)
    }
}

impl vstd::std_specs::ops::BitOrSpecImpl for SupportedFeatures {
    open spec fn obeys_bitor_spec() -> bool {
        true
    }

    open spec fn bitor_req(self, rhs: SupportedFeatures) -> bool {
        true
    }

    open spec fn bitor_spec(self, rhs: SupportedFeatures) -> SupportedFeatures {
        SupportedFeatures::spec_union(self, rhs)
    }
}

impl EncodeToBuffer for SupportedFeatures {
    open spec fn spec_encode(&self) -> Seq<u8> {
        spec_u64_le_bytes(self.spec_bits())
    }

    fn encode(&self, buffer: &mut Vec<u8>) -> (n: usize) {
        push_u64_le(buffer, self.bits);
        8
    }

    fn encoded_size(&self) -> (n: usize) {
        8
    }
}

} // verus!
