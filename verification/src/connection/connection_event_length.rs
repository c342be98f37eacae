//! Connection event lengths and connection event length ranges.
use vstd::prelude::*;

use crate::bytes::{
    lemma_u16_le_bytes_roundtrip, lemma_u16_le_roundtrip, push_u16_le, read_u16_le,
    spec_u16_from_le, spec_u16_le_bytes,
};
use crate::encode::EncodeToBuffer;
use crate::error::Error;

verus! {

/// Connection event length.
///
/// The length of connection event recommended for a LE connection.
///
/// Range: 0x0000 to 0xFFFF, Time = N × 0.625 ms (0 ms to 40.959375 s).
///
/// See Core Specification 6.0, Vol.4, Part E, 7.8.12.
#[derive(Debug, Clone, Copy, PartialEq, Eq, Structural, PartialOrd, Ord)]
pub struct ConnectionEventLength {
    value: u16,
}

impl ConnectionEventLength {
    /// The raw value.
    pub closed spec fn spec_value(self) -> u16 {
        self.value
    }

    /// The value holding `value`.
    pub closed spec fn spec_new(value: u16) -> ConnectionEventLength {
        ConnectionEventLength { value }
    }

    /// Creates a value; every raw value is valid.
    pub fn new(value: u16) -> (r: ConnectionEventLength)
        ensures
            r == ConnectionEventLength::spec_new(value),
            r.spec_value() == value,
    {
        ConnectionEventLength { value }
    }

    /// The raw value.
    pub fn value(&self) -> (r: u16)
        ensures
            r == self.spec_value(),
    {
        self.value
    }

    /// Values are determined by their raw value.
    pub proof fn lemma_spec_value_injective(a: ConnectionEventLength, b: ConnectionEventLength)
        ensures
            a.spec_value() == b.spec_value() ==> a == b,
    {
    }

    /// The raw value of a value made by `new` is the value given.
    pub proof fn lemma_spec_new_value(value: u16)
        ensures
            ConnectionEventLength::spec_new(value).spec_value() == value,
    {
    }
}

impl Default for ConnectionEventLength {
    fn default() -> (r: ConnectionEventLength)
        ensures
            r.spec_value() == 0,
    {
        ConnectionEventLength { value: 0 }
    }
}

impl From<u16> for ConnectionEventLength {
    fn from(value: u16) -> ConnectionEventLength {
        ConnectionEventLength::new(value)
    }
}

impl vstd::std_specs::convert::FromSpecImpl<u16> for ConnectionEventLength {
    open spec fn obeys_from_spec() -> bool {
        true
    }

    open spec fn from_spec(v: u16) -> ConnectionEventLength {
        ConnectionEventLength::spec_new(v)
    }
}

impl EncodeToBuffer for ConnectionEventLength {
    open spec fn spec_encode(&self) -> Seq<u8> {
        spec_u16_le_bytes(self.spec_value())
    }

    fn encode(&self, buffer: &mut Vec<u8>) -> (n: usize) {
        push_u16_le(buffer, self.value);
        2
    }

    fn encoded_size(&self) -> (n: usize) {
        2
    }
}

/// A range of connection event lengths: the minimum and the maximum connection event length.
#[derive(Debug, Clone, Copy, PartialEq, Eq, Structural)]
pub struct ConnectionEventLengthRange {
    min: ConnectionEventLength,
    max: ConnectionEventLength,
}

impl ConnectionEventLengthRange {
    /// The lower bound.
    pub closed spec fn spec_min(self) -> ConnectionEventLength {
        self.min
    }

    /// The upper bound.
    pub closed spec fn spec_max(self) -> ConnectionEventLength {
        self.max
    }

    /// Well-formedness: valid bounds, in order.
    pub open spec fn wf(self) -> bool {
        &&& self.spec_min().spec_value() <= self.spec_max().spec_value()
    }

    /// The outcome of `try_new`: the bounds must be in order.
    pub closed spec fn spec_try_new(min: u16, max: u16) -> Result<ConnectionEventLengthRange, Error> {
        if min <= max {
            Ok(ConnectionEventLengthRange { min: ConnectionEventLength::spec_new(min), max: ConnectionEventLength::spec_new(max) })
        } else {
            Err(Error::InvalidConnectionEventLengthRange)
        }
    }

    /// When `try_new` succeeds, and which error it gives otherwise.
    pub proof fn lemma_spec_try_new(min: u16, max: u16)
        ensures
            ConnectionEventLengthRange::spec_try_new(min, max) is Ok <==> min <= max,
            min > max ==> ConnectionEventLengthRange::spec_try_new(min, max) == Err::<ConnectionEventLengthRange, Error>(
                Error::InvalidConnectionEventLengthRange,
            ),
            ConnectionEventLengthRange::spec_try_new(min, max) matches Ok(v) ==> v.spec_min().spec_value() == min
                && v.spec_max().spec_value() == max && v.wf(),
    {
        ConnectionEventLength::lemma_spec_new_value(min);
        ConnectionEventLength::lemma_spec_new_value(max);
    }

    /// Creates a valid range.
    pub fn try_new(min: u16, max: u16) -> (r: Result<ConnectionEventLengthRange, Error>)
        ensures
            r == ConnectionEventLengthRange::spec_try_new(min, max),
            r is Ok <==> min <= max,
            min > max ==> r == Err::<ConnectionEventLengthRange, Error>(
                Error::InvalidConnectionEventLengthRange,
            ),
            r matches Ok(v) ==> v.spec_min().spec_value() == min
                && v.spec_max().spec_value() == max && v.wf(),
    {
        proof {
            ConnectionEventLengthRange::lemma_spec_try_new(min, max);
        }
        if min <= max {
            Ok(ConnectionEventLengthRange { min: ConnectionEventLength::new(min), max: ConnectionEventLength::new(max) })
        } else {
            Err(Error::InvalidConnectionEventLengthRange)
        }
    }

    /// The lower bound.
    pub fn min(&self) -> (r: ConnectionEventLength)
        ensures
            r == self.spec_min(),
    {
        self.min
    }

    /// The upper bound.
    pub fn max(&self) -> (r: ConnectionEventLength)
        ensures
            r == self.spec_max(),
    {
        self.max
    }

    /// The outcome of parsing the four bytes of a range: two little-endian bounds, checked as by
    /// `try_new`.
    pub open spec fn spec_parse(s: Seq<u8>) -> Option<ConnectionEventLengthRange> {
        if s.len() == 4 {
            match ConnectionEventLengthRange::spec_try_new(spec_u16_from_le(s[0], s[1]), spec_u16_from_le(s[2], s[3])) {
                Ok(r) => Some(r),
                Err(_) => None,
            }
        } else {
            None
        }
    }

    /// Parses the range stored in the four bytes at `pos`.
    pub fn parse(input: &[u8], pos: usize) -> (r: Option<ConnectionEventLengthRange>)
        requires
            pos + 4 <= input@.len(),
        ensures
            r == ConnectionEventLengthRange::spec_parse(input@.subrange(pos as int, pos + 4)),
    {
        let ghost s = input@.subrange(pos as int, pos + 4);
        assert(s[0] == input@[pos as int] && s[1] == input@[pos + 1] && s[2] == input@[pos + 2] && s[3] == input@[pos + 3]);
        let len = input.len();
        assert(pos + 2 < len);
        match ConnectionEventLengthRange::try_new(read_u16_le(input, pos), read_u16_le(input, pos + 2)) {
            Ok(r) => Some(r),
            Err(_) => None,
        }
    }

    /// Parsing the encoding of a well-formed range gives it back.
    pub proof fn lemma_parse_encode(self)
        requires
            self.wf(),
        ensures
            ConnectionEventLengthRange::spec_parse(self.spec_encode()) == Some(self),
    {
        let s = self.spec_encode();
        lemma_u16_le_roundtrip(self.min.spec_value());
        lemma_u16_le_roundtrip(self.max.spec_value());
        ConnectionEventLength::lemma_spec_new_value(self.min.spec_value());
        ConnectionEventLength::lemma_spec_new_value(self.max.spec_value());
        ConnectionEventLength::lemma_spec_value_injective(self.min, ConnectionEventLength::spec_new(self.min.spec_value()));
        ConnectionEventLength::lemma_spec_value_injective(self.max, ConnectionEventLength::spec_new(self.max.spec_value()));
        assert(s[0] == spec_u16_le_bytes(self.min.spec_value())[0]);
        assert(s[1] == spec_u16_le_bytes(self.min.spec_value())[1]);
        assert(s[2] == spec_u16_le_bytes(self.max.spec_value())[0]);
        assert(s[3] == spec_u16_le_bytes(self.max.spec_value())[1]);
    }

    /// A range parsed from bytes is well-formed and encodes to those bytes.
    pub proof fn lemma_encode_parse(s: Seq<u8>)
        ensures
            ConnectionEventLengthRange::spec_parse(s) matches Some(r) ==> r.wf() && r.spec_encode() == s,
    {
        if let Some(r) = ConnectionEventLengthRange::spec_parse(s) {
            ConnectionEventLength::lemma_spec_new_value(spec_u16_from_le(s[0], s[1]));
            ConnectionEventLength::lemma_spec_new_value(spec_u16_from_le(s[2], s[3]));
            lemma_u16_le_bytes_roundtrip(s[0], s[1]);
            lemma_u16_le_bytes_roundtrip(s[2], s[3]);
            assert(r.spec_encode() =~= s);
        }
    }
}

impl Default for ConnectionEventLengthRange {
    fn default() -> (r: ConnectionEventLengthRange)
        ensures
            r.spec_min() == r.spec_max(),
            r.spec_min().spec_value() == 0,
            r.wf(),
    {
        ConnectionEventLengthRange { min: ConnectionEventLength::default(), max: ConnectionEventLength::default() }
    }
}

impl EncodeToBuffer for ConnectionEventLengthRange {
    open spec fn spec_encode(&self) -> Seq<u8> {
        self.spec_min().spec_encode() + self.spec_max().spec_encode()
    }

    fn encode(&self, buffer: &mut Vec<u8>) -> (n: usize) {
        let ghost start = buffer@;
        self.min.encode(buffer);
        self.max.encode(buffer);
        assert(buffer@ =~= start + self.spec_encode());
        4
    }

    fn encoded_size(&self) -> (n: usize) {
        4
    }
}

} // verus!
