//! Connection intervals and connection interval ranges.
use vstd::prelude::*;

use crate::bytes::{
    lemma_u16_le_bytes_roundtrip, lemma_u16_le_roundtrip, push_u16_le, read_u16_le,
    spec_u16_from_le, spec_u16_le_bytes,
};
use crate::encode::EncodeToBuffer;
use crate::error::Error;

verus! {

/// Value to be used in a connection interval range.
///
/// Range: 0x0006 to 0x0C80, default 0x0040 (80 ms), Time = N × 1.25 ms (7.5 ms to 4 s).
#[derive(Debug, Clone, Copy, PartialEq, Eq, Structural, PartialOrd, Ord)]
pub struct ConnectionInterval {
    value: u16,
}

impl ConnectionInterval {
    /// The values accepted by `try_new`.
    pub open spec fn spec_is_valid(value: u16) -> bool {
        0x0006 <= value <= 0x0C80
    }

    /// The raw value.
    pub closed spec fn spec_value(self) -> u16 {
        self.value
    }

    /// Well-formedness: the raw value is in the valid range.
    pub open spec fn wf(self) -> bool {
        ConnectionInterval::spec_is_valid(self.spec_value())
    }

    /// The outcome of `try_new`.
    pub closed spec fn spec_try_new(value: u16) -> Result<ConnectionInterval, Error> {
        if ConnectionInterval::spec_is_valid(value) {
            Ok(ConnectionInterval { value })
        } else {
            Err(Error::InvalidConnectionIntervalValue(value))
        }
    }

    /// Creates a valid value, checking its range.
    pub fn try_new(value: u16) -> (r: Result<ConnectionInterval, Error>)
        ensures
            r == ConnectionInterval::spec_try_new(value),
            r is Ok <==> ConnectionInterval::spec_is_valid(value),
            r matches Ok(v) ==> v.spec_value() == value && v.wf(),
            r is Err ==> r == Err::<ConnectionInterval, Error>(Error::InvalidConnectionIntervalValue(value)),
    {
        if 0x0006 <= value && value <= 0x0C80 {
            Ok(ConnectionInterval { value })
        } else {
            Err(Error::InvalidConnectionIntervalValue(value))
        }
    }

    /// The raw value.
    pub fn value(&self) -> (r: u16)
        ensures
            r == self.spec_value(),
    {
        self.value
    }

    /// Values are determined by their raw value.
    pub proof fn lemma_spec_value_injective(a: ConnectionInterval, b: ConnectionInterval)
        ensures
            a.spec_value() == b.spec_value() ==> a == b,
    {
    }

    /// The raw value of a value made by `try_new` is the value given.
    pub proof fn lemma_spec_try_new_value(value: u16)
        ensures
            ConnectionInterval::spec_try_new(value) is Ok <==> ConnectionInterval::spec_is_valid(value),
            ConnectionInterval::spec_try_new(value) is Ok ==> (ConnectionInterval::spec_try_new(value)->Ok_0).spec_value() == value,
            ConnectionInterval::spec_try_new(value) is Err ==> ConnectionInterval::spec_try_new(value) == Err::<ConnectionInterval, Error>(Error::InvalidConnectionIntervalValue(value)),
    {
    }

    /// `try_new` of the raw value of a well-formed value gives that value back.
    pub proof fn lemma_try_new_spec_value(self)
        requires
            self.wf(),
        ensures
            ConnectionInterval::spec_try_new(self.spec_value()) == Ok::<ConnectionInterval, Error>(self),
    {
    }
}

impl Default for ConnectionInterval {
    fn default() -> (r: ConnectionInterval)
        ensures
            r.spec_value() == 0x0040,
            r.wf(),
    {
        ConnectionInterval { value: 0x0040 }
    }
}

impl TryFrom<u16> for ConnectionInterval {
    type Error = Error;

    fn try_from(value: u16) -> Result<ConnectionInterval, Error> {
        ConnectionInterval::try_new(value)
    }
}

impl vstd::std_specs::convert::TryFromSpecImpl<u16> for ConnectionInterval {
    open spec fn obeys_try_from_spec() -> bool {
        true
    }

    open spec fn try_from_spec(v: u16) -> Result<ConnectionInterval, Error> {
        ConnectionInterval::spec_try_new(v)
    }
}

impl EncodeToBuffer for ConnectionInterval {
    open spec fn spec_encode(&self) -> Seq<u8> {
        spec_u16_le_bytes(self.spec_value())
    }

    fn encode(&self, buffer: &mut Vec<u8>) -> (n: usize) {
        push_u16_le(buffer, self.value);
        2
    }

    fn encoded_size(&self) -> (n: usize) {
        2
    }
}

impl From<ConnectionInterval> for u16 {
    fn from(value: ConnectionInterval) -> u16 {
        value.value()
    }
}

impl vstd::std_specs::convert::FromSpecImpl<ConnectionInterval> for u16 {
    open spec fn obeys_from_spec() -> bool {
        true
    }

    open spec fn from_spec(v: ConnectionInterval) -> u16 {
        v.spec_value()
    }
}

/// A range of connection intervals: the minimum and the maximum connection interval.
#[derive(Debug, Clone, Copy, PartialEq, Eq, Structural)]
pub struct ConnectionIntervalRange {
    min: ConnectionInterval,
    max: ConnectionInterval,
}

impl ConnectionIntervalRange {
    /// The lower bound.
    pub closed spec fn spec_min(self) -> ConnectionInterval {
        self.min
    }

    /// The upper bound.
    pub closed spec fn spec_max(self) -> ConnectionInterval {
        self.max
    }

    /// Well-formedness: valid bounds, in order.
    pub open spec fn wf(self) -> bool {
        &&& self.spec_min().wf()
        &&& self.spec_max().wf()
        &&& self.spec_min().spec_value() <= self.spec_max().spec_value()
    }

    /// The outcome of `try_new`: the order is checked first, then the minimum, then the maximum.
    pub closed spec fn spec_try_new(min: u16, max: u16) -> Result<ConnectionIntervalRange, Error> {
        if !(min <= max) {
            Err(Error::InvalidConnectionIntervalRange)
        } else if ConnectionInterval::spec_try_new(min) is Err {
            Err(ConnectionInterval::spec_try_new(min)->Err_0)
        } else if ConnectionInterval::spec_try_new(max) is Err {
            Err(ConnectionInterval::spec_try_new(max)->Err_0)
        } else {
            Ok(ConnectionIntervalRange { min: ConnectionInterval::spec_try_new(min)->Ok_0, max: ConnectionInterval::spec_try_new(max)->Ok_0 })
        }
    }

    /// When `try_new` succeeds, and which error it gives otherwise.
    pub proof fn lemma_spec_try_new(min: u16, max: u16)
        ensures
            ConnectionIntervalRange::spec_try_new(min, max) is Ok <==> min <= max && ConnectionInterval::spec_is_valid(min)
                && ConnectionInterval::spec_is_valid(max),
            min > max ==> ConnectionIntervalRange::spec_try_new(min, max) == Err::<ConnectionIntervalRange, Error>(
                Error::InvalidConnectionIntervalRange,
            ),
            min <= max && !ConnectionInterval::spec_is_valid(min) ==> ConnectionIntervalRange::spec_try_new(min, max)
                == Err::<ConnectionIntervalRange, Error>(Error::InvalidConnectionIntervalValue(min)),
            min <= max && ConnectionInterval::spec_is_valid(min) && !ConnectionInterval::spec_is_valid(
                max,
            ) ==> ConnectionIntervalRange::spec_try_new(min, max) == Err::<ConnectionIntervalRange, Error>(
                Error::InvalidConnectionIntervalValue(max),
            ),
            ConnectionIntervalRange::spec_try_new(min, max) matches Ok(v) ==> v.spec_min().spec_value() == min
                && v.spec_max().spec_value() == max && v.wf(),
    {
        ConnectionInterval::lemma_spec_try_new_value(min);
        ConnectionInterval::lemma_spec_try_new_value(max);
    }

    /// Creates a valid range.
    pub fn try_new(min: u16, max: u16) -> (r: Result<ConnectionIntervalRange, Error>)
        ensures
            r == ConnectionIntervalRange::spec_try_new(min, max),
            r is Ok <==> min <= max && ConnectionInterval::spec_is_valid(min)
                && ConnectionInterval::spec_is_valid(max),
            min > max ==> r == Err::<ConnectionIntervalRange, Error>(
                Error::InvalidConnectionIntervalRange,
            ),
            min <= max && !ConnectionInterval::spec_is_valid(min) ==> r
                == Err::<ConnectionIntervalRange, Error>(Error::InvalidConnectionIntervalValue(min)),
            min <= max && ConnectionInterval::spec_is_valid(min) && !ConnectionInterval::spec_is_valid(
                max,
            ) ==> r == Err::<ConnectionIntervalRange, Error>(
                Error::InvalidConnectionIntervalValue(max),
            ),
            r matches Ok(v) ==> v.spec_min().spec_value() == min
                && v.spec_max().spec_value() == max && v.wf(),
    {
        proof {
            ConnectionIntervalRange::lemma_spec_try_new(min, max);
        }
        if min <= max {
            let min_value = match ConnectionInterval::try_new(min) {
                Ok(v) => v,
                Err(e) => return Err(e),
            };
            let max_value = match ConnectionInterval::try_new(max) {
                Ok(v) => v,
                Err(e) => return Err(e),
            };
            Ok(ConnectionIntervalRange { min: min_value, max: max_value })
        } else {
            Err(Error::InvalidConnectionIntervalRange)
        }
    }

    /// The lower bound.
    pub fn min(&self) -> (r: ConnectionInterval)
        ensures
            r == self.spec_min(),
    {
        self.min
    }

    /// The upper bound.
    pub fn max(&self) -> (r: ConnectionInterval)
        ensures
            r == self.spec_max(),
    {
        self.max
    }

    /// The outcome of parsing the four bytes of a range: two little-endian bounds, checked as by
    /// `try_new`.
    pub open spec fn spec_parse(s: Seq<u8>) -> Option<ConnectionIntervalRange> {
        if s.len() == 4 {
            match ConnectionIntervalRange::spec_try_new(spec_u16_from_le(s[0], s[1]), spec_u16_from_le(s[2], s[3])) {
                Ok(r) => Some(r),
                Err(_) => None,
            }
        } else {
            None
        }
    }

    /// Parses the range stored in the four bytes at `pos`.
    pub fn parse(input: &[u8], pos: usize) -> (r: Option<ConnectionIntervalRange>)
        requires
            pos + 4 <= input@.len(),
        ensures
            r == ConnectionIntervalRange::spec_parse(input@.subrange(pos as int, pos + 4)),
    {
        let ghost s = input@.subrange(pos as int, pos + 4);
        assert(s[0] == input@[pos as int] && s[1] == input@[pos + 1] && s[2] == input@[pos + 2] && s[3] == input@[pos + 3]);
        let len = input.len();
        assert(pos + 2 < len);
        match ConnectionIntervalRange::try_new(read_u16_le(input, pos), read_u16_le(input, pos + 2)) {
            Ok(r) => Some(r),
            Err(_) => None,
        }
    }

    /// Parsing the encoding of a well-formed range gives it back.
    pub proof fn lemma_parse_encode(self)
        requires
            self.wf(),
        ensures
            ConnectionIntervalRange::spec_parse(self.spec_encode()) == Some(self),
    {
        let s = self.spec_encode();
        lemma_u16_le_roundtrip(self.min.spec_value());
        lemma_u16_le_roundtrip(self.max.spec_value());
        self.min.lemma_try_new_spec_value();
        self.max.lemma_try_new_spec_value();
        assert(s[0] == spec_u16_le_bytes(self.min.spec_value())[0]);
        assert(s[1] == spec_u16_le_bytes(self.min.spec_value())[1]);
        assert(s[2] == spec_u16_le_bytes(self.max.spec_value())[0]);
        assert(s[3] == spec_u16_le_bytes(self.max.spec_value())[1]);
    }

    /// A range parsed from bytes is well-formed and encodes to those bytes.
    pub proof fn lemma_encode_parse(s: Seq<u8>)
        ensures
            ConnectionIntervalRange::spec_parse(s) matches Some(r) ==> r.wf() && r.spec_encode() == s,
    {
        if let Some(r) = ConnectionIntervalRange::spec_parse(s) {
            ConnectionInterval::lemma_spec_try_new_value(spec_u16_from_le(s[0], s[1]));
            ConnectionInterval::lemma_spec_try_new_value(spec_u16_from_le(s[2], s[3]));
            lemma_u16_le_bytes_roundtrip(s[0], s[1]);
            lemma_u16_le_bytes_roundtrip(s[2], s[3]);
            assert(r.spec_encode() =~= s);
        }
    }
}

impl Default for ConnectionIntervalRange {
    fn default() -> (r: ConnectionIntervalRange)
        ensures
            r.spec_min() == r.spec_max(),
            r.spec_min().spec_value() == 0x0040,
            r.wf(),
    {
        ConnectionIntervalRange { min: ConnectionInterval::default(), max: ConnectionInterval::default() }
    }
}

impl EncodeToBuffer for ConnectionIntervalRange {
    open spec fn spec_encode(&self) -> Seq<u8> {
        self.spec_min().spec_encode() + self.spec_max().spec_encode()
    }

    fn encode(&self, buffer: &mut Vec<u8>) -> (n: usize) {
        let ghost start = buffer@;
        self.min.encode(buffer);
        self.max.encode(buffer);
        assert(buffer@ =~= start + self.spec_encode());
        4
    }

    fn encoded_size(&self) -> (n: usize) {
        4
    }
}

} // verus!
