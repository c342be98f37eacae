//! Advertising parameters.
//!
//! These advertising parameters need to be defined to start advertising.
use vstd::prelude::*;

use crate::bytes::{
    lemma_u16_le_bytes_roundtrip, lemma_u16_le_roundtrip, push_u16_le, read_u16_le,
    spec_u16_from_le, spec_u16_le_bytes,
};
use crate::common::own_address_type::OwnAddressType;
use crate::common::peer_address_type::{
    encode_peer_address, lemma_encode_parse_peer_address, lemma_parse_encode_peer_address,
    parse_peer_address, spec_encode_peer_address, spec_parse_peer_address,
};
use crate::device_address::DeviceAddress;
use crate::encode::EncodeToBuffer;
use crate::error::Error;

verus! {


/// Advertising interval.
///
/// Used for undirected and low duty cycle directed advertising.
///
/// Range: 0x0020 to 0x4000, default 0x0800 (1.28 s), Time = N × 0.625 ms (20 ms to 10.24 s).
///
/// See Core Specification 6.0, Vol.4, Part E, 7.8.5.
#[derive(Debug, Clone, Copy, PartialEq, Eq, Structural, PartialOrd, Ord)]
pub struct AdvertisingInterval {
    value: u16,
}

impl AdvertisingInterval {
    /// The values accepted by `try_new`.
    pub open spec fn spec_is_valid(value: u16) -> bool {
        0x0020 <= value <= 0x4000
    }

    /// The raw value.
    pub closed spec fn spec_value(self) -> u16 {
        self.value
    }

    /// Well-formedness: the raw value is in the valid range.
    pub open spec fn wf(self) -> bool {
        AdvertisingInterval::spec_is_valid(self.spec_value())
    }

    /// The outcome of `try_new`.
    pub closed spec fn spec_try_new(value: u16) -> Result<AdvertisingInterval, Error> {
        if AdvertisingInterval::spec_is_valid(value) {
            Ok(AdvertisingInterval { value })
        } else {
            Err(Error::InvalidAdvertisingInterval(value))
        }
    }

    /// Creates a valid value, checking its range.
    pub fn try_new(value: u16) -> (r: Result<AdvertisingInterval, Error>)
        ensures
            r == AdvertisingInterval::spec_try_new(value),
            r is Ok <==> AdvertisingInterval::spec_is_valid(value),
            r matches Ok(v) ==> v.spec_value() == value && v.wf(),
            r is Err ==> r == Err::<AdvertisingInterval, Error>(Error::InvalidAdvertisingInterval(value)),
    {
        if check_advertising_interval_value(value) {
            Ok(AdvertisingInterval { value })
        } else {
            Err(Error::InvalidAdvertisingInterval(value))
        }
    }

    /// Creates an advertising interval without checking its range (for values checked beforehand).
    pub fn new_unchecked(value: u16) -> (r: AdvertisingInterval)
        ensures
            r.spec_value() == value,
    {
        AdvertisingInterval { value }
    }

    /// The raw value.
    pub fn value(&self) -> (r: u16)
        ensures
            r == self.spec_value(),
    {
        self.value
    }

    /// Values are determined by their raw value.
    pub proof fn lemma_spec_value_injective(a: AdvertisingInterval, b: AdvertisingInterval)
        ensures
            a.spec_value() == b.spec_value() ==> a == b,
    {
    }

    /// The raw value of a value made by `try_new` is the value given.
    pub proof fn lemma_spec_try_new_value(value: u16)
        ensures
            AdvertisingInterval::spec_try_new(value) is Ok <==> AdvertisingInterval::spec_is_valid(value),
            AdvertisingInterval::spec_try_new(value) is Ok ==> (AdvertisingInterval::spec_try_new(value)->Ok_0).spec_value() == value,
            AdvertisingInterval::spec_try_new(value) is Err ==> AdvertisingInterval::spec_try_new(value) == Err::<AdvertisingInterval, Error>(Error::InvalidAdvertisingInterval(value)),
    {
    }

    /// `try_new` of the raw value of a well-formed value gives that value back.
    pub proof fn lemma_try_new_spec_value(self)
        requires
            self.wf(),
        ensures
            AdvertisingInterval::spec_try_new(self.spec_value()) == Ok::<AdvertisingInterval, Error>(self),
    {
    }
}

impl Default for AdvertisingInterval {
    fn default() -> (r: AdvertisingInterval)
        ensures
            r.spec_value() == 0x0800,
            r.wf(),
    {
        AdvertisingInterval { value: 0x0800 }
    }
}

impl TryFrom<u16> for AdvertisingInterval {
    type Error = Error;

    fn try_from(value: u16) -> Result<AdvertisingInterval, Error> {
        AdvertisingInterval::try_new(value)
    }
}

impl vstd::std_specs::convert::TryFromSpecImpl<u16> for AdvertisingInterval {
    open spec fn obeys_try_from_spec() -> bool {
        true
    }

    open spec fn try_from_spec(v: u16) -> Result<AdvertisingInterval, Error> {
        AdvertisingInterval::spec_try_new(v)
    }
}

impl EncodeToBuffer for AdvertisingInterval {
    open spec fn spec_encode(&self) -> Seq<u8> {
        spec_u16_le_bytes(self.spec_value())
    }

    fn encode(&self, buffer: &mut Vec<u8>) -> (n: usize) {
        push_u16_le(buffer, self.value);
        2
    }

    fn encoded_size(&self) -> (n: usize) {
        2
    }
}

/// A range of advertising intervals: the minimum and the maximum advertising interval.
#[derive(Debug, Clone, Copy, PartialEq, Eq, Structural)]
pub struct AdvertisingIntervalRange {
    min: AdvertisingInterval,
    max: AdvertisingInterval,
}

impl AdvertisingIntervalRange {
    /// The minimum advertising interval.
    pub closed spec fn spec_min(self) -> AdvertisingInterval {
        self.min
    }

    /// The maximum advertising interval.
    pub closed spec fn spec_max(self) -> AdvertisingInterval {
        self.max
    }

    /// Well-formedness: both bounds are valid advertising intervals and in order.
    pub open spec fn wf(self) -> bool {
        &&& self.spec_min().wf()
        &&& self.spec_max().wf()
        &&& self.spec_min().spec_value() <= self.spec_max().spec_value()
    }

    /// The outcome of `try_new`: the order is checked first, then the minimum, then the maximum.
    pub open spec fn spec_try_new(min: u16, max: u16) -> Result<AdvertisingIntervalRange, Error> {
        if !(min <= max) {
            Err(Error::InvalidAdvertisingIntervalRange)
        } else if !AdvertisingInterval::spec_is_valid(min) {
            Err(Error::InvalidAdvertisingInterval(min))
        } else if !AdvertisingInterval::spec_is_valid(max) {
            Err(Error::InvalidAdvertisingInterval(max))
        } else {
            Ok(AdvertisingIntervalRange::spec_new(min, max))
        }
    }

    /// The range with the given bounds, whatever their values.
    pub closed spec fn spec_new(min: u16, max: u16) -> AdvertisingIntervalRange {
        AdvertisingIntervalRange {
            min: AdvertisingInterval::spec_try_new(min)->Ok_0,
            max: AdvertisingInterval::spec_try_new(max)->Ok_0,
        }
    }

    /// Creates a valid advertising interval range.
    pub fn try_new(min: u16, max: u16) -> (r: Result<AdvertisingIntervalRange, Error>)
        ensures
            r == AdvertisingIntervalRange::spec_try_new(min, max),
            r matches Ok(v) ==> v.spec_min().spec_value() == min && v.spec_max().spec_value() == max
                && v.wf(),
    {
        if check_advertising_range_order(min, max) {
            let min_interval = match AdvertisingInterval::try_new(min) {
                Ok(v) => v,
                Err(e) => return Err(e),
            };
            let max_interval = match AdvertisingInterval::try_new(max) {
                Ok(v) => v,
                Err(e) => return Err(e),
            };
            let r = AdvertisingIntervalRange { min: min_interval, max: max_interval };
            assert(r == AdvertisingIntervalRange::spec_new(min, max));
            Ok(r)
        } else {
            Err(Error::InvalidAdvertisingIntervalRange)
        }
    }

    /// Creates an advertising interval range without checking its bounds (for values checked
    /// beforehand).
    pub fn new_unchecked(min: u16, max: u16) -> (r: AdvertisingIntervalRange)
        ensures
            r.spec_min().spec_value() == min,
            r.spec_max().spec_value() == max,
    {
        AdvertisingIntervalRange {
            min: AdvertisingInterval::new_unchecked(min),
            max: AdvertisingInterval::new_unchecked(max),
        }
    }

    /// Creates the range of two advertising intervals, whatever their values.
    pub fn from_intervals(min: AdvertisingInterval, max: AdvertisingInterval) -> (r:
        AdvertisingIntervalRange)
        ensures
            r.spec_min() == min,
            r.spec_max() == max,
    {
        AdvertisingIntervalRange { min, max }
    }

    /// The minimum advertising interval.
    pub fn min(&self) -> (r: AdvertisingInterval)
        ensures
            r == self.spec_min(),
    {
        self.min
    }

    /// The maximum advertising interval.
    pub fn max(&self) -> (r: AdvertisingInterval)
        ensures
            r == self.spec_max(),
    {
        self.max
    }

    /// Ranges are determined by their bounds.
    pub proof fn lemma_bounds_injective(a: AdvertisingIntervalRange, b: AdvertisingIntervalRange)
        ensures
            a.spec_min() == b.spec_min() && a.spec_max() == b.spec_max() ==> a == b,
    {
    }
}

impl Default for AdvertisingIntervalRange {
    fn default() -> (r: AdvertisingIntervalRange)
        ensures
            r.spec_min().spec_value() == 0x0800,
            r.spec_max().spec_value() == 0x0800,
            r.wf(),
    {
        AdvertisingIntervalRange {
            min: AdvertisingInterval::default(),
            max: AdvertisingInterval::default(),
        }
    }
}

impl EncodeToBuffer for AdvertisingIntervalRange {
    open spec fn spec_encode(&self) -> Seq<u8> {
        self.spec_min().spec_encode() + self.spec_max().spec_encode()
    }

    fn encode(&self, buffer: &mut Vec<u8>) -> (n: usize) {
        let ghost start = buffer@;
        self.min.encode(buffer);
        self.max.encode(buffer);
        assert(buffer@ =~= start + self.spec_encode());
        4
    }

    fn encoded_size(&self) -> (n: usize) {
        4
    }
}

/// Marker of a valid advertising interval value, for checks made at compile time.
pub trait AdvertisingIntervalValueValid {

}

/// Carries the outcome of an advertising interval value check made at compile time.
pub struct AdvertisingIntervalValueIsValid<const VALID: bool>;

impl AdvertisingIntervalValueValid for AdvertisingIntervalValueIsValid<true> {

}

/// Compiles only where its type argument marks a valid advertising interval value.
pub fn advertising_interval_value_is_valid<T: AdvertisingIntervalValueValid>() {
}

/// Whether `value` is a valid advertising interval value (0x0020 to 0x4000).
pub fn check_advertising_interval_value(value: u16) -> (r: bool)
    ensures
        r == AdvertisingInterval::spec_is_valid(value),
{
    (value >= 0x0020) && (value <= 0x4000)
}

/// Marker of advertising interval range bounds in order, for checks made at compile time.
pub trait AdvertisingIntervalRangeOrderValid {

}

/// Carries the outcome of an advertising interval range order check made at compile time.
pub struct AdvertisingIntervalRangeOrderIsValid<const VALID: bool>;

impl AdvertisingIntervalRangeOrderValid for AdvertisingIntervalRangeOrderIsValid<true> {

}

/// Compiles only where its type argument marks advertising interval range bounds in order.
pub fn advertising_interval_range_order_is_valid<T: AdvertisingIntervalRangeOrderValid>() {
}

/// Whether the bounds of an advertising interval range are in order.
pub fn check_advertising_range_order(min: u16, max: u16) -> (r: bool)
    ensures
        r == (min <= max),
{
    min <= max
}

/// Advertising type.
///
/// See Core Specification 6.0, Vol.4, Part E, 7.8.5.
#[derive(Debug, Clone, Copy, PartialEq, Eq, Structural)]
#[non_exhaustive]
pub enum AdvertisingType {
    /// Connectable and scannable undirected advertising (`ADV_IND`) (default).
    ConnectableUndirected,
    /// Connectable high duty cycle directed advertising (`ADV_DIRECT_IND`, high duty cycle).
    ConnectableHighDutyCycleDirected,
    /// Scannable undirected advertising (`ADV_SCAN_IND`).
    ScannableUndirected,
    /// Non connectable undirected advertising (`ADV_NONCONN_IND`).
    NonConnectableUndirected,
    /// Connectable low duty cycle directed advertising (`ADV_DIRECT_IND`, low duty cycle).
    ConnectableLowDutyCycleDirected,
}

impl AdvertisingType {
    /// The value of this variant in HCI packets.
    pub open spec fn spec_to_u8(self) -> u8 {
        match self {
            AdvertisingType::ConnectableUndirected => 0x00,
            AdvertisingType::ConnectableHighDutyCycleDirected => 0x01,
            AdvertisingType::ScannableUndirected => 0x02,
            AdvertisingType::NonConnectableUndirected => 0x03,
            AdvertisingType::ConnectableLowDutyCycleDirected => 0x04,
        }
    }

    /// The values that name a variant.
    pub open spec fn spec_is_valid_u8(v: u8) -> bool {
        v <= 0x04
    }

    /// The variant named by `v`, or the error reporting that `v` names none.
    pub open spec fn spec_try_from_u8(v: u8) -> Result<AdvertisingType, Error> {
        if AdvertisingType::spec_is_valid_u8(v) {
            Ok(choose|e: AdvertisingType| e.spec_to_u8() == v)
        } else {
            Err(Error::InvalidAdvertisingType(v))
        }
    }

    /// The value of this variant in HCI packets.
    pub fn to_u8(self) -> (r: u8)
        ensures
            r == self.spec_to_u8(),
    {
        match self {
            AdvertisingType::ConnectableUndirected => 0x00,
            AdvertisingType::ConnectableHighDutyCycleDirected => 0x01,
            AdvertisingType::ScannableUndirected => 0x02,
            AdvertisingType::NonConnectableUndirected => 0x03,
            AdvertisingType::ConnectableLowDutyCycleDirected => 0x04,
        }
    }

    /// Converts a value of an HCI packet into a variant.
    pub fn try_from_u8(v: u8) -> (r: Result<AdvertisingType, Error>)
        ensures
            r == AdvertisingType::spec_try_from_u8(v),
            r is Ok <==> AdvertisingType::spec_is_valid_u8(v),
            r matches Ok(e) ==> e.spec_to_u8() == v,
            r is Err ==> r == Err::<AdvertisingType, Error>(Error::InvalidAdvertisingType(v)),
    {
        let r = match v {
            0x00 => Ok(AdvertisingType::ConnectableUndirected),
            0x01 => Ok(AdvertisingType::ConnectableHighDutyCycleDirected),
            0x02 => Ok(AdvertisingType::ScannableUndirected),
            0x03 => Ok(AdvertisingType::NonConnectableUndirected),
            0x04 => Ok(AdvertisingType::ConnectableLowDutyCycleDirected),
            _ => Err(Error::InvalidAdvertisingType(v)),
        };
        proof {
            if let Ok(e) = r {
                AdvertisingType::lemma_to_u8_injective(e, choose|d: AdvertisingType| d.spec_to_u8() == v);
            }
        }
        r
    }

    /// Distinct variants have distinct values.
    pub proof fn lemma_to_u8_injective(a: AdvertisingType, b: AdvertisingType)
        ensures
            a.spec_to_u8() == b.spec_to_u8() ==> a == b,
    {
    }

    /// A value that names a variant names a variant with that value.
    pub proof fn lemma_try_from_u8_to_u8(v: u8)
        requires
            AdvertisingType::spec_is_valid_u8(v),
        ensures
            AdvertisingType::spec_try_from_u8(v) is Ok,
            (AdvertisingType::spec_try_from_u8(v)->Ok_0).spec_to_u8() == v,
    {
        if v == 0x00 {
            assert(AdvertisingType::ConnectableUndirected.spec_to_u8() == v);
        } else if v == 0x01 {
            assert(AdvertisingType::ConnectableHighDutyCycleDirected.spec_to_u8() == v);
        } else if v == 0x02 {
            assert(AdvertisingType::ScannableUndirected.spec_to_u8() == v);
        } else if v == 0x03 {
            assert(AdvertisingType::NonConnectableUndirected.spec_to_u8() == v);
        } else if v == 0x04 {
            assert(AdvertisingType::ConnectableLowDutyCycleDirected.spec_to_u8() == v);
        }
    }

    /// Converting the value of a variant gives the variant back.
    pub proof fn lemma_try_from_to_u8(self)
        ensures
            AdvertisingType::spec_try_from_u8(self.spec_to_u8()) == Ok::<AdvertisingType, Error>(self),
    {
        AdvertisingType::lemma_to_u8_injective(self, choose|d: AdvertisingType| d.spec_to_u8() == self.spec_to_u8());
    }
}

impl Default for AdvertisingType {
    fn default() -> (r: AdvertisingType)
        ensures
            r == AdvertisingType::ConnectableUndirected,
    {
        AdvertisingType::ConnectableUndirected
    }
}

impl TryFrom<u8> for AdvertisingType {
    type Error = Error;

    fn try_from(value: u8) -> Result<AdvertisingType, Error> {
        AdvertisingType::try_from_u8(value)
    }
}

impl vstd::std_specs::convert::TryFromSpecImpl<u8> for AdvertisingType {
    open spec fn obeys_try_from_spec() -> bool {
        true
    }

    open spec fn try_from_spec(v: u8) -> Result<AdvertisingType, Error> {
        AdvertisingType::spec_try_from_u8(v)
    }
}

impl From<AdvertisingType> for u8 {
    fn from(value: AdvertisingType) -> u8 {
        value.to_u8()
    }
}

impl vstd::std_specs::convert::FromSpecImpl<AdvertisingType> for u8 {
    open spec fn obeys_from_spec() -> bool {
        true
    }

    open spec fn from_spec(v: AdvertisingType) -> u8 {
        v.spec_to_u8()
    }
}

impl EncodeToBuffer for AdvertisingType {
    open spec fn spec_encode(&self) -> Seq<u8> {
        seq![self.spec_to_u8()]
    }

    fn encode(&self, buffer: &mut Vec<u8>) -> (n: usize) {
        buffer.push(self.to_u8());
        1
    }

    fn encoded_size(&self) -> (n: usize) {
        1
    }
}

/// Channel map of the channels to use for advertising.
///
/// Defaults to all the 3 channels (37, 38 & 39).
///
/// See Core Specification 6.0, Vol.4, Part E, 7.8.5.
#[derive(Debug, Clone, Copy, PartialEq, Eq, Structural)]
pub struct AdvertisingChannelMap {
    bits: u8,
}

impl AdvertisingChannelMap {
    /// Channel 37 shall be used.
    pub fn channel37() -> (r: AdvertisingChannelMap)
        ensures
            r.spec_bits() == 0x01,
    {
        AdvertisingChannelMap { bits: 0x01 }
    }

    /// Channel 38 shall be used.
    pub fn channel38() -> (r: AdvertisingChannelMap)
        ensures
            r.spec_bits() == 0x02,
    {
        AdvertisingChannelMap { bits: 0x02 }
    }

    /// Channel 39 shall be used.
    pub fn channel39() -> (r: AdvertisingChannelMap)
        ensures
            r.spec_bits() == 0x04,
    {
        AdvertisingChannelMap { bits: 0x04 }
    }

    /// The bits of the map.
    pub closed spec fn spec_bits(self) -> u8 {
        self.bits
    }

    /// Well-formedness: only the bits of the three channels may be set.
    pub open spec fn wf(self) -> bool {
        self.spec_bits() & 0xF8u8 == 0
    }

    /// The map holding the known bits of `bits`.
    pub closed spec fn spec_from_bits_truncate(bits: u8) -> AdvertisingChannelMap {
        AdvertisingChannelMap { bits: bits & 0x07 }
    }

    /// Creates the default channel map, with all the channels.
    pub fn new() -> (r: AdvertisingChannelMap)
        ensures
            r.spec_bits() == 0x07,
    {
        AdvertisingChannelMap::all()
    }

    /// The map with no channel.
    pub fn empty() -> (r: AdvertisingChannelMap)
        ensures
            r.spec_bits() == 0,
    {
        AdvertisingChannelMap { bits: 0 }
    }

    /// The map with all the channels.
    pub fn all() -> (r: AdvertisingChannelMap)
        ensures
            r.spec_bits() == 0x07,
    {
        AdvertisingChannelMap { bits: 0x07 }
    }

    /// The bits of the map.
    pub fn bits(&self) -> (r: u8)
        ensures
            r == self.spec_bits(),
    {
        self.bits
    }

    /// The map of the known bits of `bits`, the others dropped.
    pub fn from_bits_truncate(bits: u8) -> (r: AdvertisingChannelMap)
        ensures
            r == AdvertisingChannelMap::spec_from_bits_truncate(bits),
            r.spec_bits() == bits & 0x07,
            r.wf(),
    {
        proof {
            assert((bits & 0x07u8) & 0xF8u8 == 0) by (bit_vector);
        }
        AdvertisingChannelMap { bits: bits & 0x07 }
    }

    /// The map of `bits`, or `None` where an unknown bit is set.
    pub fn from_bits(bits: u8) -> (r: Option<AdvertisingChannelMap>)
        ensures
            r is Some <==> bits & 0xF8u8 == 0,
            r matches Some(m) ==> m.spec_bits() == bits,
    {
        if bits & 0xF8 == 0 {
            Some(AdvertisingChannelMap { bits })
        } else {
            None
        }
    }

    /// Whether no channel is set.
    pub fn is_empty(&self) -> (r: bool)
        ensures
            r == (self.spec_bits() == 0),
    {
        self.bits == 0
    }

    /// Whether all the channels are set.
    pub fn is_all(&self) -> (r: bool)
        ensures
            r == (self.spec_bits() & 0x07u8 == 0x07),
    {
        self.bits & 0x07 == 0x07
    }

    /// Whether every channel of `other` is set in this map.
    pub fn contains(&self, other: AdvertisingChannelMap) -> (r: bool)
        ensures
            r == (self.spec_bits() & other.spec_bits() == other.spec_bits()),
    {
        self.bits & other.bits == other.bits
    }

    /// The map of the channels set in either map.
    pub closed spec fn spec_union(a: AdvertisingChannelMap, b: AdvertisingChannelMap) -> AdvertisingChannelMap {
        AdvertisingChannelMap { bits: a.bits | b.bits }
    }

    /// The map of the channels set in either map.
    pub fn union(self, other: AdvertisingChannelMap) -> (r: AdvertisingChannelMap)
        ensures
            r == AdvertisingChannelMap::spec_union(self, other),
            r.spec_bits() == self.spec_bits() | other.spec_bits(),
    {
        AdvertisingChannelMap { bits: self.bits | other.bits }
    }

    /// Sets the channels of `other`.
    pub fn insert(&mut self, other: AdvertisingChannelMap)
        ensures
            final(self).spec_bits() == old(self).spec_bits() | other.spec_bits(),
    {
        self.bits = self.bits | other.bits;
    }

    /// Clears the channels of `other`.
    pub fn remove(&mut self, other: AdvertisingChannelMap)
        ensures
            final(self).spec_bits() == old(self).spec_bits() & !other.spec_bits(),
    {
        self.bits = self.bits & !other.bits;
    }

    /// Truncating the bits of a well-formed map gives it back.
    pub proof fn lemma_from_bits_truncate_bits(self)
        requires
            self.wf(),
        ensures
            AdvertisingChannelMap::spec_from_bits_truncate(self.spec_bits()) == self,
    {
        let b = self.bits;
        assert(b & 0xF8u8 == 0 ==> b & 0x07u8 == b) by (bit_vector);
    }
}

impl Default for AdvertisingChannelMap {
    fn default() -> (r: AdvertisingChannelMap)
        ensures
            r.spec_bits() == 0x07,
            r.wf(),
    {
        assert(0x07u8 & 0xF8u8 == 0) by (bit_vector);
        AdvertisingChannelMap::all()
    }
}

impl core::ops::BitOr for AdvertisingChannelMap {
    type Output = AdvertisingChannelMap;

    fn bitor(self, rhs: AdvertisingChannelMap) -> AdvertisingChannelMap {
        self.union(rhs)
    }
}

impl vstd::std_specs::ops::BitOrSpecImpl for AdvertisingChannelMap {
    open spec fn obeys_bitor_spec() -> bool {
        true
    }

    open spec fn bitor_req(self, rhs: AdvertisingChannelMap) -> bool {
        true
    }

    open spec fn bitor_spec(self, rhs: AdvertisingChannelMap) -> AdvertisingChannelMap {
        AdvertisingChannelMap::spec_union(self, rhs)
    }
}

impl EncodeToBuffer for AdvertisingChannelMap {
    open spec fn spec_encode(&self) -> Seq<u8> {
        seq![self.spec_bits()]
    }

    fn encode(&self, buffer: &mut Vec<u8>) -> (n: usize) {
        buffer.push(self.bits);
        1
    }

    fn encoded_size(&self) -> (n: usize) {
        1
    }
}

/// Advertising Filter Policy.
///
/// See Core Specification 6.0, Vol.4, Part E, 7.8.5.
#[derive(Debug, Clone, Copy, PartialEq, Eq, Structural)]
#[non_exhaustive]
pub enum AdvertisingFilterPolicy {
    /// Process scan and connection requests from all devices (the Filter Accept List is not in use) (default).
    ScanAllAndConnectionAll,
    /// Process connection requests from all devices and scan requests only from devices in the Filter Accept List.
    ConnectionAllAndScanFilterAcceptList,
    /// Process scan requests from all devices and connection requests only from devices in the Filter Accept List.
    ScanAllAndConnectionFilterAcceptList,
    /// Process scan and connection requests only from devices in the Filter Accept List.
    ScanFilterAcceptListAndConnectionFilterAcceptList,
}

impl AdvertisingFilterPolicy {
    /// The value of this variant in HCI packets.
    pub open spec fn spec_to_u8(self) -> u8 {
        match self {
            AdvertisingFilterPolicy::ScanAllAndConnectionAll => 0x00,
            AdvertisingFilterPolicy::ConnectionAllAndScanFilterAcceptList => 0x01,
            AdvertisingFilterPolicy::ScanAllAndConnectionFilterAcceptList => 0x02,
            AdvertisingFilterPolicy::ScanFilterAcceptListAndConnectionFilterAcceptList => 0x03,
        }
    }

    /// The values that name a variant.
    pub open spec fn spec_is_valid_u8(v: u8) -> bool {
        v <= 0x03
    }

    /// The variant named by `v`, or the error reporting that `v` names none.
    pub open spec fn spec_try_from_u8(v: u8) -> Result<AdvertisingFilterPolicy, Error> {
        if AdvertisingFilterPolicy::spec_is_valid_u8(v) {
            Ok(choose|e: AdvertisingFilterPolicy| e.spec_to_u8() == v)
        } else {
            Err(Error::InvalidAdvertisingFilterPolicy(v))
        }
    }

    /// The value of this variant in HCI packets.
    pub fn to_u8(self) -> (r: u8)
        ensures
            r == self.spec_to_u8(),
    {
        match self {
            AdvertisingFilterPolicy::ScanAllAndConnectionAll => 0x00,
            AdvertisingFilterPolicy::ConnectionAllAndScanFilterAcceptList => 0x01,
            AdvertisingFilterPolicy::ScanAllAndConnectionFilterAcceptList => 0x02,
            AdvertisingFilterPolicy::ScanFilterAcceptListAndConnectionFilterAcceptList => 0x03,
        }
    }

    /// Converts a value of an HCI packet into a variant.
    pub fn try_from_u8(v: u8) -> (r: Result<AdvertisingFilterPolicy, Error>)
        ensures
            r == AdvertisingFilterPolicy::spec_try_from_u8(v),
            r is Ok <==> AdvertisingFilterPolicy::spec_is_valid_u8(v),
            r matches Ok(e) ==> e.spec_to_u8() == v,
            r is Err ==> r == Err::<AdvertisingFilterPolicy, Error>(Error::InvalidAdvertisingFilterPolicy(v)),
    {
        let r = match v {
            0x00 => Ok(AdvertisingFilterPolicy::ScanAllAndConnectionAll),
            0x01 => Ok(AdvertisingFilterPolicy::ConnectionAllAndScanFilterAcceptList),
            0x02 => Ok(AdvertisingFilterPolicy::ScanAllAndConnectionFilterAcceptList),
            0x03 => Ok(AdvertisingFilterPolicy::ScanFilterAcceptListAndConnectionFilterAcceptList),
            _ => Err(Error::InvalidAdvertisingFilterPolicy(v)),
        };
        proof {
            if let Ok(e) = r {
                AdvertisingFilterPolicy::lemma_to_u8_injective(e, choose|d: AdvertisingFilterPolicy| d.spec_to_u8() == v);
            }
        }
        r
    }

    /// Distinct variants have distinct values.
    pub proof fn lemma_to_u8_injective(a: AdvertisingFilterPolicy, b: AdvertisingFilterPolicy)
        ensures
            a.spec_to_u8() == b.spec_to_u8() ==> a == b,
    {
    }

    /// A value that names a variant names a variant with that value.
    pub proof fn lemma_try_from_u8_to_u8(v: u8)
        requires
            AdvertisingFilterPolicy::spec_is_valid_u8(v),
        ensures
            AdvertisingFilterPolicy::spec_try_from_u8(v) is Ok,
            (AdvertisingFilterPolicy::spec_try_from_u8(v)->Ok_0).spec_to_u8() == v,
    {
        if v == 0x00 {
            assert(AdvertisingFilterPolicy::ScanAllAndConnectionAll.spec_to_u8() == v);
        } else if v == 0x01 {
            assert(AdvertisingFilterPolicy::ConnectionAllAndScanFilterAcceptList.spec_to_u8() == v);
        } else if v == 0x02 {
            assert(AdvertisingFilterPolicy::ScanAllAndConnectionFilterAcceptList.spec_to_u8() == v);
        } else if v == 0x03 {
            assert(AdvertisingFilterPolicy::ScanFilterAcceptListAndConnectionFilterAcceptList.spec_to_u8() == v);
        }
    }

    /// Converting the value of a variant gives the variant back.
    pub proof fn lemma_try_from_to_u8(self)
        ensures
            AdvertisingFilterPolicy::spec_try_from_u8(self.spec_to_u8()) == Ok::<AdvertisingFilterPolicy, Error>(self),
    {
        AdvertisingFilterPolicy::lemma_to_u8_injective(self, choose|d: AdvertisingFilterPolicy| d.spec_to_u8() == self.spec_to_u8());
    }
}

impl Default for AdvertisingFilterPolicy {
    fn default() -> (r: AdvertisingFilterPolicy)
        ensures
            r == AdvertisingFilterPolicy::ScanAllAndConnectionAll,
    {
        AdvertisingFilterPolicy::ScanAllAndConnectionAll
    }
}

impl TryFrom<u8> for AdvertisingFilterPolicy {
    type Error = Error;

    fn try_from(value: u8) -> Result<AdvertisingFilterPolicy, Error> {
        AdvertisingFilterPolicy::try_from_u8(value)
    }
}

impl vstd::std_specs::convert::TryFromSpecImpl<u8> for AdvertisingFilterPolicy {
    open spec fn obeys_try_from_spec() -> bool {
        true
    }

    open spec fn try_from_spec(v: u8) -> Result<AdvertisingFilterPolicy, Error> {
        AdvertisingFilterPolicy::spec_try_from_u8(v)
    }
}

impl From<AdvertisingFilterPolicy> for u8 {
    fn from(value: AdvertisingFilterPolicy) -> u8 {
        value.to_u8()
    }
}

impl vstd::std_specs::convert::FromSpecImpl<AdvertisingFilterPolicy> for u8 {
    open spec fn obeys_from_spec() -> bool {
        true
    }

    open spec fn from_spec(v: AdvertisingFilterPolicy) -> u8 {
        v.spec_to_u8()
    }
}

impl EncodeToBuffer for AdvertisingFilterPolicy {
    open spec fn spec_encode(&self) -> Seq<u8> {
        seq![self.spec_to_u8()]
    }

    fn encode(&self, buffer: &mut Vec<u8>) -> (n: usize) {
        buffer.push(self.to_u8());
        1
    }

    fn encoded_size(&self) -> (n: usize) {
        1
    }
}

/// Advertising parameters to be set before starting advertising: the advertising interval, the
/// advertising type, our own address type, the peer address (and so its type), the advertising
/// channel map and the advertising filter policy.
///
/// See Core Specification 6.0, Vol.4, Part E, 7.8.5.
#[derive(Debug, Clone, Copy, PartialEq, Eq)]
pub struct AdvertisingParameters {
    interval: AdvertisingIntervalRange,
    advertising_type: AdvertisingType,
    own_address_type: OwnAddressType,
    peer_address: DeviceAddress,
    channel_map: AdvertisingChannelMap,
    filter_policy: AdvertisingFilterPolicy,
}

impl AdvertisingParameters {
    /// The advertising interval range.
    pub closed spec fn spec_interval(self) -> AdvertisingIntervalRange {
        self.interval
    }

    /// The advertising type.
    pub closed spec fn spec_advertising_type(self) -> AdvertisingType {
        self.advertising_type
    }

    /// Our own address type.
    pub closed spec fn spec_own_address_type(self) -> OwnAddressType {
        self.own_address_type
    }

    /// The peer address.
    pub closed spec fn spec_peer_address(self) -> DeviceAddress {
        self.peer_address
    }

    /// The advertising channel map.
    pub closed spec fn spec_channel_map(self) -> AdvertisingChannelMap {
        self.channel_map
    }

    /// The advertising filter policy.
    pub closed spec fn spec_filter_policy(self) -> AdvertisingFilterPolicy {
        self.filter_policy
    }

    /// The parameters with the given fields.
    pub closed spec fn spec_new(
        interval: AdvertisingIntervalRange,
        advertising_type: AdvertisingType,
        own_address_type: OwnAddressType,
        peer_address: DeviceAddress,
        channel_map: AdvertisingChannelMap,
        filter_policy: AdvertisingFilterPolicy,
    ) -> AdvertisingParameters {
        AdvertisingParameters {
            interval,
            advertising_type,
            own_address_type,
            peer_address,
            channel_map,
            filter_policy,
        }
    }

    /// Well-formedness: each field holds a value that its encoding can carry: valid interval
    /// bounds, a well-formed peer address and only known channel bits.
    pub open spec fn wf(self) -> bool {
        &&& self.spec_interval().spec_min().wf()
        &&& self.spec_interval().spec_max().wf()
        &&& self.spec_peer_address().wf()
        &&& self.spec_channel_map().wf()
    }

    /// The outcome of `try_new`: an empty channel map is refused.
    pub open spec fn spec_try_new(
        interval: AdvertisingIntervalRange,
        advertising_type: AdvertisingType,
        own_address_type: OwnAddressType,
        peer_address: DeviceAddress,
        channel_map: AdvertisingChannelMap,
        filter_policy: AdvertisingFilterPolicy,
    ) -> Result<AdvertisingParameters, Error> {
        if channel_map.spec_bits() == 0 {
            Err(Error::AtLeastOneChannelMustBeEnabledInTheAdvertisingChannelMap)
        } else {
            Ok(
                AdvertisingParameters::spec_new(
                    interval,
                    advertising_type,
                    own_address_type,
                    peer_address,
                    channel_map,
                    filter_policy,
                ),
            )
        }
    }

    /// Creates advertising parameters, checking that at least one channel is enabled.
    pub fn try_new(
        interval: AdvertisingIntervalRange,
        advertising_type: AdvertisingType,
        own_address_type: OwnAddressType,
        peer_address: DeviceAddress,
        channel_map: AdvertisingChannelMap,
        filter_policy: AdvertisingFilterPolicy,
    ) -> (r: Result<AdvertisingParameters, Error>)
        ensures
            r == AdvertisingParameters::spec_try_new(
                interval,
                advertising_type,
                own_address_type,
                peer_address,
                channel_map,
                filter_policy,
            ),
            r matches Ok(p) ==> {
                &&& p.spec_interval() == interval
                &&& p.spec_advertising_type() == advertising_type
                &&& p.spec_own_address_type() == own_address_type
                &&& p.spec_peer_address() == peer_address
                &&& p.spec_channel_map() == channel_map
                &&& p.spec_filter_policy() == filter_policy
            },
    {
        if channel_map.is_empty() {
            Err(Error::AtLeastOneChannelMustBeEnabledInTheAdvertisingChannelMap)
        } else {
            Ok(
                AdvertisingParameters {
                    interval,
                    advertising_type,
                    own_address_type,
                    peer_address,
                    channel_map,
                    filter_policy,
                },
            )
        }
    }

    /// The advertising channel map.
    pub fn channel_map(&self) -> (r: AdvertisingChannelMap)
        ensures
            r == self.spec_channel_map(),
    {
        self.channel_map
    }

    /// The advertising filter policy.
    pub fn filter_policy(&self) -> (r: AdvertisingFilterPolicy)
        ensures
            r == self.spec_filter_policy(),
    {
        self.filter_policy
    }

    /// The advertising interval range.
    pub fn interval(&self) -> (r: AdvertisingIntervalRange)
        ensures
            r == self.spec_interval(),
    {
        self.interval
    }

    /// Our own address type.
    pub fn own_address_type(&self) -> (r: OwnAddressType)
        ensures
            r == self.spec_own_address_type(),
    {
        self.own_address_type
    }

    /// The peer address.
    pub fn peer_address(&self) -> (r: &DeviceAddress)
        ensures
            *r == self.spec_peer_address(),
    {
        &self.peer_address
    }

    /// The advertising type.
    pub fn advertising_type(&self) -> (r: AdvertisingType)
        ensures
            r == self.spec_advertising_type(),
    {
        self.advertising_type
    }

    /// The outcome of parsing the parameters of an LE Set Advertising Parameters command: exactly
    /// fifteen bytes, two valid advertising intervals (in any order), valid advertising type, own
    /// address type, peer address and filter policy; unknown channel bits are dropped.
    pub open spec fn spec_parse(s: Seq<u8>) -> Option<AdvertisingParameters> {
        let min = AdvertisingInterval::spec_try_new(spec_u16_from_le(s[0], s[1]));
        let max = AdvertisingInterval::spec_try_new(spec_u16_from_le(s[2], s[3]));
        let t = AdvertisingType::spec_try_from_u8(s[4]);
        let o = OwnAddressType::spec_try_from_u8(s[5]);
        let peer = spec_parse_peer_address(s.subrange(6, 13));
        let f = AdvertisingFilterPolicy::spec_try_from_u8(s[14]);
        if s.len() == 15 && min is Ok && max is Ok && t is Ok && o is Ok && peer is Some && f is Ok {
            Some(
                AdvertisingParameters::spec_new(
                    AdvertisingIntervalRange::spec_new(
                        spec_u16_from_le(s[0], s[1]),
                        spec_u16_from_le(s[2], s[3]),
                    ),
                    t->Ok_0,
                    o->Ok_0,
                    peer->Some_0,
                    AdvertisingChannelMap::spec_from_bits_truncate(s[13]),
                    f->Ok_0,
                ),
            )
        } else {
            None
        }
    }

    /// Parses the parameters of an LE Set Advertising Parameters command.
    pub fn parse(input: &[u8]) -> (r: Option<AdvertisingParameters>)
        ensures
            r == AdvertisingParameters::spec_parse(input@),
    {
        if input.len() != 15 {
            return None;
        }
        let min = match AdvertisingInterval::try_new(read_u16_le(input, 0)) {
            Ok(v) => v,
            Err(_) => return None,
        };
        let max = match AdvertisingInterval::try_new(read_u16_le(input, 2)) {
            Ok(v) => v,
            Err(_) => return None,
        };
        let t = match AdvertisingType::try_from_u8(input[4]) {
            Ok(v) => v,
            Err(_) => return None,
        };
        let o = match OwnAddressType::try_from_u8(input[5]) {
            Ok(v) => v,
            Err(_) => return None,
        };
        let peer = match parse_peer_address(input, 6) {
            Some(v) => v,
            None => return None,
        };
        let channel_map = AdvertisingChannelMap::from_bits_truncate(input[13]);
        let f = match AdvertisingFilterPolicy::try_from_u8(input[14]) {
            Ok(v) => v,
            Err(_) => return None,
        };
        let interval = AdvertisingIntervalRange::from_intervals(min, max);
        assert(interval == AdvertisingIntervalRange::spec_new(
            spec_u16_from_le(input@[0], input@[1]),
            spec_u16_from_le(input@[2], input@[3]),
        ));
        Some(
            AdvertisingParameters {
                interval,
                advertising_type: t,
                own_address_type: o,
                peer_address: peer,
                channel_map,
                filter_policy: f,
            },
        )
    }

    /// Parsing the encoding of well-formed advertising parameters gives them back.
    pub proof fn lemma_parse_encode(self)
        requires
            self.wf(),
        ensures
            AdvertisingParameters::spec_parse(self.spec_encode()) == Some(self),
    {
        let s = self.spec_encode();
        let min = self.interval.min;
        let max = self.interval.max;
        lemma_u16_le_roundtrip(min.spec_value());
        lemma_u16_le_roundtrip(max.spec_value());
        min.lemma_try_new_spec_value();
        max.lemma_try_new_spec_value();
        self.advertising_type.lemma_try_from_to_u8();
        self.own_address_type.lemma_try_from_to_u8();
        self.filter_policy.lemma_try_from_to_u8();
        self.channel_map.lemma_from_bits_truncate_bits();
        lemma_parse_encode_peer_address(self.peer_address);
        assert(s.subrange(6, 13) =~= spec_encode_peer_address(self.peer_address));
        assert(s[0] == spec_u16_le_bytes(min.spec_value())[0]);
        assert(s[1] == spec_u16_le_bytes(min.spec_value())[1]);
        assert(s[2] == spec_u16_le_bytes(max.spec_value())[0]);
        assert(s[3] == spec_u16_le_bytes(max.spec_value())[1]);
        AdvertisingIntervalRange::lemma_bounds_injective(
            self.interval,
            AdvertisingIntervalRange::spec_new(min.spec_value(), max.spec_value()),
        );
    }

    /// Parameters parsed from bytes whose channel map byte holds only known channel bits are
    /// well-formed and encode to those bytes.
    pub proof fn lemma_encode_parse(s: Seq<u8>)
        requires
            s.len() == 15 ==> s[13] & 0xF8u8 == 0,
        ensures
            AdvertisingParameters::spec_parse(s) matches Some(p) ==> p.wf() && p.spec_encode() == s,
    {
        if let Some(p) = AdvertisingParameters::spec_parse(s) {
            let c = s[13];
            assert(c & 0xF8u8 == 0 ==> c & 0x07u8 == c) by (bit_vector);
            assert((c & 0x07u8) & 0xF8u8 == 0) by (bit_vector);
            AdvertisingInterval::lemma_spec_try_new_value(spec_u16_from_le(s[0], s[1]));
            AdvertisingInterval::lemma_spec_try_new_value(spec_u16_from_le(s[2], s[3]));
            lemma_u16_le_bytes_roundtrip(s[0], s[1]);
            lemma_u16_le_bytes_roundtrip(s[2], s[3]);
            AdvertisingType::lemma_try_from_u8_to_u8(s[4]);
            OwnAddressType::lemma_try_from_u8_to_u8(s[5]);
            AdvertisingFilterPolicy::lemma_try_from_u8_to_u8(s[14]);
            lemma_encode_parse_peer_address(s.subrange(6, 13));
            assert(p.spec_encode() =~= s);
        }
    }
}

impl Default for AdvertisingParameters {
    fn default() -> (r: AdvertisingParameters)
        ensures
            r.spec_interval().spec_min().spec_value() == 0x0800,
            r.spec_interval().spec_max().spec_value() == 0x0800,
            r.spec_advertising_type() == AdvertisingType::ConnectableUndirected,
            r.spec_own_address_type() == OwnAddressType::PublicDeviceAddress,
            r.spec_peer_address() is Public,
            r.spec_peer_address().spec_value() == seq![0u8, 0u8, 0u8, 0u8, 0u8, 0u8],
            r.spec_channel_map().spec_bits() == 0x07,
            r.spec_filter_policy() == AdvertisingFilterPolicy::ScanAllAndConnectionAll,
            r.wf(),
    {
        AdvertisingParameters {
            interval: AdvertisingIntervalRange::default(),
            advertising_type: AdvertisingType::default(),
            own_address_type: OwnAddressType::default(),
            peer_address: DeviceAddress::default(),
            channel_map: AdvertisingChannelMap::default(),
            filter_policy: AdvertisingFilterPolicy::default(),
        }
    }
}

impl EncodeToBuffer for AdvertisingParameters {
    open spec fn spec_encode(&self) -> Seq<u8> {
        self.spec_interval().spec_encode() + seq![self.spec_advertising_type().spec_to_u8()]
            + seq![self.spec_own_address_type().spec_to_u8()] + spec_encode_peer_address(
            self.spec_peer_address(),
        ) + seq![self.spec_channel_map().spec_bits()] + seq![
            self.spec_filter_policy().spec_to_u8(),
        ]
    }

    fn encode(&self, buffer: &mut Vec<u8>) -> (n: usize) {
        let ghost start = buffer@;
        self.interval.encode(buffer);
        self.advertising_type.encode(buffer);
        self.own_address_type.encode(buffer);
        encode_peer_address(&self.peer_address, buffer);
        self.channel_map.encode(buffer);
        self.filter_policy.encode(buffer);
        assert(buffer@ =~= start + self.spec_encode());
        proof {
            self.peer_address.lemma_spec_value_len();
        }
        15
    }

    fn encoded_size(&self) -> (n: usize) {
        proof {
            self.peer_address.lemma_spec_value_len();
        }
        15
    }
}


impl AdvertisingType {
    /// The value of each variant in HCI packets, and the variant each value names.
    pub proof fn lemma_values()
        ensures
            AdvertisingType::ConnectableUndirected.spec_to_u8() == 0x00,
            AdvertisingType::spec_try_from_u8(0x00) == Ok::<AdvertisingType, Error>(AdvertisingType::ConnectableUndirected),
            AdvertisingType::ConnectableHighDutyCycleDirected.spec_to_u8() == 0x01,
            AdvertisingType::spec_try_from_u8(0x01) == Ok::<AdvertisingType, Error>(AdvertisingType::ConnectableHighDutyCycleDirected),
            AdvertisingType::ScannableUndirected.spec_to_u8() == 0x02,
            AdvertisingType::spec_try_from_u8(0x02) == Ok::<AdvertisingType, Error>(AdvertisingType::ScannableUndirected),
            AdvertisingType::NonConnectableUndirected.spec_to_u8() == 0x03,
            AdvertisingType::spec_try_from_u8(0x03) == Ok::<AdvertisingType, Error>(AdvertisingType::NonConnectableUndirected),
            AdvertisingType::ConnectableLowDutyCycleDirected.spec_to_u8() == 0x04,
            AdvertisingType::spec_try_from_u8(0x04) == Ok::<AdvertisingType, Error>(AdvertisingType::ConnectableLowDutyCycleDirected),
    {
        AdvertisingType::ConnectableUndirected.lemma_try_from_to_u8();
        AdvertisingType::ConnectableHighDutyCycleDirected.lemma_try_from_to_u8();
        AdvertisingType::ScannableUndirected.lemma_try_from_to_u8();
        AdvertisingType::NonConnectableUndirected.lemma_try_from_to_u8();
        AdvertisingType::ConnectableLowDutyCycleDirected.lemma_try_from_to_u8();
    }
}

impl AdvertisingFilterPolicy {
    /// The value of each variant in HCI packets, and the variant each value names.
    pub proof fn lemma_values()
        ensures
            AdvertisingFilterPolicy::ScanAllAndConnectionAll.spec_to_u8() == 0x00,
            AdvertisingFilterPolicy::spec_try_from_u8(0x00) == Ok::<AdvertisingFilterPolicy, Error>(AdvertisingFilterPolicy::ScanAllAndConnectionAll),
            AdvertisingFilterPolicy::ConnectionAllAndScanFilterAcceptList.spec_to_u8() == 0x01,
            AdvertisingFilterPolicy::spec_try_from_u8(0x01) == Ok::<AdvertisingFilterPolicy, Error>(AdvertisingFilterPolicy::ConnectionAllAndScanFilterAcceptList),
            AdvertisingFilterPolicy::ScanAllAndConnectionFilterAcceptList.spec_to_u8() == 0x02,
            AdvertisingFilterPolicy::spec_try_from_u8(0x02) == Ok::<AdvertisingFilterPolicy, Error>(AdvertisingFilterPolicy::ScanAllAndConnectionFilterAcceptList),
            AdvertisingFilterPolicy::ScanFilterAcceptListAndConnectionFilterAcceptList.spec_to_u8() == 0x03,
            AdvertisingFilterPolicy::spec_try_from_u8(0x03) == Ok::<AdvertisingFilterPolicy, Error>(AdvertisingFilterPolicy::ScanFilterAcceptListAndConnectionFilterAcceptList),
    {
        AdvertisingFilterPolicy::ScanAllAndConnectionAll.lemma_try_from_to_u8();
        AdvertisingFilterPolicy::ConnectionAllAndScanFilterAcceptList.lemma_try_from_to_u8();
        AdvertisingFilterPolicy::ScanAllAndConnectionFilterAcceptList.lemma_try_from_to_u8();
        AdvertisingFilterPolicy::ScanFilterAcceptListAndConnectionFilterAcceptList.lemma_try_from_to_u8();
    }
}

} // verus!
