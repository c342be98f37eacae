//! Scan parameters.
//!
//! These scan parameters need to be defined to start scanning.
use vstd::prelude::*;

use crate::bytes::{
    lemma_u16_le_bytes_roundtrip, lemma_u16_le_roundtrip, push_u16_le, read_u16_le,
    spec_u16_from_le, spec_u16_le_bytes,
};
use crate::common::own_address_type::OwnAddressType;
use crate::encode::EncodeToBuffer;
use crate::error::Error;
use core::cmp::Ordering;

verus! {

/// Scan type.
///
/// See Core Specification 6.0, Vol.4, Part E, 7.8.10.
#[derive(Debug, Clone, Copy, PartialEq, Eq, Structural)]
#[non_exhaustive]
pub enum ScanType {
    /// Passive Scanning. No scanning PDUs shall be sent (default).
    PassiveScanning,
    /// Active scanning. Scanning PDUs may be sent.
    ActiveScanning,
}

impl ScanType {
    /// The value of this variant in HCI packets.
    pub open spec fn spec_to_u8(self) -> u8 {
        match self {
            ScanType::PassiveScanning => 0x00,
            ScanType::ActiveScanning => 0x01,
        }
    }

    /// The values that name a variant.
    pub open spec fn spec_is_valid_u8(v: u8) -> bool {
        v <= 0x01
    }

    /// The variant named by `v`, or the error reporting that `v` names none.
    pub open spec fn spec_try_from_u8(v: u8) -> Result<ScanType, Error> {
        if ScanType::spec_is_valid_u8(v) {
            Ok(choose|e: ScanType| e.spec_to_u8() == v)
        } else {
            Err(Error::InvalidScanType(v))
        }
    }

    /// The value of this variant in HCI packets.
    pub fn to_u8(self) -> (r: u8)
        ensures
            r == self.spec_to_u8(),
    {
        match self {
            ScanType::PassiveScanning => 0x00,
            ScanType::ActiveScanning => 0x01,
        }
    }

    /// Converts a value of an HCI packet into a variant.
    pub fn try_from_u8(v: u8) -> (r: Result<ScanType, Error>)
        ensures
            r == ScanType::spec_try_from_u8(v),
            r is Ok <==> ScanType::spec_is_valid_u8(v),
            r matches Ok(e) ==> e.spec_to_u8() == v,
            r is Err ==> r == Err::<ScanType, Error>(Error::InvalidScanType(v)),
    {
        let r = match v {
            0x00 => Ok(ScanType::PassiveScanning),
            0x01 => Ok(ScanType::ActiveScanning),
            _ => Err(Error::InvalidScanType(v)),
        };
        proof {
            if let Ok(e) = r {
                ScanType::lemma_to_u8_injective(e, choose|d: ScanType| d.spec_to_u8() == v);
            }
        }
        r
    }

    /// Distinct variants have distinct values.
    pub proof fn lemma_to_u8_injective(a: ScanType, b: ScanType)
        ensures
            a.spec_to_u8() == b.spec_to_u8() ==> a == b,
    {
    }

    /// A value that names a variant names a variant with that value.
    pub proof fn lemma_try_from_u8_to_u8(v: u8)
        requires
            ScanType::spec_is_valid_u8(v),
        ensures
            ScanType::spec_try_from_u8(v) is Ok,
            (ScanType::spec_try_from_u8(v)->Ok_0).spec_to_u8() == v,
    {
        if v == 0x00 {
            assert(ScanType::PassiveScanning.spec_to_u8() == v);
        } else if v == 0x01 {
            assert(ScanType::ActiveScanning.spec_to_u8() == v);
        }
    }

    /// Converting the value of a variant gives the variant back.
    pub proof fn lemma_try_from_to_u8(self)
        ensures
            ScanType::spec_try_from_u8(self.spec_to_u8()) == Ok::<ScanType, Error>(self),
    {
        ScanType::lemma_to_u8_injective(self, choose|d: ScanType| d.spec_to_u8() == self.spec_to_u8());
    }
}

impl Default for ScanType {
    fn default() -> (r: ScanType)
        ensures
            r == ScanType::PassiveScanning,
    {
        ScanType::PassiveScanning
    }
}

impl TryFrom<u8> for ScanType {
    type Error = Error;

    fn try_from(value: u8) -> Result<ScanType, Error> {
        ScanType::try_from_u8(value)
    }
}

impl vstd::std_specs::convert::TryFromSpecImpl<u8> for ScanType {
    open spec fn obeys_try_from_spec() -> bool {
        true
    }

    open spec fn try_from_spec(v: u8) -> Result<ScanType, Error> {
        ScanType::spec_try_from_u8(v)
    }
}

impl From<ScanType> for u8 {
    fn from(value: ScanType) -> u8 {
        value.to_u8()
    }
}

impl vstd::std_specs::convert::FromSpecImpl<ScanType> for u8 {
    open spec fn obeys_from_spec() -> bool {
        true
    }

    open spec fn from_spec(v: ScanType) -> u8 {
        v.spec_to_u8()
    }
}

impl EncodeToBuffer for ScanType {
    open spec fn spec_encode(&self) -> Seq<u8> {
        seq![self.spec_to_u8()]
    }

    fn encode(&self, buffer: &mut Vec<u8>) -> (n: usize) {
        buffer.push(self.to_u8());
        1
    }

    fn encoded_size(&self) -> (n: usize) {
        1
    }
}

/// Scanning Filter Policy.
///
/// See Core Specification 6.0, Vol.4, Part E, 7.8.10.
#[derive(Debug, Clone, Copy, PartialEq, Eq, Structural)]
#[non_exhaustive]
pub enum ScanningFilterPolicy {
    /// Basic unfiltered scanning filter policy (default).
    BasicUnfiltered,
    /// Basic filtered scanning filter policy.
    BasicFiltered,
    /// Extended unfiltered scanning filter policy.
    ExtendedUnfiltered,
    /// Extended filtered scanning filter policy.
    ExtendedFiltered,
}

impl ScanningFilterPolicy {
    /// The value of this variant in HCI packets.
    pub open spec fn spec_to_u8(self) -> u8 {
        match self {
            ScanningFilterPolicy::BasicUnfiltered => 0x00,
            ScanningFilterPolicy::BasicFiltered => 0x01,
            ScanningFilterPolicy::ExtendedUnfiltered => 0x02,
            ScanningFilterPolicy::ExtendedFiltered => 0x03,
        }
    }

    /// The values that name a variant.
    pub open spec fn spec_is_valid_u8(v: u8) -> bool {
        v <= 0x03
    }

    /// The variant named by `v`, or the error reporting that `v` names none.
    pub open spec fn spec_try_from_u8(v: u8) -> Result<ScanningFilterPolicy, Error> {
        if ScanningFilterPolicy::spec_is_valid_u8(v) {
            Ok(choose|e: ScanningFilterPolicy| e.spec_to_u8() == v)
        } else {
            Err(Error::InvalidScanningFilterPolicy(v))
        }
    }

    /// The value of this variant in HCI packets.
    pub fn to_u8(self) -> (r: u8)
        ensures
            r == self.spec_to_u8(),
    {
        match self {
            ScanningFilterPolicy::BasicUnfiltered => 0x00,
            ScanningFilterPolicy::BasicFiltered => 0x01,
            ScanningFilterPolicy::ExtendedUnfiltered => 0x02,
            ScanningFilterPolicy::ExtendedFiltered => 0x03,
        }
    }

    /// Converts a value of an HCI packet into a variant.
    pub fn try_from_u8(v: u8) -> (r: Result<ScanningFilterPolicy, Error>)
        ensures
            r == ScanningFilterPolicy::spec_try_from_u8(v),
            r is Ok <==> ScanningFilterPolicy::spec_is_valid_u8(v),
            r matches Ok(e) ==> e.spec_to_u8() == v,
            r is Err ==> r == Err::<ScanningFilterPolicy, Error>(Error::InvalidScanningFilterPolicy(v)),
    {
        let r = match v {
            0x00 => Ok(ScanningFilterPolicy::BasicUnfiltered),
            0x01 => Ok(ScanningFilterPolicy::BasicFiltered),
            0x02 => Ok(ScanningFilterPolicy::ExtendedUnfiltered),
            0x03 => Ok(ScanningFilterPolicy::ExtendedFiltered),
            _ => Err(Error::InvalidScanningFilterPolicy(v)),
        };
        proof {
            if let Ok(e) = r {
                ScanningFilterPolicy::lemma_to_u8_injective(e, choose|d: ScanningFilterPolicy| d.spec_to_u8() == v);
            }
        }
        r
    }

    /// Distinct variants have distinct values.
    pub proof fn lemma_to_u8_injective(a: ScanningFilterPolicy, b: ScanningFilterPolicy)
        ensures
            a.spec_to_u8() == b.spec_to_u8() ==> a == b,
    {
    }

    /// A value that names a variant names a variant with that value.
    pub proof fn lemma_try_from_u8_to_u8(v: u8)
        requires
            ScanningFilterPolicy::spec_is_valid_u8(v),
        ensures
            ScanningFilterPolicy::spec_try_from_u8(v) is Ok,
            (ScanningFilterPolicy::spec_try_from_u8(v)->Ok_0).spec_to_u8() == v,
    {
        if v == 0x00 {
            assert(ScanningFilterPolicy::BasicUnfiltered.spec_to_u8() == v);
        } else if v == 0x01 {
            assert(ScanningFilterPolicy::BasicFiltered.spec_to_u8() == v);
        } else if v == 0x02 {
            assert(ScanningFilterPolicy::ExtendedUnfiltered.spec_to_u8() == v);
        } else if v == 0x03 {
            assert(ScanningFilterPolicy::ExtendedFiltered.spec_to_u8() == v);
        }
    }

    /// Converting the value of a variant gives the variant back.
    pub proof fn lemma_try_from_to_u8(self)
        ensures
            ScanningFilterPolicy::spec_try_from_u8(self.spec_to_u8()) == Ok::<ScanningFilterPolicy, Error>(self),
    {
        ScanningFilterPolicy::lemma_to_u8_injective(self, choose|d: ScanningFilterPolicy| d.spec_to_u8() == self.spec_to_u8());
    }
}

impl Default for ScanningFilterPolicy {
    fn default() -> (r: ScanningFilterPolicy)
        ensures
            r == ScanningFilterPolicy::BasicUnfiltered,
    {
        ScanningFilterPolicy::BasicUnfiltered
    }
}

impl TryFrom<u8> for ScanningFilterPolicy {
    type Error = Error;

    fn try_from(value: u8) -> Result<ScanningFilterPolicy, Error> {
        ScanningFilterPolicy::try_from_u8(value)
    }
}

impl vstd::std_specs::convert::TryFromSpecImpl<u8> for ScanningFilterPolicy {
    open spec fn obeys_try_from_spec() -> bool {
        true
    }

    open spec fn try_from_spec(v: u8) -> Result<ScanningFilterPolicy, Error> {
        ScanningFilterPolicy::spec_try_from_u8(v)
    }
}

impl From<ScanningFilterPolicy> for u8 {
    fn from(value: ScanningFilterPolicy) -> u8 {
        value.to_u8()
    }
}

impl vstd::std_specs::convert::FromSpecImpl<ScanningFilterPolicy> for u8 {
    open spec fn obeys_from_spec() -> bool {
        true
    }

    open spec fn from_spec(v: ScanningFilterPolicy) -> u8 {
        v.spec_to_u8()
    }
}

impl EncodeToBuffer for ScanningFilterPolicy {
    open spec fn spec_encode(&self) -> Seq<u8> {
        seq![self.spec_to_u8()]
    }

    fn encode(&self, buffer: &mut Vec<u8>) -> (n: usize) {
        buffer.push(self.to_u8());
        1
    }

    fn encoded_size(&self) -> (n: usize) {
        1
    }
}

/// Scan interval.
///
/// The time interval from when the Controller started its last LE scan until it begins the subsequent LE scan.
///
/// Range: 0x0004 to 0x4000, default 0x0010 (10 ms), Time = N × 0.625 ms (2.5 ms to 10.24 s).
///
/// See Core Specification 6.0, Vol.4, Part E, 7.8.10.
#[derive(Debug, Clone, Copy, PartialEq, Eq, Structural, PartialOrd, Ord)]
pub struct ScanInterval {
    value: u16,
}

impl ScanInterval {
    /// The values accepted by `try_new`.
    pub open spec fn spec_is_valid(value: u16) -> bool {
        0x0004 <= value <= 0x4000
    }

    /// The raw value.
    pub closed spec fn spec_value(self) -> u16 {
        self.value
    }

    /// Well-formedness: the raw value is in the valid range.
    pub open spec fn wf(self) -> bool {
        ScanInterval::spec_is_valid(self.spec_value())
    }

    /// The outcome of `try_new`.
    pub closed spec fn spec_try_new(value: u16) -> Result<ScanInterval, Error> {
        if ScanInterval::spec_is_valid(value) {
            Ok(ScanInterval { value })
        } else {
            Err(Error::InvalidScanInterval(value))
        }
    }

    /// Creates a valid value, checking its range.
    pub fn try_new(value: u16) -> (r: Result<ScanInterval, Error>)
        ensures
            r == ScanInterval::spec_try_new(value),
            r is Ok <==> ScanInterval::spec_is_valid(value),
            r matches Ok(v) ==> v.spec_value() == value && v.wf(),
            r is Err ==> r == Err::<ScanInterval, Error>(Error::InvalidScanInterval(value)),
    {
        if 0x0004 <= value && value <= 0x4000 {
            Ok(ScanInterval { value })
        } else {
            Err(Error::InvalidScanInterval(value))
        }
    }

    /// The raw value.
    pub fn value(&self) -> (r: u16)
        ensures
            r == self.spec_value(),
    {
        self.value
    }

    /// Values are determined by their raw value.
    pub proof fn lemma_spec_value_injective(a: ScanInterval, b: ScanInterval)
        ensures
            a.spec_value() == b.spec_value() ==> a == b,
    {
    }

    /// The raw value of a value made by `try_new` is the value given.
    pub proof fn lemma_spec_try_new_value(value: u16)
        ensures
            ScanInterval::spec_try_new(value) is Ok <==> ScanInterval::spec_is_valid(value),
            ScanInterval::spec_try_new(value) is Ok ==> (ScanInterval::spec_try_new(value)->Ok_0).spec_value() == value,
            ScanInterval::spec_try_new(value) is Err ==> ScanInterval::spec_try_new(value) == Err::<ScanInterval, Error>(Error::InvalidScanInterval(value)),
    {
    }

    /// `try_new` of the raw value of a well-formed value gives that value back.
    pub proof fn lemma_try_new_spec_value(self)
        requires
            self.wf(),
        ensures
            ScanInterval::spec_try_new(self.spec_value()) == Ok::<ScanInterval, Error>(self),
    {
    }
}

impl Default for ScanInterval {
    fn default() -> (r: ScanInterval)
        ensures
            r.spec_value() == 0x0010,
            r.wf(),
    {
        ScanInterval { value: 0x0010 }
    }
}

impl TryFrom<u16> for ScanInterval {
    type Error = Error;

    fn try_from(value: u16) -> Result<ScanInterval, Error> {
        ScanInterval::try_new(value)
    }
}

impl vstd::std_specs::convert::TryFromSpecImpl<u16> for ScanInterval {
    open spec fn obeys_try_from_spec() -> bool {
        true
    }

    open spec fn try_from_spec(v: u16) -> Result<ScanInterval, Error> {
        ScanInterval::spec_try_new(v)
    }
}

impl EncodeToBuffer for ScanInterval {
    open spec fn spec_encode(&self) -> Seq<u8> {
        spec_u16_le_bytes(self.spec_value())
    }

    fn encode(&self, buffer: &mut Vec<u8>) -> (n: usize) {
        push_u16_le(buffer, self.value);
        2
    }

    fn encoded_size(&self) -> (n: usize) {
        2
    }
}

/// Scan window.
///
/// The duration of the LE scan.
///
/// Range: 0x0004 to 0x4000, default 0x0010 (10 ms), Time = N × 0.625 ms (2.5 ms to 10.24 s).
///
/// See Core Specification 6.0, Vol.4, Part E, 7.8.10.
#[derive(Debug, Clone, Copy, PartialEq, Eq, Structural, PartialOrd, Ord)]
pub struct ScanWindow {
    value: u16,
}

impl ScanWindow {
    /// The values accepted by `try_new`.
    pub open spec fn spec_is_valid(value: u16) -> bool {
        0x0004 <= value <= 0x4000
    }

    /// The raw value.
    pub closed spec fn spec_value(self) -> u16 {
        self.value
    }

    /// Well-formedness: the raw value is in the valid range.
    pub open spec fn wf(self) -> bool {
        ScanWindow::spec_is_valid(self.spec_value())
    }

    /// The outcome of `try_new`.
    pub closed spec fn spec_try_new(value: u16) -> Result<ScanWindow, Error> {
        if ScanWindow::spec_is_valid(value) {
            Ok(ScanWindow { value })
        } else {
            Err(Error::InvalidScanWindow(value))
        }
    }

    /// Creates a valid value, checking its range.
    pub fn try_new(value: u16) -> (r: Result<ScanWindow, Error>)
        ensures
            r == ScanWindow::spec_try_new(value),
            r is Ok <==> ScanWindow::spec_is_valid(value),
            r matches Ok(v) ==> v.spec_value() == value && v.wf(),
            r is Err ==> r == Err::<ScanWindow, Error>(Error::InvalidScanWindow(value)),
    {
        if 0x0004 <= value && value <= 0x4000 {
            Ok(ScanWindow { value })
        } else {
            Err(Error::InvalidScanWindow(value))
        }
    }

    /// The raw value.
    pub fn value(&self) -> (r: u16)
        ensures
            r == self.spec_value(),
    {
        self.value
    }

    /// Values are determined by their raw value.
    pub proof fn lemma_spec_value_injective(a: ScanWindow, b: ScanWindow)
        ensures
            a.spec_value() == b.spec_value() ==> a == b,
    {
    }

    /// The raw value of a value made by `try_new` is the value given.
    pub proof fn lemma_spec_try_new_value(value: u16)
        ensures
            ScanWindow::spec_try_new(value) is Ok <==> ScanWindow::spec_is_valid(value),
            ScanWindow::spec_try_new(value) is Ok ==> (ScanWindow::spec_try_new(value)->Ok_0).spec_value() == value,
            ScanWindow::spec_try_new(value) is Err ==> ScanWindow::spec_try_new(value) == Err::<ScanWindow, Error>(Error::InvalidScanWindow(value)),
    {
    }

    /// `try_new` of the raw value of a well-formed value gives that value back.
    pub proof fn lemma_try_new_spec_value(self)
        requires
            self.wf(),
        ensures
            ScanWindow::spec_try_new(self.spec_value()) == Ok::<ScanWindow, Error>(self),
    {
    }
}

impl Default for ScanWindow {
    fn default() -> (r: ScanWindow)
        ensures
            r.spec_value() == 0x0010,
            r.wf(),
    {
        ScanWindow { value: 0x0010 }
    }
}

impl TryFrom<u16> for ScanWindow {
    type Error = Error;

    fn try_from(value: u16) -> Result<ScanWindow, Error> {
        ScanWindow::try_new(value)
    }
}

impl vstd::std_specs::convert::TryFromSpecImpl<u16> for ScanWindow {
    open spec fn obeys_try_from_spec() -> bool {
        true
    }

    open spec fn try_from_spec(v: u16) -> Result<ScanWindow, Error> {
        ScanWindow::spec_try_new(v)
    }
}

impl EncodeToBuffer for ScanWindow {
    open spec fn spec_encode(&self) -> Seq<u8> {
        spec_u16_le_bytes(self.spec_value())
    }

    fn encode(&self, buffer: &mut Vec<u8>) -> (n: usize) {
        push_u16_le(buffer, self.value);
        2
    }

    fn encoded_size(&self) -> (n: usize) {
        2
    }
}

impl PartialEq<ScanWindow> for ScanInterval {
    fn eq(&self, other: &ScanWindow) -> (r: bool) {
        self.value == other.value
    }
}

impl vstd::std_specs::cmp::PartialEqSpecImpl<ScanWindow> for ScanInterval {
    open spec fn obeys_eq_spec() -> bool {
        true
    }

    open spec fn eq_spec(&self, other: &ScanWindow) -> bool {
        self.spec_value() == other.spec_value()
    }
}

impl PartialOrd<ScanWindow> for ScanInterval {
    fn partial_cmp(&self, other: &ScanWindow) -> (r: Option<Ordering>) {
        if self.value < other.value {
            Some(Ordering::Less)
        } else if self.value == other.value {
            Some(Ordering::Equal)
        } else {
            Some(Ordering::Greater)
        }
    }
}

impl vstd::std_specs::cmp::PartialOrdSpecImpl<ScanWindow> for ScanInterval {
    open spec fn obeys_partial_cmp_spec() -> bool {
        true
    }

    open spec fn partial_cmp_spec(&self, other: &ScanWindow) -> Option<Ordering> {
        if self.spec_value() < other.spec_value() {
            Some(Ordering::Less)
        } else if self.spec_value() == other.spec_value() {
            Some(Ordering::Equal)
        } else {
            Some(Ordering::Greater)
        }
    }
}

impl PartialEq<ScanInterval> for ScanWindow {
    fn eq(&self, other: &ScanInterval) -> (r: bool) {
        self.value == other.value
    }
}

impl vstd::std_specs::cmp::PartialEqSpecImpl<ScanInterval> for ScanWindow {
    open spec fn obeys_eq_spec() -> bool {
        true
    }

    open spec fn eq_spec(&self, other: &ScanInterval) -> bool {
        self.spec_value() == other.spec_value()
    }
}

impl PartialOrd<ScanInterval> for ScanWindow {
    fn partial_cmp(&self, other: &ScanInterval) -> (r: Option<Ordering>) {
        if self.value < other.value {
            Some(Ordering::Less)
        } else if self.value == other.value {
            Some(Ordering::Equal)
        } else {
            Some(Ordering::Greater)
        }
    }
}

impl vstd::std_specs::cmp::PartialOrdSpecImpl<ScanInterval> for ScanWindow {
    open spec fn obeys_partial_cmp_spec() -> bool {
        true
    }

    open spec fn partial_cmp_spec(&self, other: &ScanInterval) -> Option<Ordering> {
        if self.spec_value() < other.spec_value() {
            Some(Ordering::Less)
        } else if self.spec_value() == other.spec_value() {
            Some(Ordering::Equal)
        } else {
            Some(Ordering::Greater)
        }
    }
}

/// Scan parameters to be set before starting scanning: the scan type, the scan interval, the scan
/// window, our own address type and the scanning filter policy.
///
/// See Core Specification 6.0, Vol.4, Part E, 7.8.10.
#[derive(Debug, Clone, Copy, PartialEq, Eq, Structural)]
pub struct ScanParameters {
    pub scan_type: ScanType,
    pub interval: ScanInterval,
    pub window: ScanWindow,
    pub own_address_type: OwnAddressType,
    pub filter_policy: ScanningFilterPolicy,
}

impl ScanParameters {
    /// Well-formedness: valid interval and window, the window no longer than the interval.
    pub open spec fn wf(self) -> bool {
        &&& self.interval.wf()
        &&& self.window.wf()
        &&& self.window.spec_value() <= self.interval.spec_value()
    }

    /// The outcome of `try_new`.
    pub open spec fn spec_try_new(
        scan_type: ScanType,
        interval: ScanInterval,
        window: ScanWindow,
        own_address_type: OwnAddressType,
        filter_policy: ScanningFilterPolicy,
    ) -> Result<ScanParameters, Error> {
        if window.spec_value() <= interval.spec_value() {
            Ok(ScanParameters { scan_type, interval, window, own_address_type, filter_policy })
        } else {
            Err(Error::ScanWindowMustBeSmallerOrEqualToScanInterval)
        }
    }

    /// Creates scan parameters, checking that the scan window is not longer than the scan interval.
    pub fn try_new(
        scan_type: ScanType,
        interval: ScanInterval,
        window: ScanWindow,
        own_address_type: OwnAddressType,
        filter_policy: ScanningFilterPolicy,
    ) -> (r: Result<ScanParameters, Error>)
        ensures
            r == ScanParameters::spec_try_new(
                scan_type,
                interval,
                window,
                own_address_type,
                filter_policy,
            ),
    {
        if window.value() <= interval.value() {
            Ok(ScanParameters { scan_type, interval, window, own_address_type, filter_policy })
        } else {
            Err(Error::ScanWindowMustBeSmallerOrEqualToScanInterval)
        }
    }

    /// The outcome of parsing the parameters of an LE Set Scan Parameters command: exactly seven
    /// bytes, each field valid and the window no longer than the interval.
    pub open spec fn spec_parse(s: Seq<u8>) -> Option<ScanParameters> {
        let t = ScanType::spec_try_from_u8(s[0]);
        let i = ScanInterval::spec_try_new(spec_u16_from_le(s[1], s[2]));
        let w = ScanWindow::spec_try_new(spec_u16_from_le(s[3], s[4]));
        let o = OwnAddressType::spec_try_from_u8(s[5]);
        let f = ScanningFilterPolicy::spec_try_from_u8(s[6]);
        if s.len() == 7 && t is Ok && i is Ok && w is Ok && o is Ok && f is Ok {
            match ScanParameters::spec_try_new(t->Ok_0, i->Ok_0, w->Ok_0, o->Ok_0, f->Ok_0) {
                Ok(p) => Some(p),
                Err(_) => None,
            }
        } else {
            None
        }
    }

    /// Parses the parameters of an LE Set Scan Parameters command.
    pub fn parse(input: &[u8]) -> (r: Option<ScanParameters>)
        ensures
            r == ScanParameters::spec_parse(input@),
    {
        if input.len() != 7 {
            return None;
        }
        let t = match ScanType::try_from_u8(input[0]) {
            Ok(v) => v,
            Err(_) => return None,
        };
        let i = match ScanInterval::try_new(read_u16_le(input, 1)) {
            Ok(v) => v,
            Err(_) => return None,
        };
        let w = match ScanWindow::try_new(read_u16_le(input, 3)) {
            Ok(v) => v,
            Err(_) => return None,
        };
        let o = match OwnAddressType::try_from_u8(input[5]) {
            Ok(v) => v,
            Err(_) => return None,
        };
        let f = match ScanningFilterPolicy::try_from_u8(input[6]) {
            Ok(v) => v,
            Err(_) => return None,
        };
        match ScanParameters::try_new(t, i, w, o, f) {
            Ok(p) => Some(p),
            Err(_) => None,
        }
    }

    /// Parsing the encoding of well-formed scan parameters gives them back.
    pub proof fn lemma_parse_encode(self)
        requires
            self.wf(),
        ensures
            ScanParameters::spec_parse(self.spec_encode()) == Some(self),
    {
        let s = self.spec_encode();
        self.scan_type.lemma_try_from_to_u8();
        self.own_address_type.lemma_try_from_to_u8();
        self.filter_policy.lemma_try_from_to_u8();
        lemma_u16_le_roundtrip(self.interval.spec_value());
        lemma_u16_le_roundtrip(self.window.spec_value());
        self.interval.lemma_try_new_spec_value();
        self.window.lemma_try_new_spec_value();
        assert(s[1] == spec_u16_le_bytes(self.interval.spec_value())[0]);
        assert(s[2] == spec_u16_le_bytes(self.interval.spec_value())[1]);
        assert(s[3] == spec_u16_le_bytes(self.window.spec_value())[0]);
        assert(s[4] == spec_u16_le_bytes(self.window.spec_value())[1]);
    }

    /// Parameters parsed from bytes are well-formed and encode to those bytes.
    pub proof fn lemma_encode_parse(s: Seq<u8>)
        ensures
            ScanParameters::spec_parse(s) matches Some(p) ==> p.wf() && p.spec_encode() == s,
    {
        if let Some(p) = ScanParameters::spec_parse(s) {
            ScanType::lemma_try_from_u8_to_u8(s[0]);
            OwnAddressType::lemma_try_from_u8_to_u8(s[5]);
            ScanningFilterPolicy::lemma_try_from_u8_to_u8(s[6]);
            ScanInterval::lemma_spec_try_new_value(spec_u16_from_le(s[1], s[2]));
            ScanWindow::lemma_spec_try_new_value(spec_u16_from_le(s[3], s[4]));
            lemma_u16_le_bytes_roundtrip(s[1], s[2]);
            lemma_u16_le_bytes_roundtrip(s[3], s[4]);
            assert(p.spec_encode() =~= s);
        }
    }
}

impl Default for ScanParameters {
    fn default() -> (r: ScanParameters)
        ensures
            r.scan_type == ScanType::PassiveScanning,
            r.interval.spec_value() == 0x0010,
            r.window.spec_value() == 0x0010,
            r.own_address_type == OwnAddressType::PublicDeviceAddress,
            r.filter_policy == ScanningFilterPolicy::BasicUnfiltered,
            r.wf(),
    {
        ScanParameters {
            scan_type: ScanType::default(),
            interval: ScanInterval::default(),
            window: ScanWindow::default(),
            own_address_type: OwnAddressType::default(),
            filter_policy: ScanningFilterPolicy::default(),
        }
    }
}

impl EncodeToBuffer for ScanParameters {
    open spec fn spec_encode(&self) -> Seq<u8> {
        seq![self.scan_type.spec_to_u8()] + self.interval.spec_encode()
            + self.window.spec_encode() + seq![self.own_address_type.spec_to_u8()]
            + seq![self.filter_policy.spec_to_u8()]
    }

    fn encode(&self, buffer: &mut Vec<u8>) -> (n: usize) {
        let ghost start = buffer@;
        self.scan_type.encode(buffer);
        self.interval.encode(buffer);
        self.window.encode(buffer);
        self.own_address_type.encode(buffer);
        self.filter_policy.encode(buffer);
        assert(buffer@ =~= start + self.spec_encode());
        7
    }

    fn encoded_size(&self) -> (n: usize) {
        7
    }
}

impl ScanType {
    /// The value of each variant in HCI packets, and the variant each value names.
    pub proof fn lemma_values()
        ensures
            ScanType::PassiveScanning.spec_to_u8() == 0x00,
            ScanType::spec_try_from_u8(0x00) == Ok::<ScanType, Error>(ScanType::PassiveScanning),
            ScanType::ActiveScanning.spec_to_u8() == 0x01,
            ScanType::spec_try_from_u8(0x01) == Ok::<ScanType, Error>(ScanType::ActiveScanning),
    {
        ScanType::PassiveScanning.lemma_try_from_to_u8();
        ScanType::ActiveScanning.lemma_try_from_to_u8();
    }
}

impl ScanningFilterPolicy {
    /// The value of each variant in HCI packets, and the variant each value names.
    pub proof fn lemma_values()
        ensures
            ScanningFilterPolicy::BasicUnfiltered.spec_to_u8() == 0x00,
            ScanningFilterPolicy::spec_try_from_u8(0x00) == Ok::<ScanningFilterPolicy, Error>(ScanningFilterPolicy::BasicUnfiltered),
            ScanningFilterPolicy::BasicFiltered.spec_to_u8() == 0x01,
            ScanningFilterPolicy::spec_try_from_u8(0x01) == Ok::<ScanningFilterPolicy, Error>(ScanningFilterPolicy::BasicFiltered),
            ScanningFilterPolicy::ExtendedUnfiltered.spec_to_u8() == 0x02,
            ScanningFilterPolicy::spec_try_from_u8(0x02) == Ok::<ScanningFilterPolicy, Error>(ScanningFilterPolicy::ExtendedUnfiltered),
            ScanningFilterPolicy::ExtendedFiltered.spec_to_u8() == 0x03,
            ScanningFilterPolicy::spec_try_from_u8(0x03) == Ok::<ScanningFilterPolicy, Error>(ScanningFilterPolicy::ExtendedFiltered),
    {
        ScanningFilterPolicy::BasicUnfiltered.lemma_try_from_to_u8();
        ScanningFilterPolicy::BasicFiltered.lemma_try_from_to_u8();
        ScanningFilterPolicy::ExtendedUnfiltered.lemma_try_from_to_u8();
        ScanningFilterPolicy::ExtendedFiltered.lemma_try_from_to_u8();
    }
}

} // verus!
