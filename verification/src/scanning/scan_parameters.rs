//! Scan parameters.
//!
//! These scan parameters need to be defined to start scanning.
use vstd::prelude::*;

use crate::bytes::{
    lemma_u16_le_bytes_roundtrip, lemma_u16_le_roundtrip, read_u16_le, spec_u16_from_le,
    spec_u16_le_bytes,
};
use crate::common::own_address_type::OwnAddressType;
use crate::encode::EncodeToBuffer;
use crate::error::Error;
use crate::scan_interval::ScanInterval;
use crate::scanning::scan_window::ScanWindow;

verus! {

/// Scan type.
///
/// See Core Specification 6.0, Vol.4, Part E, 7.8.10.
#[derive(Debug, Clone, Copy, PartialEq, Eq, Structural)]
#[non_exhaustive]
pub enum ScanType {
    /// Passive Scanning. No scanning PDUs shall be sent (default).
    PassiveScanning,
    /// Active scanning. Scanning PDUs may be sent.
    ActiveScanning,
}

impl ScanType {
    /// The value of this variant in HCI packets.
    pub open spec fn spec_to_u8(self) -> u8 {
        match self {
            ScanType::PassiveScanning => 0x00,
            ScanType::ActiveScanning => 0x01,
        }
    }

    /// The values that name a variant.
    pub open spec fn spec_is_valid_u8(v: u8) -> bool {
        v <= 0x01
    }

    /// The variant named by `v`, or the error reporting that `v` names none.
    pub open spec fn spec_try_from_u8(v: u8) -> Result<ScanType, Error> {
        if ScanType::spec_is_valid_u8(v) {
            Ok(choose|e: ScanType| e.spec_to_u8() == v)
        } else {
            Err(Error::InvalidScanType(v))
        }
    }

    /// The value of this variant in HCI packets.
    pub fn to_u8(self) -> (r: u8)
        ensures
            r == self.spec_to_u8(),
    {
        match self {
            ScanType::PassiveScanning => 0x00,
            ScanType::ActiveScanning => 0x01,
        }
    }

    /// Converts a value of an HCI packet into a variant.
    pub fn try_from_u8(v: u8) -> (r: Result<ScanType, Error>)
        ensures
            r == ScanType::spec_try_from_u8(v),
            r is Ok <==> ScanType::spec_is_valid_u8(v),
            r matches Ok(e) ==> e.spec_to_u8() == v,
            r is Err ==> r == Err::<ScanType, Error>(Error::InvalidScanType(v)),
    {
        let r = match v {
            0x00 => Ok(ScanType::PassiveScanning),
            0x01 => Ok(ScanType::ActiveScanning),
            _ => Err(Error::InvalidScanType(v)),
        };
        proof {
            if let Ok(e) = r {
                ScanType::lemma_to_u8_injective(e, choose|d: ScanType| d.spec_to_u8() == v);
            }
        }
        r
    }

    /// Distinct variants have distinct values.
    pub proof fn lemma_to_u8_injective(a: ScanType, b: ScanType)
        ensures
            a.spec_to_u8() == b.spec_to_u8() ==> a == b,
    {
    }

    /// A value that names a variant names a variant with that value.
    pub proof fn lemma_try_from_u8_to_u8(v: u8)
        requires
            ScanType::spec_is_valid_u8(v),
        ensures
            ScanType::spec_try_from_u8(v) is Ok,
            (ScanType::spec_try_from_u8(v)->Ok_0).spec_to_u8() == v,
    {
        if v == 0x00 {
            assert(ScanType::PassiveScanning.spec_to_u8() == v);
        } else if v == 0x01 {
            assert(ScanType::ActiveScanning.spec_to_u8() == v);
        }
    }

    /// Converting the value of a variant gives the variant back.
    pub proof fn lemma_try_from_to_u8(self)
        ensures
            ScanType::spec_try_from_u8(self.spec_to_u8()) == Ok::<ScanType, Error>(self),
    {
        ScanType::lemma_to_u8_injective(self, choose|d: ScanType| d.spec_to_u8() == self.spec_to_u8());
    }
}

impl Default for ScanType {
    fn default() -> (r: ScanType)
        ensures
            r == ScanType::PassiveScanning,
    {
        ScanType::PassiveScanning
    }
}

impl TryFrom<u8> for ScanType {
    type Error = Error;

    fn try_from(value: u8) -> Result<ScanType, Error> {
        ScanType::try_from_u8(value)
    }
}

impl vstd::std_specs::convert::TryFromSpecImpl<u8> for ScanType {
    open spec fn obeys_try_from_spec() -> bool {
        true
    }

    open spec fn try_from_spec(v: u8) -> Result<ScanType, Error> {
        ScanType::spec_try_from_u8(v)
    }
}

impl From<ScanType> for u8 {
    fn from(value: ScanType) -> u8 {
        value.to_u8()
    }
}

impl vstd::std_specs::convert::FromSpecImpl<ScanType> for u8 {
    open spec fn obeys_from_spec() -> bool {
        true
    }

    open spec fn from_spec(v: ScanType) -> u8 {
        v.spec_to_u8()
    }
}

impl EncodeToBuffer for ScanType {
    open spec fn spec_encode(&self) -> Seq<u8> {
        seq![self.spec_to_u8()]
    }

    fn encode(&self, buffer: &mut Vec<u8>) -> (n: usize) {
        buffer.push(self.to_u8());
        1
    }

    fn encoded_size(&self) -> (n: usize) {
        1
    }
}

/// Scanning Filter Policy.
///
/// See Core Specification 6.0, Vol.4, Part E, 7.8.10.
#[derive(Debug, Clone, Copy, PartialEq, Eq, Structural)]
#[non_exhaustive]
pub enum ScanningFilterPolicy {
    /// Basic unfiltered scanning filter policy (default).
    BasicUnfiltered,
    /// Basic filtered scanning filter policy.
    BasicFiltered,
    /// Extended unfiltered scanning filter policy.
    ExtendedUnfiltered,
    /// Extended filtered scanning filter policy.
    ExtendedFiltered,
}

impl ScanningFilterPolicy {
    /// The value of this variant in HCI packets.
    pub open spec fn spec_to_u8(self) -> u8 {
        match self {
            ScanningFilterPolicy::BasicUnfiltered => 0x00,
            ScanningFilterPolicy::BasicFiltered => 0x01,
            ScanningFilterPolicy::ExtendedUnfiltered => 0x02,
            ScanningFilterPolicy::ExtendedFiltered => 0x03,
        }
    }

    /// The values that name a variant.
    pub open spec fn spec_is_valid_u8(v: u8) -> bool {
        v <= 0x03
    }

    /// The variant named by `v`, or the error reporting that `v` names none.
    pub open spec fn spec_try_from_u8(v: u8) -> Result<ScanningFilterPolicy, Error> {
        if ScanningFilterPolicy::spec_is_valid_u8(v) {
            Ok(choose|e: ScanningFilterPolicy| e.spec_to_u8() == v)
        } else {
            Err(Error::InvalidScanningFilterPolicy(v))
        }
    }

    /// The value of this variant in HCI packets.
    pub fn to_u8(self) -> (r: u8)
        ensures
            r == self.spec_to_u8(),
    {
        match self {
            ScanningFilterPolicy::BasicUnfiltered => 0x00,
            ScanningFilterPolicy::BasicFiltered => 0x01,
            ScanningFilterPolicy::ExtendedUnfiltered => 0x02,
            ScanningFilterPolicy::ExtendedFiltered => 0x03,
        }
    }

    /// Converts a value of an HCI packet into a variant.
    pub fn try_from_u8(v: u8) -> (r: Result<ScanningFilterPolicy, Error>)
        ensures
            r == ScanningFilterPolicy::spec_try_from_u8(v),
            r is Ok <==> ScanningFilterPolicy::spec_is_valid_u8(v),
            r matches Ok(e) ==> e.spec_to_u8() == v,
            r is Err ==> r == Err::<ScanningFilterPolicy, Error>(Error::InvalidScanningFilterPolicy(v)),
    {
        let r = match v {
            0x00 => Ok(ScanningFilterPolicy::BasicUnfiltered),
            0x01 => Ok(ScanningFilterPolicy::BasicFiltered),
            0x02 => Ok(ScanningFilterPolicy::ExtendedUnfiltered),
            0x03 => Ok(ScanningFilterPolicy::ExtendedFiltered),
            _ => Err(Error::InvalidScanningFilterPolicy(v)),
        };
        proof {
            if let Ok(e) = r {
                ScanningFilterPolicy::lemma_to_u8_injective(e, choose|d: ScanningFilterPolicy| d.spec_to_u8() == v);
            }
        }
        r
    }

    /// Distinct variants have distinct values.
    pub proof fn lemma_to_u8_injective(a: ScanningFilterPolicy, b: ScanningFilterPolicy)
        ensures
            a.spec_to_u8() == b.spec_to_u8() ==> a == b,
    {
    }

    /// A value that names a variant names a variant with that value.
    pub proof fn lemma_try_from_u8_to_u8(v: u8)
        requires
            ScanningFilterPolicy::spec_is_valid_u8(v),
        ensures
            ScanningFilterPolicy::spec_try_from_u8(v) is Ok,
            (ScanningFilterPolicy::spec_try_from_u8(v)->Ok_0).spec_to_u8() == v,
    {
        if v == 0x00 {
            assert(ScanningFilterPolicy::BasicUnfiltered.spec_to_u8() == v);
        } else if v == 0x01 {
            assert(ScanningFilterPolicy::BasicFiltered.spec_to_u8() == v);
        } else if v == 0x02 {
            assert(ScanningFilterPolicy::ExtendedUnfiltered.spec_to_u8() == v);
        } else if v == 0x03 {
            assert(ScanningFilterPolicy::ExtendedFiltered.spec_to_u8() == v);
        }
    }

    /// Converting the value of a variant gives the variant back.
    pub proof fn lemma_try_from_to_u8(self)
        ensures
            ScanningFilterPolicy::spec_try_from_u8(self.spec_to_u8()) == Ok::<ScanningFilterPolicy, Error>(self),
    {
        ScanningFilterPolicy::lemma_to_u8_injective(self, choose|d: ScanningFilterPolicy| d.spec_to_u8() == self.spec_to_u8());
    }
}

impl Default for ScanningFilterPolicy {
    fn default() -> (r: ScanningFilterPolicy)
        ensures
            r == ScanningFilterPolicy::BasicUnfiltered,
    {
        ScanningFilterPolicy::BasicUnfiltered
    }
}

impl TryFrom<u8> for ScanningFilterPolicy {
    type Error = Error;

    fn try_from(value: u8) -> Result<ScanningFilterPolicy, Error> {
        ScanningFilterPolicy::try_from_u8(value)
    }
}

impl vstd::std_specs::convert::TryFromSpecImpl<u8> for ScanningFilterPolicy {
    open spec fn obeys_try_from_spec() -> bool {
        true
    }

    open spec fn try_from_spec(v: u8) -> Result<ScanningFilterPolicy, Error> {
        ScanningFilterPolicy::spec_try_from_u8(v)
    }
}

impl From<ScanningFilterPolicy> for u8 {
    fn from(value: ScanningFilterPolicy) -> u8 {
        value.to_u8()
    }
}

impl vstd::std_specs::convert::FromSpecImpl<ScanningFilterPolicy> for u8 {
    open spec fn obeys_from_spec() -> bool {
        true
    }

    open spec fn from_spec(v: ScanningFilterPolicy) -> u8 {
        v.spec_to_u8()
    }
}

impl EncodeToBuffer for ScanningFilterPolicy {
    open spec fn spec_encode(&self) -> Seq<u8> {
        seq![self.spec_to_u8()]
    }

    fn encode(&self, buffer: &mut Vec<u8>) -> (n: usize) {
        buffer.push(self.to_u8());
        1
    }

    fn encoded_size(&self) -> (n: usize) {
        1
    }
}

/// Scan parameters to be set before starting scanning: the scan type, the scan interval, the scan
/// window, our own address type and the scanning filter policy.
///
/// See Core Specification 6.0, Vol.4, Part E, 7.8.10.
#[derive(Debug, Clone, Copy, PartialEq, Eq, Structural)]
pub struct ScanParameters {
    scan_type: ScanType,
    interval: ScanInterval,
    window: ScanWindow,
    own_address_type: OwnAddressType,
    filter_policy: ScanningFilterPolicy,
}

impl ScanParameters {
    /// The scan type.
    pub closed spec fn spec_scan_type(self) -> ScanType {
        self.scan_type
    }

    /// The scan interval.
    pub closed spec fn spec_interval(self) -> ScanInterval {
        self.interval
    }

    /// The scan window.
    pub closed spec fn spec_window(self) -> ScanWindow {
        self.window
    }

    /// Our own address type.
    pub closed spec fn spec_own_address_type(self) -> OwnAddressType {
        self.own_address_type
    }

    /// The scanning filter policy.
    pub closed spec fn spec_filter_policy(self) -> ScanningFilterPolicy {
        self.filter_policy
    }

    /// Well-formedness: valid interval and window, the window no longer than the interval.
    pub open spec fn wf(self) -> bool {
        &&& self.spec_interval().wf()
        &&& self.spec_window().wf()
        &&& self.spec_window().spec_value() <= self.spec_interval().spec_value()
    }

    /// The outcome of `try_new`.
    pub closed spec fn spec_try_new(
        scan_type: ScanType,
        interval: ScanInterval,
        window: ScanWindow,
        own_address_type: OwnAddressType,
        filter_policy: ScanningFilterPolicy,
    ) -> Result<ScanParameters, Error> {
        if window.spec_value() <= interval.spec_value() {
            Ok(ScanParameters { scan_type, interval, window, own_address_type, filter_policy })
        } else {
            Err(Error::ScanWindowMustBeSmallerOrEqualToScanInterval)
        }
    }

    /// `try_new` succeeds exactly when the scan window is not longer than the scan interval, with
    /// parameters holding the given fields, and fails with the window error otherwise.
    pub proof fn lemma_spec_try_new(
        scan_type: ScanType,
        interval: ScanInterval,
        window: ScanWindow,
        own_address_type: OwnAddressType,
        filter_policy: ScanningFilterPolicy,
    )
        ensures
            ({
                let r = ScanParameters::spec_try_new(
                    scan_type,
                    interval,
                    window,
                    own_address_type,
                    filter_policy,
                );
                &&& r is Ok <==> window.spec_value() <= interval.spec_value()
                &&& r matches Ok(p) ==> {
                    &&& p.spec_scan_type() == scan_type
                    &&& p.spec_interval() == interval
                    &&& p.spec_window() == window
                    &&& p.spec_own_address_type() == own_address_type
                    &&& p.spec_filter_policy() == filter_policy
                }
                &&& r is Err ==> r == Err::<ScanParameters, Error>(
                    Error::ScanWindowMustBeSmallerOrEqualToScanInterval,
                )
            }),
    {
    }

    /// Creates scan parameters, checking that the scan window is not longer than the scan interval.
    pub fn try_new(
        scan_type: ScanType,
        interval: ScanInterval,
        window: ScanWindow,
        own_address_type: OwnAddressType,
        filter_policy: ScanningFilterPolicy,
    ) -> (r: Result<ScanParameters, Error>)
        ensures
            r == ScanParameters::spec_try_new(
                scan_type,
                interval,
                window,
                own_address_type,
                filter_policy,
            ),
            r is Ok <==> window.spec_value() <= interval.spec_value(),
            r matches Ok(p) ==> {
                &&& p.spec_scan_type() == scan_type
                &&& p.spec_interval() == interval
                &&& p.spec_window() == window
                &&& p.spec_own_address_type() == own_address_type
                &&& p.spec_filter_policy() == filter_policy
            },
            r is Err ==> r == Err::<ScanParameters, Error>(
                Error::ScanWindowMustBeSmallerOrEqualToScanInterval,
            ),
    {
        if window.value() <= interval.value() {
            Ok(ScanParameters { scan_type, interval, window, own_address_type, filter_policy })
        } else {
            Err(Error::ScanWindowMustBeSmallerOrEqualToScanInterval)
        }
    }

    /// The scanning filter policy.
    pub fn filter_policy(&self) -> (r: ScanningFilterPolicy)
        ensures
            r == self.spec_filter_policy(),
    {
        self.filter_policy
    }

    /// The scan interval.
    pub fn interval(&self) -> (r: ScanInterval)
        ensures
            r == self.spec_interval(),
    {
        self.interval
    }

    /// Our own address type.
    pub fn own_address_type(&self) -> (r: OwnAddressType)
        ensures
            r == self.spec_own_address_type(),
    {
        self.own_address_type
    }

    /// The scan type.
    pub fn scan_type(&self) -> (r: ScanType)
        ensures
            r == self.spec_scan_type(),
    {
        self.scan_type
    }

    /// The scan window.
    pub fn window(&self) -> (r: ScanWindow)
        ensures
            r == self.spec_window(),
    {
        self.window
    }

    /// The outcome of parsing the parameters of an LE Set Scan Parameters command: exactly seven
    /// bytes, each field valid and the window no longer than the interval.
    pub open spec fn spec_parse(s: Seq<u8>) -> Option<ScanParameters> {
        let t = ScanType::spec_try_from_u8(s[0]);
        let i = ScanInterval::spec_try_new(spec_u16_from_le(s[1], s[2]));
        let w = ScanWindow::spec_try_new(spec_u16_from_le(s[3], s[4]));
        let o = OwnAddressType::spec_try_from_u8(s[5]);
        let f = ScanningFilterPolicy::spec_try_from_u8(s[6]);
        if s.len() == 7 && t is Ok && i is Ok && w is Ok && o is Ok && f is Ok {
            match ScanParameters::spec_try_new(t->Ok_0, i->Ok_0, w->Ok_0, o->Ok_0, f->Ok_0) {
                Ok(p) => Some(p),
                Err(_) => None,
            }
        } else {
            None
        }
    }

    /// Parses the parameters of an LE Set Scan Parameters command.
    pub fn parse(input: &[u8]) -> (r: Option<ScanParameters>)
        ensures
            r == ScanParameters::spec_parse(input@),
    {
        if input.len() != 7 {
            return None;
        }
        let t = match ScanType::try_from_u8(input[0]) {
            Ok(v) => v,
            Err(_) => return None,
        };
        let i = match ScanInterval::try_new(read_u16_le(input, 1)) {
            Ok(v) => v,
            Err(_) => return None,
        };
        let w = match ScanWindow::try_new(read_u16_le(input, 3)) {
            Ok(v) => v,
            Err(_) => return None,
        };
        let o = match OwnAddressType::try_from_u8(input[5]) {
            Ok(v) => v,
            Err(_) => return None,
        };
        let f = match ScanningFilterPolicy::try_from_u8(input[6]) {
            Ok(v) => v,
            Err(_) => return None,
        };
        match ScanParameters::try_new(t, i, w, o, f) {
            Ok(p) => Some(p),
            Err(_) => None,
        }
    }

    /// Parsing the encoding of well-formed scan parameters gives them back.
    pub proof fn lemma_parse_encode(self)
        requires
            self.wf(),
        ensures
            ScanParameters::spec_parse(self.spec_encode()) == Some(self),
    {
        let s = self.spec_encode();
        self.scan_type.lemma_try_from_to_u8();
        self.own_address_type.lemma_try_from_to_u8();
        self.filter_policy.lemma_try_from_to_u8();
        lemma_u16_le_roundtrip(self.interval.spec_value());
        lemma_u16_le_roundtrip(self.window.spec_value());
        self.interval.lemma_try_new_spec_value();
        self.window.lemma_try_new_spec_value();
        assert(s[1] == spec_u16_le_bytes(self.interval.spec_value())[0]);
        assert(s[2] == spec_u16_le_bytes(self.interval.spec_value())[1]);
        assert(s[3] == spec_u16_le_bytes(self.window.spec_value())[0]);
        assert(s[4] == spec_u16_le_bytes(self.window.spec_value())[1]);
    }

    /// Parameters parsed from bytes are well-formed and encode to those bytes.
    pub proof fn lemma_encode_parse(s: Seq<u8>)
        ensures
            ScanParameters::spec_parse(s) matches Some(p) ==> p.wf() && p.spec_encode() == s,
    {
        if let Some(p) = ScanParameters::spec_parse(s) {
            ScanType::lemma_try_from_u8_to_u8(s[0]);
            OwnAddressType::lemma_try_from_u8_to_u8(s[5]);
            ScanningFilterPolicy::lemma_try_from_u8_to_u8(s[6]);
            ScanInterval::lemma_spec_try_new_value(spec_u16_from_le(s[1], s[2]));
            ScanWindow::lemma_spec_try_new_value(spec_u16_from_le(s[3], s[4]));
            lemma_u16_le_bytes_roundtrip(s[1], s[2]);
            lemma_u16_le_bytes_roundtrip(s[3], s[4]);
            assert(p.spec_encode() =~= s);
        }
    }
}

impl Default for ScanParameters {
    fn default() -> (r: ScanParameters)
        ensures
            r.spec_scan_type() == ScanType::PassiveScanning,
            r.spec_interval().spec_value() == 0x0010,
            r.spec_window().spec_value() == 0x0010,
            r.spec_own_address_type() == OwnAddressType::PublicDeviceAddress,
            r.spec_filter_policy() == ScanningFilterPolicy::BasicUnfiltered,
            r.wf(),
    {
        ScanParameters {
            scan_type: ScanType::default(),
            interval: ScanInterval::default(),
            window: ScanWindow::default(),
            own_address_type: OwnAddressType::default(),
            filter_policy: ScanningFilterPolicy::default(),
        }
    }
}

impl EncodeToBuffer for ScanParameters {
    open spec fn spec_encode(&self) -> Seq<u8> {
        seq![self.spec_scan_type().spec_to_u8()] + self.spec_interval().spec_encode()
            + self.spec_window().spec_encode() + seq![self.spec_own_address_type().spec_to_u8()]
            + seq![self.spec_filter_policy().spec_to_u8()]
    }

    fn encode(&self, buffer: &mut Vec<u8>) -> (n: usize) {
        let ghost start = buffer@;
        self.scan_type.encode(buffer);
        self.interval.encode(buffer);
        self.window.encode(buffer);
        self.own_address_type.encode(buffer);
        self.filter_policy.encode(buffer);
        assert(buffer@ =~= start + self.spec_encode());
        7
    }

    fn encoded_size(&self) -> (n: usize) {
        7
    }
}

impl ScanType {
    /// The value of each variant in HCI packets, and the variant each value names.
    pub proof fn lemma_values()
        ensures
            ScanType::PassiveScanning.spec_to_u8() == 0x00,
            ScanType::spec_try_from_u8(0x00) == Ok::<ScanType, Error>(ScanType::PassiveScanning),
            ScanType::ActiveScanning.spec_to_u8() == 0x01,
            ScanType::spec_try_from_u8(0x01) == Ok::<ScanType, Error>(ScanType::ActiveScanning),
    {
        ScanType::PassiveScanning.lemma_try_from_to_u8();
        ScanType::ActiveScanning.lemma_try_from_to_u8();
    }
}

impl ScanningFilterPolicy {
    /// The value of each variant in HCI packets, and the variant each value names.
    pub proof fn lemma_values()
        ensures
            ScanningFilterPolicy::BasicUnfiltered.spec_to_u8() == 0x00,
            ScanningFilterPolicy::spec_try_from_u8(0x00) == Ok::<ScanningFilterPolicy, Error>(ScanningFilterPolicy::BasicUnfiltered),
            ScanningFilterPolicy::BasicFiltered.spec_to_u8() == 0x01,
            ScanningFilterPolicy::spec_try_from_u8(0x01) == Ok::<ScanningFilterPolicy, Error>(ScanningFilterPolicy::BasicFiltered),
            ScanningFilterPolicy::ExtendedUnfiltered.spec_to_u8() == 0x02,
            ScanningFilterPolicy::spec_try_from_u8(0x02) == Ok::<ScanningFilterPolicy, Error>(ScanningFilterPolicy::ExtendedUnfiltered),
            ScanningFilterPolicy::ExtendedFiltered.spec_to_u8() == 0x03,
            ScanningFilterPolicy::spec_try_from_u8(0x03) == Ok::<ScanningFilterPolicy, Error>(ScanningFilterPolicy::ExtendedFiltered),
    {
        ScanningFilterPolicy::BasicUnfiltered.lemma_try_from_to_u8();
        ScanningFilterPolicy::BasicFiltered.lemma_try_from_to_u8();
        ScanningFilterPolicy::ExtendedUnfiltered.lemma_try_from_to_u8();
        ScanningFilterPolicy::ExtendedFiltered.lemma_try_from_to_u8();
    }
}

} // verus!
