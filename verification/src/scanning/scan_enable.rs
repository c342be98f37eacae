//! Enable/disable scanning and duplicate filtering.
use vstd::prelude::*;

use crate::encode::EncodeToBuffer;
use crate::error::Error;

verus! {

/// Enable/disable scan.
///
/// See Core Specification 6.0, Vol.4, Part E, 7.8.11.
#[derive(Debug, Clone, Copy, PartialEq, Eq, Structural)]
#[non_exhaustive]
pub enum ScanEnable {
    /// Scanning is disabled (default).
    Disabled,
    /// Scanning is enabled.
    Enabled,
}

impl ScanEnable {
    /// The value of this variant in HCI packets.
    pub open spec fn spec_to_u8(self) -> u8 {
        match self {
            ScanEnable::Disabled => 0x00,
            ScanEnable::Enabled => 0x01,
        }
    }

    /// The values that name a variant.
    pub open spec fn spec_is_valid_u8(v: u8) -> bool {
        v <= 0x01
    }

    /// The variant named by `v`, or the error reporting that `v` names none.
    pub open spec fn spec_try_from_u8(v: u8) -> Result<ScanEnable, Error> {
        if ScanEnable::spec_is_valid_u8(v) {
            Ok(choose|e: ScanEnable| e.spec_to_u8() == v)
        } else {
            Err(Error::InvalidScanEnableValue(v))
        }
    }

    /// The value of this variant in HCI packets.
    pub fn to_u8(self) -> (r: u8)
        ensures
            r == self.spec_to_u8(),
    {
        match self {
            ScanEnable::Disabled => 0x00,
            ScanEnable::Enabled => 0x01,
        }
    }

    /// Converts a value of an HCI packet into a variant.
    pub fn try_from_u8(v: u8) -> (r: Result<ScanEnable, Error>)
        ensures
            r == ScanEnable::spec_try_from_u8(v),
            r is Ok <==> ScanEnable::spec_is_valid_u8(v),
            r matches Ok(e) ==> e.spec_to_u8() == v,
            r is Err ==> r == Err::<ScanEnable, Error>(Error::InvalidScanEnableValue(v)),
    {
        let r = match v {
            0x00 => Ok(ScanEnable::Disabled),
            0x01 => Ok(ScanEnable::Enabled),
            _ => Err(Error::InvalidScanEnableValue(v)),
        };
        proof {
            if let Ok(e) = r {
                ScanEnable::lemma_to_u8_injective(e, choose|d: ScanEnable| d.spec_to_u8() == v);
            }
        }
        r
    }

    /// Distinct variants have distinct values.
    pub proof fn lemma_to_u8_injective(a: ScanEnable, b: ScanEnable)
        ensures
            a.spec_to_u8() == b.spec_to_u8() ==> a == b,
    {
    }

    /// A value that names a variant names a variant with that value.
    pub proof fn lemma_try_from_u8_to_u8(v: u8)
        requires
            ScanEnable::spec_is_valid_u8(v),
        ensures
            ScanEnable::spec_try_from_u8(v) is Ok,
            (ScanEnable::spec_try_from_u8(v)->Ok_0).spec_to_u8() == v,
    {
        if v == 0x00 {
            assert(ScanEnable::Disabled.spec_to_u8() == v);
        } else if v == 0x01 {
            assert(ScanEnable::Enabled.spec_to_u8() == v);
        }
    }

    /// Converting the value of a variant gives the variant back.
    pub proof fn lemma_try_from_to_u8(self)
        ensures
            ScanEnable::spec_try_from_u8(self.spec_to_u8()) == Ok::<ScanEnable, Error>(self),
    {
        ScanEnable::lemma_to_u8_injective(self, choose|d: ScanEnable| d.spec_to_u8() == self.spec_to_u8());
    }
}

impl Default for ScanEnable {
    fn default() -> (r: ScanEnable)
        ensures
            r == ScanEnable::Disabled,
    {
        ScanEnable::Disabled
    }
}

impl TryFrom<u8> for ScanEnable {
    type Error = Error;

    fn try_from(value: u8) -> Result<ScanEnable, Error> {
        ScanEnable::try_from_u8(value)
    }
}

impl vstd::std_specs::convert::TryFromSpecImpl<u8> for ScanEnable {
    open spec fn obeys_try_from_spec() -> bool {
        true
    }

    open spec fn try_from_spec(v: u8) -> Result<ScanEnable, Error> {
        ScanEnable::spec_try_from_u8(v)
    }
}

impl From<ScanEnable> for u8 {
    fn from(value: ScanEnable) -> u8 {
        value.to_u8()
    }
}

impl vstd::std_specs::convert::FromSpecImpl<ScanEnable> for u8 {
    open spec fn obeys_from_spec() -> bool {
        true
    }

    open spec fn from_spec(v: ScanEnable) -> u8 {
        v.spec_to_u8()
    }
}

impl EncodeToBuffer for ScanEnable {
    open spec fn spec_encode(&self) -> Seq<u8> {
        seq![self.spec_to_u8()]
    }

    fn encode(&self, buffer: &mut Vec<u8>) -> (n: usize) {
        buffer.push(self.to_u8());
        1
    }

    fn encoded_size(&self) -> (n: usize) {
        1
    }
}

/// Filter out duplicate advertising reports.
///
/// See Core Specification 6.0, Vol.4, Part E, 7.8.11.
#[derive(Debug, Clone, Copy, PartialEq, Eq, Structural)]
#[non_exhaustive]
pub enum FilterDuplicates {
    /// Duplicate filtering is disabled (default).
    Disabled,
    /// Duplicate filtering is enabled.
    Enabled,
}

impl FilterDuplicates {
    /// The value of this variant in HCI packets.
    pub open spec fn spec_to_u8(self) -> u8 {
        match self {
            FilterDuplicates::Disabled => 0x00,
            FilterDuplicates::Enabled => 0x01,
        }
    }

    /// The values that name a variant.
    pub open spec fn spec_is_valid_u8(v: u8) -> bool {
        v <= 0x01
    }

    /// The variant named by `v`, or the error reporting that `v` names none.
    pub open spec fn spec_try_from_u8(v: u8) -> Result<FilterDuplicates, Error> {
        if FilterDuplicates::spec_is_valid_u8(v) {
            Ok(choose|e: FilterDuplicates| e.spec_to_u8() == v)
        } else {
            Err(Error::InvalidFilterDuplicatesValue(v))
        }
    }

    /// The value of this variant in HCI packets.
    pub fn to_u8(self) -> (r: u8)
        ensures
            r == self.spec_to_u8(),
    {
        match self {
            FilterDuplicates::Disabled => 0x00,
            FilterDuplicates::Enabled => 0x01,
        }
    }

    /// Converts a value of an HCI packet into a variant.
    pub fn try_from_u8(v: u8) -> (r: Result<FilterDuplicates, Error>)
        ensures
            r == FilterDuplicates::spec_try_from_u8(v),
            r is Ok <==> FilterDuplicates::spec_is_valid_u8(v),
            r matches Ok(e) ==> e.spec_to_u8() == v,
            r is Err ==> r == Err::<FilterDuplicates, Error>(Error::InvalidFilterDuplicatesValue(v)),
    {
        let r = match v {
            0x00 => Ok(FilterDuplicates::Disabled),
            0x01 => Ok(FilterDuplicates::Enabled),
            _ => Err(Error::InvalidFilterDuplicatesValue(v)),
        };
        proof {
            if let Ok(e) = r {
                FilterDuplicates::lemma_to_u8_injective(e, choose|d: FilterDuplicates| d.spec_to_u8() == v);
            }
        }
        r
    }

    /// Distinct variants have distinct values.
    pub proof fn lemma_to_u8_injective(a: FilterDuplicates, b: FilterDuplicates)
        ensures
            a.spec_to_u8() == b.spec_to_u8() ==> a == b,
    {
    }

    /// A value that names a variant names a variant with that value.
    pub proof fn lemma_try_from_u8_to_u8(v: u8)
        requires
            FilterDuplicates::spec_is_valid_u8(v),
        ensures
            FilterDuplicates::spec_try_from_u8(v) is Ok,
            (FilterDuplicates::spec_try_from_u8(v)->Ok_0).spec_to_u8() == v,
    {
        if v == 0x00 {
            assert(FilterDuplicates::Disabled.spec_to_u8() == v);
        } else if v == 0x01 {
            assert(FilterDuplicates::Enabled.spec_to_u8() == v);
        }
    }

    /// Converting the value of a variant gives the variant back.
    pub proof fn lemma_try_from_to_u8(self)
        ensures
            FilterDuplicates::spec_try_from_u8(self.spec_to_u8()) == Ok::<FilterDuplicates, Error>(self),
    {
        FilterDuplicates::lemma_to_u8_injective(self, choose|d: FilterDuplicates| d.spec_to_u8() == self.spec_to_u8());
    }
}

impl Default for FilterDuplicates {
    fn default() -> (r: FilterDuplicates)
        ensures
            r == FilterDuplicates::Disabled,
    {
        FilterDuplicates::Disabled
    }
}

impl TryFrom<u8> for FilterDuplicates {
    type Error = Error;

    fn try_from(value: u8) -> Result<FilterDuplicates, Error> {
        FilterDuplicates::try_from_u8(value)
    }
}

impl vstd::std_specs::convert::TryFromSpecImpl<u8> for FilterDuplicates {
    open spec fn obeys_try_from_spec() -> bool {
        true
    }

    open spec fn try_from_spec(v: u8) -> Result<FilterDuplicates, Error> {
        FilterDuplicates::spec_try_from_u8(v)
    }
}

impl From<FilterDuplicates> for u8 {
    fn from(value: FilterDuplicates) -> u8 {
        value.to_u8()
    }
}

impl vstd::std_specs::convert::FromSpecImpl<FilterDuplicates> for u8 {
    open spec fn obeys_from_spec() -> bool {
        true
    }

    open spec fn from_spec(v: FilterDuplicates) -> u8 {
        v.spec_to_u8()
    }
}

impl EncodeToBuffer for FilterDuplicates {
    open spec fn spec_encode(&self) -> Seq<u8> {
        seq![self.spec_to_u8()]
    }

    fn encode(&self, buffer: &mut Vec<u8>) -> (n: usize) {
        buffer.push(self.to_u8());
        1
    }

    fn encoded_size(&self) -> (n: usize) {
        1
    }
}

impl ScanEnable {
    /// The value of each variant in HCI packets, and the variant each value names.
    pub proof fn lemma_values()
        ensures
            ScanEnable::Disabled.spec_to_u8() == 0x00,
            ScanEnable::spec_try_from_u8(0x00) == Ok::<ScanEnable, Error>(ScanEnable::Disabled),
            ScanEnable::Enabled.spec_to_u8() == 0x01,
            ScanEnable::spec_try_from_u8(0x01) == Ok::<ScanEnable, Error>(ScanEnable::Enabled),
    {
        ScanEnable::Disabled.lemma_try_from_to_u8();
        ScanEnable::Enabled.lemma_try_from_to_u8();
    }
}

impl FilterDuplicates {
    /// The value of each variant in HCI packets, and the variant each value names.
    pub proof fn lemma_values()
        ensures
            FilterDuplicates::Disabled.spec_to_u8() == 0x00,
            FilterDuplicates::spec_try_from_u8(0x00) == Ok::<FilterDuplicates, Error>(FilterDuplicates::Disabled),
            FilterDuplicates::Enabled.spec_to_u8() == 0x01,
            FilterDuplicates::spec_try_from_u8(0x01) == Ok::<FilterDuplicates, Error>(FilterDuplicates::Enabled),
    {
        FilterDuplicates::Disabled.lemma_try_from_to_u8();
        FilterDuplicates::Enabled.lemma_try_from_to_u8();
    }
}

} // verus!
