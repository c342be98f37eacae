//! Scan window.
use vstd::prelude::*;

use crate::bytes::{push_u16_le, spec_u16_le_bytes};
use crate::encode::EncodeToBuffer;
use crate::error::Error;
use crate::scan_interval::ScanInterval;
use core::cmp::Ordering;

verus! {

/// Scan window.
///
/// The duration of the LE scan.
///
/// Range: 0x0004 to 0x4000, default 0x0010 (10 ms), Time = N × 0.625 ms (2.5 ms to 10.24 s).
///
/// See Core Specification 6.0, Vol.4, Part E, 7.8.10.
#[derive(Debug, Clone, Copy, PartialEq, Eq, Structural, PartialOrd, Ord)]
pub struct ScanWindow {
    value: u16,
}

impl ScanWindow {
    /// The values accepted by `try_new`.
    pub open spec fn spec_is_valid(value: u16) -> bool {
        0x0004 <= value <= 0x4000
    }

    /// The raw value.
    pub closed spec fn spec_value(self) -> u16 {
        self.value
    }

    /// Well-formedness: the raw value is in the valid range.
    pub open spec fn wf(self) -> bool {
        ScanWindow::spec_is_valid(self.spec_value())
    }

    /// The outcome of `try_new`.
    pub closed spec fn spec_try_new(value: u16) -> Result<ScanWindow, Error> {
        if ScanWindow::spec_is_valid(value) {
            Ok(ScanWindow { value })
        } else {
            Err(Error::InvalidScanWindow(value))
        }
    }

    /// Creates a valid value, checking its range.
    pub fn try_new(value: u16) -> (r: Result<ScanWindow, Error>)
        ensures
            r == ScanWindow::spec_try_new(value),
            r is Ok <==> ScanWindow::spec_is_valid(value),
            r matches Ok(v) ==> v.spec_value() == value && v.wf(),
            r is Err ==> r == Err::<ScanWindow, Error>(Error::InvalidScanWindow(value)),
    {
        if 0x0004 <= value && value <= 0x4000 {
            Ok(ScanWindow { value })
        } else {
            Err(Error::InvalidScanWindow(value))
        }
    }

    /// The raw value.
    pub fn value(&self) -> (r: u16)
        ensures
            r == self.spec_value(),
    {
        self.value
    }

    /// Values are determined by their raw value.
    pub proof fn lemma_spec_value_injective(a: ScanWindow, b: ScanWindow)
        ensures
            a.spec_value() == b.spec_value() ==> a == b,
    {
    }

    /// The raw value of a value made by `try_new` is the value given.
    pub proof fn lemma_spec_try_new_value(value: u16)
        ensures
            ScanWindow::spec_try_new(value) is Ok <==> ScanWindow::spec_is_valid(value),
            ScanWindow::spec_try_new(value) is Ok ==> (ScanWindow::spec_try_new(value)->Ok_0).spec_value() == value,
            ScanWindow::spec_try_new(value) is Err ==> ScanWindow::spec_try_new(value) == Err::<ScanWindow, Error>(Error::InvalidScanWindow(value)),
    {
    }

    /// `try_new` of the raw value of a well-formed value gives that value back.
    pub proof fn lemma_try_new_spec_value(self)
        requires
            self.wf(),
        ensures
            ScanWindow::spec_try_new(self.spec_value()) == Ok::<ScanWindow, Error>(self),
    {
    }
}

impl Default for ScanWindow {
    fn default() -> (r: ScanWindow)
        ensures
            r.spec_value() == 0x0010,
            r.wf(),
    {
        ScanWindow { value: 0x0010 }
    }
}

impl TryFrom<u16> for ScanWindow {
    type Error = Error;

    fn try_from(value: u16) -> Result<ScanWindow, Error> {
        ScanWindow::try_new(value)
    }
}

impl vstd::std_specs::convert::TryFromSpecImpl<u16> for ScanWindow {
    open spec fn obeys_try_from_spec() -> bool {
        true
    }

    open spec fn try_from_spec(v: u16) -> Result<ScanWindow, Error> {
        ScanWindow::spec_try_new(v)
    }
}

impl EncodeToBuffer for ScanWindow {
    open spec fn spec_encode(&self) -> Seq<u8> {
        spec_u16_le_bytes(self.spec_value())
    }

    fn encode(&self, buffer: &mut Vec<u8>) -> (n: usize) {
        push_u16_le(buffer, self.value);
        2
    }

    fn encoded_size(&self) -> (n: usize) {
        2
    }
}

impl PartialEq<ScanInterval> for ScanWindow {
    fn eq(&self, other: &ScanInterval) -> (r: bool) {
        self.value == other.value()
    }
}

impl vstd::std_specs::cmp::PartialEqSpecImpl<ScanInterval> for ScanWindow {
    open spec fn obeys_eq_spec() -> bool {
        true
    }

    open spec fn eq_spec(&self, other: &ScanInterval) -> bool {
        self.spec_value() == other.spec_value()
    }
}

impl PartialOrd<ScanInterval> for ScanWindow {
    fn partial_cmp(&self, other: &ScanInterval) -> (r: Option<Ordering>) {
        let a = self.value;
        let b = other.value();
        if a < b {
            Some(Ordering::Less)
        } else if a == b {
            Some(Ordering::Equal)
        } else {
            Some(Ordering::Greater)
        }
    }
}

impl vstd::std_specs::cmp::PartialOrdSpecImpl<ScanInterval> for ScanWindow {
    open spec fn obeys_partial_cmp_spec() -> bool {
        true
    }

    open spec fn partial_cmp_spec(&self, other: &ScanInterval) -> Option<Ordering> {
        if self.spec_value() < other.spec_value() {
            Some(Ordering::Less)
        } else if self.spec_value() == other.spec_value() {
            Some(Ordering::Equal)
        } else {
            Some(Ordering::Greater)
        }
    }
}

} // verus!
