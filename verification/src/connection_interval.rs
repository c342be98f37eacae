//! Connection interval values that may be left undefined.
use vstd::prelude::*;

use core::cmp::Ordering;

use crate::error::Error;

verus! {

/// The content of a connection interval: a defined value or no value.
#[derive(Debug, Clone, Copy, Eq)]
pub enum ConnectionIntervalType {
    Defined(u16),
    Undefined,
}

/// Whether two connection interval contents are equal: only two defined values can be, when
/// they are the same value.
pub open spec fn spec_type_eq(a: ConnectionIntervalType, b: ConnectionIntervalType) -> bool {
    match (a, b) {
        (ConnectionIntervalType::Defined(v1), ConnectionIntervalType::Defined(v2)) => v1 == v2,
        _ => false,
    }
}

/// How two connection interval contents compare: two defined values by their values; any
/// comparison that involves an undefined value gives `Less`.
pub open spec fn type_ordering(a: ConnectionIntervalType, b: ConnectionIntervalType) -> Option<Ordering> {
    match (a, b) {
        (ConnectionIntervalType::Defined(v1), ConnectionIntervalType::Defined(v2)) => {
            if v1 < v2 {
                Some(Ordering::Less)
            } else if v1 == v2 {
                Some(Ordering::Equal)
            } else {
                Some(Ordering::Greater)
            }
        },
        _ => Some(Ordering::Less),
    }
}

fn type_partial_cmp(a: &ConnectionIntervalType, b: &ConnectionIntervalType) -> (r: Option<Ordering>)
    ensures
        r == type_ordering(*a, *b),
{
    match (a, b) {
        (ConnectionIntervalType::Defined(v1), ConnectionIntervalType::Defined(v2)) => {
            if *v1 < *v2 {
                Some(Ordering::Less)
            } else if *v1 == *v2 {
                Some(Ordering::Equal)
            } else {
                Some(Ordering::Greater)
            }
        },
        _ => Some(Ordering::Less),
    }
}

fn type_eq(a: &ConnectionIntervalType, b: &ConnectionIntervalType) -> (r: bool)
    ensures
        r == spec_type_eq(*a, *b),
{
    match (a, b) {
        (ConnectionIntervalType::Defined(v1), ConnectionIntervalType::Defined(v2)) => *v1 == *v2,
        _ => false,
    }
}

impl PartialEq for ConnectionIntervalType {
    fn eq(&self, other: &ConnectionIntervalType) -> (r: bool) {
        type_eq(self, other)
    }
}

impl vstd::std_specs::cmp::PartialEqSpecImpl for ConnectionIntervalType {
    open spec fn obeys_eq_spec() -> bool {
        true
    }

    open spec fn eq_spec(&self, other: &ConnectionIntervalType) -> bool {
        spec_type_eq(*self, *other)
    }
}

impl PartialOrd for ConnectionIntervalType {
    fn partial_cmp(&self, other: &ConnectionIntervalType) -> (r: Option<Ordering>) {
        type_partial_cmp(self, other)
    }
}

impl vstd::std_specs::cmp::PartialOrdSpecImpl for ConnectionIntervalType {
    open spec fn obeys_partial_cmp_spec() -> bool {
        true
    }

    open spec fn partial_cmp_spec(&self, other: &ConnectionIntervalType) -> Option<Ordering> {
        type_ordering(*self, *other)
    }
}

/// Value to be used in a connection interval range.
///
/// Range: 0x0006 to 0x0C80 if specified; can be unspecified. Time = N × 1.25 ms (7.5 ms to 4 s).
///
/// An undefined connection interval is equal to no connection interval, itself included, and
/// compares as less than any connection interval, which compares as less than it.
#[derive(Debug, Clone, Copy, Eq)]
pub struct ConnectionInterval {
    value: ConnectionIntervalType,
}

impl ConnectionInterval {
    /// The content of the connection interval.
    pub closed spec fn spec_kind(self) -> ConnectionIntervalType {
        self.value
    }

    /// The raw value of the connection interval: its value, or 0xFFFF where it is undefined.
    pub open spec fn spec_to_u16(self) -> u16 {
        match self.spec_kind() {
            ConnectionIntervalType::Defined(v) => v,
            ConnectionIntervalType::Undefined => 0xFFFF,
        }
    }

    /// The values accepted by `try_new`.
    pub open spec fn spec_is_valid(value: u16) -> bool {
        0x0006 <= value <= 0x0C80
    }

    /// Well-formedness: a defined value is in the valid range.
    pub open spec fn wf(self) -> bool {
        match self.spec_kind() {
            ConnectionIntervalType::Defined(v) => ConnectionInterval::spec_is_valid(v),
            ConnectionIntervalType::Undefined => true,
        }
    }

    /// The outcome of `try_new`.
    pub open spec fn spec_try_new(value: u16) -> Result<ConnectionInterval, Error> {
        if ConnectionInterval::spec_is_valid(value) {
            Ok(ConnectionInterval::spec_defined(value))
        } else {
            Err(Error::InvalidConnectionIntervalValue(value))
        }
    }

    /// The connection interval with a defined value.
    pub closed spec fn spec_defined(value: u16) -> ConnectionInterval {
        ConnectionInterval { value: ConnectionIntervalType::Defined(value) }
    }

    /// The undefined connection interval.
    pub closed spec fn spec_undefined() -> ConnectionInterval {
        ConnectionInterval { value: ConnectionIntervalType::Undefined }
    }

    /// Creates a connection interval with a defined value, checking its range.
    pub fn try_new(value: u16) -> (r: Result<ConnectionInterval, Error>)
        ensures
            r == ConnectionInterval::spec_try_new(value),
            r matches Ok(v) ==> v.spec_kind() == ConnectionIntervalType::Defined(value) && v.wf(),
    {
        if (value >= 0x0006) && (value <= 0x0C80) {
            Ok(ConnectionInterval { value: ConnectionIntervalType::Defined(value) })
        } else {
            Err(Error::InvalidConnectionIntervalValue(value))
        }
    }

    /// Creates an undefined connection interval.
    pub fn undefined() -> (r: ConnectionInterval)
        ensures
            r == ConnectionInterval::spec_undefined(),
            r.spec_kind() == ConnectionIntervalType::Undefined,
    {
        ConnectionInterval { value: ConnectionIntervalType::Undefined }
    }

    /// The raw value of the connection interval: its value, or 0xFFFF where it is undefined.
    pub fn to_u16(&self) -> (r: u16)
        ensures
            r == self.spec_to_u16(),
    {
        match self.value {
            ConnectionIntervalType::Defined(v) => v,
            ConnectionIntervalType::Undefined => 0xFFFF,
        }
    }

    /// Whether two connection intervals are equal.
    pub open spec fn spec_eq(a: ConnectionInterval, b: ConnectionInterval) -> bool {
        spec_type_eq(a.spec_kind(), b.spec_kind())
    }

    /// How two connection intervals compare.
    pub open spec fn interval_ordering(a: ConnectionInterval, b: ConnectionInterval) -> Option<Ordering> {
        type_ordering(a.spec_kind(), b.spec_kind())
    }

    /// The raw value of a defined well-formed connection interval is not 0xFFFF, so the raw value
    /// tells a defined interval from an undefined one.
    pub proof fn lemma_to_u16_defined(self)
        requires
            self.wf(),
        ensures
            (self.spec_to_u16() == 0xFFFF) <==> (self.spec_kind() == ConnectionIntervalType::Undefined),
    {
    }
}

impl PartialEq for ConnectionInterval {
    fn eq(&self, other: &ConnectionInterval) -> (r: bool) {
        type_eq(&self.value, &other.value)
    }
}

impl vstd::std_specs::cmp::PartialEqSpecImpl for ConnectionInterval {
    open spec fn obeys_eq_spec() -> bool {
        true
    }

    open spec fn eq_spec(&self, other: &ConnectionInterval) -> bool {
        ConnectionInterval::spec_eq(*self, *other)
    }
}

impl PartialOrd for ConnectionInterval {
    fn partial_cmp(&self, other: &ConnectionInterval) -> (r: Option<Ordering>) {
        type_partial_cmp(&self.value, &other.value)
    }
}

impl vstd::std_specs::cmp::PartialOrdSpecImpl for ConnectionInterval {
    open spec fn obeys_partial_cmp_spec() -> bool {
        true
    }

    open spec fn partial_cmp_spec(&self, other: &ConnectionInterval) -> Option<Ordering> {
        ConnectionInterval::interval_ordering(*self, *other)
    }
}

impl Default for ConnectionInterval {
    fn default() -> (r: ConnectionInterval)
        ensures
            r.spec_kind() == ConnectionIntervalType::Undefined,
    {
        ConnectionInterval::undefined()
    }
}

impl TryFrom<u16> for ConnectionInterval {
    type Error = Error;

    fn try_from(value: u16) -> Result<ConnectionInterval, Error> {
        ConnectionInterval::try_new(value)
    }
}

impl vstd::std_specs::convert::TryFromSpecImpl<u16> for ConnectionInterval {
    open spec fn obeys_try_from_spec() -> bool {
        true
    }

    open spec fn try_from_spec(v: u16) -> Result<ConnectionInterval, Error> {
        ConnectionInterval::spec_try_new(v)
    }
}

impl From<ConnectionInterval> for u16 {
    fn from(value: ConnectionInterval) -> u16 {
        value.to_u16()
    }
}

impl vstd::std_specs::convert::FromSpecImpl<ConnectionInterval> for u16 {
    open spec fn obeys_from_spec() -> bool {
        true
    }

    open spec fn from_spec(v: ConnectionInterval) -> u16 {
        v.spec_to_u16()
    }
}

} // verus!
