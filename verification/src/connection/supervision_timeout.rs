//! Supervision timeout.
use vstd::prelude::*;

use crate::bytes::{push_u16_le, spec_u16_le_bytes};
use crate::encode::EncodeToBuffer;
use crate::error::Error;

verus! {

/// Supervision timeout for the LE Link.
///
/// Range: 0x000A to 0x0C80, default 0x0020, Time = N × 10 ms (100 ms to 32 s).
///
/// See Core Specification 6.0, Vol.4, Part E, 7.8.12.
#[derive(Debug, Clone, Copy, PartialEq, Eq, Structural, PartialOrd, Ord)]
pub struct SupervisionTimeout {
    value: u16,
}

impl SupervisionTimeout {
    /// The values accepted by `try_new`.
    pub open spec fn spec_is_valid(value: u16) -> bool {
        0x000A <= value <= 0x0C80
    }

    /// The raw value.
    pub closed spec fn spec_value(self) -> u16 {
        self.value
    }

    /// Well-formedness: the raw value is in the valid range.
    pub open spec fn wf(self) -> bool {
        SupervisionTimeout::spec_is_valid(self.spec_value())
    }

    /// The outcome of `try_new`.
    pub closed spec fn spec_try_new(value: u16) -> Result<SupervisionTimeout, Error> {
        if SupervisionTimeout::spec_is_valid(value) {
            Ok(SupervisionTimeout { value })
        } else {
            Err(Error::InvalidSupervisionTimeout(value))
        }
    }

    /// Creates a valid value, checking its range.
    pub fn try_new(value: u16) -> (r: Result<SupervisionTimeout, Error>)
        ensures
            r == SupervisionTimeout::spec_try_new(value),
            r is Ok <==> SupervisionTimeout::spec_is_valid(value),
            r matches Ok(v) ==> v.spec_value() == value && v.wf(),
            r is Err ==> r == Err::<SupervisionTimeout, Error>(Error::InvalidSupervisionTimeout(value)),
    {
        if 0x000A <= value && value <= 0x0C80 {
            Ok(SupervisionTimeout { value })
        } else {
            Err(Error::InvalidSupervisionTimeout(value))
        }
    }

    /// The raw value.
    pub fn value(&self) -> (r: u16)
        ensures
            r == self.spec_value(),
    {
        self.value
    }

    /// Values are determined by their raw value.
    pub proof fn lemma_spec_value_injective(a: SupervisionTimeout, b: SupervisionTimeout)
        ensures
            a.spec_value() == b.spec_value() ==> a == b,
    {
    }

    /// The raw value of a value made by `try_new` is the value given.
    pub proof fn lemma_spec_try_new_value(value: u16)
        ensures
            SupervisionTimeout::spec_try_new(value) is Ok <==> SupervisionTimeout::spec_is_valid(value),
            SupervisionTimeout::spec_try_new(value) is Ok ==> (SupervisionTimeout::spec_try_new(value)->Ok_0).spec_value() == value,
            SupervisionTimeout::spec_try_new(value) is Err ==> SupervisionTimeout::spec_try_new(value) == Err::<SupervisionTimeout, Error>(Error::InvalidSupervisionTimeout(value)),
    {
    }

    /// `try_new` of the raw value of a well-formed value gives that value back.
    pub proof fn lemma_try_new_spec_value(self)
        requires
            self.wf(),
        ensures
            SupervisionTimeout::spec_try_new(self.spec_value()) == Ok::<SupervisionTimeout, Error>(self),
    {
    }
}

impl Default for SupervisionTimeout {
    fn default() -> (r: SupervisionTimeout)
        ensures
            r.spec_value() == 0x0020,
            r.wf(),
    {
        SupervisionTimeout { value: 0x0020 }
    }
}

impl TryFrom<u16> for SupervisionTimeout {
    type Error = Error;

    fn try_from(value: u16) -> Result<SupervisionTimeout, Error> {
        SupervisionTimeout::try_new(value)
    }
}

impl vstd::std_specs::convert::TryFromSpecImpl<u16> for SupervisionTimeout {
    open spec fn obeys_try_from_spec() -> bool {
        true
    }

    open spec fn try_from_spec(v: u16) -> Result<SupervisionTimeout, Error> {
        SupervisionTimeout::spec_try_new(v)
    }
}

impl EncodeToBuffer for SupervisionTimeout {
    open spec fn spec_encode(&self) -> Seq<u8> {
        spec_u16_le_bytes(self.spec_value())
    }

    fn encode(&self, buffer: &mut Vec<u8>) -> (n: usize) {
        push_u16_le(buffer, self.value);
        2
    }

    fn encoded_size(&self) -> (n: usize) {
        2
    }
}

/// Whether a supervision timeout is long enough for a connection: in milliseconds, the timeout
/// (N × 10 ms) must be at least (1 + max latency) × the maximum connection interval (N × 1.25 ms)
/// × 2, that is 4 × timeout ≥ (1 + max latency) × maximum connection interval in raw values.
pub open spec fn spec_supervision_timeout_is_big_enough(
    supervision_timeout: u16,
    max_latency: u16,
    connection_interval_max: u16,
) -> bool {
    4 * supervision_timeout >= (1 + max_latency) * connection_interval_max
}

/// Checks that a supervision timeout is long enough for a connection.
pub fn supervision_timeout_is_big_enough(
    supervision_timeout: u16,
    max_latency: u16,
    connection_interval_max: u16,
) -> (r: bool)
    ensures
        r == spec_supervision_timeout_is_big_enough(
            supervision_timeout,
            max_latency,
            connection_interval_max,
        ),
{
    let t: u64 = supervision_timeout as u64;
    let l: u64 = max_latency as u64;
    let i: u64 = connection_interval_max as u64;
    assert((1 + l) * i <= 65536 * 65535) by (nonlinear_arith)
        requires
            l <= 65535,
            i <= 65535,
    ;
    4 * t >= (1 + l) * i
}

} // verus!
