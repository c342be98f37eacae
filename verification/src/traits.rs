use vstd::prelude::*;

verus! {

/// Error reported by an HCI driver.
#[derive(Debug, Clone, Copy, PartialEq, Eq, Structural)]
pub enum HciDriverError {
    /// HCI driver write failure.
    WriteFailure,
    /// HCI driver read failure.
    ReadFailure,
    /// HCI driver timeout.
    Timeout,
}

impl HciDriverError {
    /// Human readable description of the driver error.
    pub fn message(&self) -> (r: &'static str)
        ensures
            match self {
                HciDriverError::WriteFailure => r@ == "HCI driver write failure"@,
                HciDriverError::ReadFailure => r@ == "HCI driver read failure"@,
                HciDriverError::Timeout => r@ == "HCI driver timeout"@,
            },
    {
        match self {
            HciDriverError::WriteFailure => "HCI driver write failure",
            HciDriverError::ReadFailure => "HCI driver read failure",
            HciDriverError::Timeout => "HCI driver timeout",
        }
    }
}

} // verus!
