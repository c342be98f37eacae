//! HCI error codes.
use vstd::prelude::*;

use crate::error::Error;

verus! {

/// HCI error codes as defined in the Core Specification 6.0, Vol.1, Part F.
#[derive(Debug, Clone, Copy, PartialEq, Eq, Structural)]
#[non_exhaustive]
pub enum ErrorCode {
    /// Success.
    Success,
    /// The Controller does not understand the HCI Command packet opcode that the Host sent.
    /// The opcode given might not correspond to any of the opcodes specified in the Core Specification,
    /// or any vendor-specific opcodes, or the command may have not been implemented.
    UnknownHciCommand,
    /// A command was sent from the Host that should identify a connection, but that connection does not
    /// exist or does not identify the correct type of connection.
    UnknownConnectionIdentifier,
    /// Something in the Controller has failed in a manner that cannot be described with any other error code.
    /// The meaning implied with this error code is implementation dependent.
    HardwareFailure,
    /// A page timed out because of the Page Timeout configuration parameter.
    PageTimeout,
    /// Pairing or authentication failed due to incorrect results in the pairing or authentication procedure.
    /// This could be due to an incorrect PIN or Link Key.
    AuthenticationFailure,
    /// Pairing failed because of a missing PIN, or authentication failed because of a missing Key.
    PinOrKeyMissing,
    /// The Controller has run out of memory to store new parameters.
    MemoryCapacityExceeded,
    /// Either the link supervision timeout has expired for a given connection or the synchronization timeout
    /// has expired for a given broadcast.
    ConnectionTimeout,
    /// An attempt to create another connection failed because the Controller is already at its limit of the
    /// number of connections it can support. The number of connections a device can support is implementation dependent.
    ConnectionLimitExceeded,
    /// The Controller has reached the limit to the number of synchronous connections that can be achieved to a device.
    /// The number of synchronous connections a device can support is implementation dependent.
    SynchronousConnectionLimitToADeviceExceeded,
    /// An attempt was made to create a new Connection to a device when there is already a connection to this
    /// device and multiple connections to the same device are not permitted.
    AclConnectionAlreadyExists,
    /// The command requested cannot be executed because the Controller is in a state where it cannot process this
    /// command at this time.
    CommandDisallowed,
    /// A connection was rejected due to limited resources.
    ConnectionRejectedDueToLimitedResources,
    /// A connection was rejected due to security requirements not being fulfilled, like authentication or pairing.
    ConnectionRejectedDueToSecurityReasons,
    /// A connection was rejected because this device does not accept the BD_ADDR.
    /// This may be because the device will only accept connections from specific BD_ADDRs.
    ConnectionRejectedDueToUnacceptableBdAddr,
    /// The Connection Accept Timeout has been exceeded for this connection attempt.
    ConnectionAcceptTimeoutExceeded,
    /// A feature or parameter value in the HCI command is not supported.
    UnsupportedFeatureOrParameterValue,
    /// At least one of the HCI command parameters is invalid:
    ///  - the parameter total length is invalid.
    ///  - a command parameter is an invalid type.
    ///  - a connection identifier does not match the corresponding event.
    ///  - a parameter is odd when it is required to be even.
    ///  - a parameter is outside of the specified range.
    ///  - two or more parameter values have inconsistent values.
    InvalidHciCommandParameters,
    /// The user on the remote device either terminated the connection or stopped broadcasting packets.
    RemoteUserTerminatedConnection,
    /// The remote device terminated the connection because of low resources.
    RemoteDeviceTerminatedConnectionDueToLowResources,
    /// The remote device terminated the connection because the device is about to power off.
    RemoteDeviceTerminatedConnectionDueToPowerOff,
    /// The local device terminated the connection, terminated synchronization with a broadcaster, or terminated
    /// broadcasting packets.
    ConnectionTerminatedByLocalHost,
    /// The Controller is disallowing an authentication or pairing procedure because too little time has elapsed
    /// since the last authentication or pairing attempt failed.
    RepeatedAttempts,
    /// The device does not allow pairing. For example, when a device only allows pairing during a certain time
    /// window after some user input allows pairing.
    PairingNotAllowed,
    /// The Controller has received an unknown LMP opcode.
    UnknownLmpPdu,
    /// The remote device does not support the feature associated with the issued command, LMP PDU, or Link Layer Control PDU.
    UnsupportedRemoteFeatureUnsupportedLmpFeature,
    /// The offset requested in the LMP_SCO_LINK_REQ PDU has been rejected.
    ScoOffsetRejected,
    /// The interval requested in the LMP_SCO_LINK_REQ PDU has been rejected.
    ScoIntervalRejected,
    /// The air mode requested in the LMP_SCO_LINK_REQ PDU has been rejected.
    ScoAirModeRejected,
    /// Some LMP PDU / LL Control PDU parameters were invalid:
    ///  - the PDU length is invalid.
    ///  - a parameter is odd when it is required to be even.
    ///  - a parameter is outside of the specified range.
    ///  - two or more parameters have inconsistent values.
    InvalidLmpParametersInvalidLlParameters,
    /// No other error code specified is appropriate to use.
    UnspecifiedError,
    /// An LMP PDU or an LL Control PDU contains at least one parameter value that is not supported by the Controller
    /// at this time. This is normally used after a long negotiation procedure, for example during an LMP_HOLD_REQ,
    /// LMP_SNIFF_REQ and LMP_ENCRYPTION_KEY_SIZE_REQ PDU exchanges. This may be used by the Link Layer, for example
    /// during the Connection Parameters Request Link Layer Control procedure.
    UnsupportedLmpParameterValueUnsupportedLlParameterValue,
    /// The Controller will not allow a role change at this time.
    RoleChangeNotAllowed,
    /// An LMP transaction failed to respond within the LMP response timeout or an LL transaction failed to respond
    /// within the LL response timeout.
    LmpResponseTimeoutLlResponseTimeout,
    /// An LMP transaction or LL procedure has collided with the same transaction or procedure that is already in progress.
    LmpErrorTransactionCollision,
    /// The Controller sent an LMP PDU with an opcode that was not allowed.
    LmpPduNotAllowed,
    /// The requested encryption mode is not acceptable at this time.
    EncryptionModeNotAcceptable,
    /// A link key cannot be changed because a fixed unit key is being used.
    LinkKeyCannotBeChanged,
    /// The requested Quality of Service is not supported.
    RequestedQosNotSupported,
    /// An LMP PDU or LL PDU that includes an instant cannot be performed because the instant when this would have occurred has passed.
    InstantPassed,
    /// It was not possible to pair as a unit key was requested and it is not supported.
    PairingWithUnitKeyNotSupported,
    /// An LMP transaction or LL Procedure was started that collides with an ongoing transaction.
    DifferentTransactionCollision,
    /// The specified quality of service parameters could not be accepted at this time, but other parameters may be acceptable.
    QosUnacceptableParameter,
    /// The specified quality of service parameters cannot be accepted and QoS negotiation should be terminated.
    QosRejected,
    /// The Controller cannot perform channel assessment because it is not supported.
    ChannelAssessmentNotSupported,
    /// The HCI command or LMP PDU sent is only possible on an encrypted link.
    InsufficientSecurity,
    /// A parameter value requested is outside the mandatory range of parameters for the given HCI command or LMP PDU
    /// and the recipient does not accept that value.
    ParameterOutOfMandatoryRange,
    /// A Role Switch is pending. This can be used when an HCI command or LMP PDU cannot be accepted because of a
    /// pending role switch. This can also be used to notify a peer device about a pending role switch.
    RoleSwitchPending,
    /// The current Synchronous negotiation was terminated with the negotiation state set to Reserved Slot Violation.
    ReservedSlotViolation,
    /// A role switch was attempted but it failed and the original piconet structure is restored.
    /// The switch may have failed because the TDD switch or piconet switch failed.
    RoleSwitchFailed,
    /// The extended inquiry response, with the requested requirements for FEC, is too large to fit in any of the
    /// packet types supported by the Controller.
    ExtendedInquiryResponseTooLarge,
    /// The IO capabilities request or response was rejected because the sending Host does not support
    /// Secure Simple Pairing even though the receiving Link Manager does.
    SecureSimplePairingNotSupportedByHost,
    /// The Host is busy with another pairing operation and unable to support the requested pairing.
    /// The receiving device should retry pairing again later.
    HostBusyPairing,
    /// The Controller could not calculate an appropriate value for the Channel selection operation.
    ConnectionRejectedDueToNoSuitableChannelFound,
    /// The operation was rejected because the Controller was busy and unable to process the request.
    ControllerBusy,
    /// The remote device either terminated the connection or rejected a request because of one or more
    /// unacceptable connection parameters.
    UnacceptableConnectionParameters,
    /// Advertising for a fixed duration completed or, for directed advertising, that advertising completed
    /// without a connection being created.
    AdvertisingTimeout,
    /// Either the connection or the synchronization was terminated because the Message Integrity Check (MIC) failed on a received packet.
    ConnectionTerminatedDueToMicFailure,
    /// The LL initiated a connection or initiated synchronization but the connection has failed to be
    /// established or the Link Layer failed to synchronize within the specified time.
    ConnectionFailedToBeEstablished,
    /// The Central, at this time, is unable to make a coarse adjustment to the piconet clock, using the
    /// supplied parameters. Instead the Central will attempt to move the clock using clock dragging.
    CoarseClockAdjustmentRejectedButWillTryToAdjustUsingClockDragging,
    /// The LMP PDU is rejected because the Type 0 submap is not currently defined.
    Type0SubmapNotDefined,
    /// A command was sent from the Host that should identify an Advertising or Sync handle, but the Advertising or Sync handle does not exist.
    UnknownAdvertisingIdentifier,
    /// The number of operations requested has been reached and has indicated the completion of the activity (e.g., advertising or scanning).
    LimitReached,
    /// A request to the Controller issued by the Host and still pending was successfully canceled.
    OperationCancelledByHost,
    /// An attempt was made to send or receive a packet that exceeds the maximum allowed packet length.
    PacketTooLong,
    /// Information was provided too late to the Controller.
    TooLate,
    /// Information was provided too early to the Controller.
    TooEarly,
    /// The result of the requested operation would yield too few physical channels.
    InsufficientChannels,
}

impl ErrorCode {
    /// The numeric code of this error, as found on the wire.
    pub open spec fn spec_code(self) -> u8 {
        match self {
            ErrorCode::Success => 0x00,
            ErrorCode::UnknownHciCommand => 0x01,
            ErrorCode::UnknownConnectionIdentifier => 0x02,
            ErrorCode::HardwareFailure => 0x03,
            ErrorCode::PageTimeout => 0x04,
            ErrorCode::AuthenticationFailure => 0x05,
            ErrorCode::PinOrKeyMissing => 0x06,
            ErrorCode::MemoryCapacityExceeded => 0x07,
            ErrorCode::ConnectionTimeout => 0x08,
            ErrorCode::ConnectionLimitExceeded => 0x09,
            ErrorCode::SynchronousConnectionLimitToADeviceExceeded => 0x0A,
            ErrorCode::AclConnectionAlreadyExists => 0x0B,
            ErrorCode::CommandDisallowed => 0x0C,
            ErrorCode::ConnectionRejectedDueToLimitedResources => 0x0D,
            ErrorCode::ConnectionRejectedDueToSecurityReasons => 0x0E,
            ErrorCode::ConnectionRejectedDueToUnacceptableBdAddr => 0x0F,
            ErrorCode::ConnectionAcceptTimeoutExceeded => 0x10,
            ErrorCode::UnsupportedFeatureOrParameterValue => 0x11,
            ErrorCode::InvalidHciCommandParameters => 0x12,
            ErrorCode::RemoteUserTerminatedConnection => 0x13,
            ErrorCode::RemoteDeviceTerminatedConnectionDueToLowResources => 0x14,
            ErrorCode::RemoteDeviceTerminatedConnectionDueToPowerOff => 0x15,
            ErrorCode::ConnectionTerminatedByLocalHost => 0x16,
            ErrorCode::RepeatedAttempts => 0x17,
            ErrorCode::PairingNotAllowed => 0x18,
            ErrorCode::UnknownLmpPdu => 0x19,
            ErrorCode::UnsupportedRemoteFeatureUnsupportedLmpFeature => 0x1A,
            ErrorCode::ScoOffsetRejected => 0x1B,
            ErrorCode::ScoIntervalRejected => 0x1C,
            ErrorCode::ScoAirModeRejected => 0x1D,
            ErrorCode::InvalidLmpParametersInvalidLlParameters => 0x1E,
            ErrorCode::UnspecifiedError => 0x1F,
            ErrorCode::UnsupportedLmpParameterValueUnsupportedLlParameterValue => 0x20,
            ErrorCode::RoleChangeNotAllowed => 0x21,
            ErrorCode::LmpResponseTimeoutLlResponseTimeout => 0x22,
            ErrorCode::LmpErrorTransactionCollision => 0x23,
            ErrorCode::LmpPduNotAllowed => 0x24,
            ErrorCode::EncryptionModeNotAcceptable => 0x25,
            ErrorCode::LinkKeyCannotBeChanged => 0x26,
            ErrorCode::RequestedQosNotSupported => 0x27,
            ErrorCode::InstantPassed => 0x28,
            ErrorCode::PairingWithUnitKeyNotSupported => 0x29,
            ErrorCode::DifferentTransactionCollision => 0x2A,
            ErrorCode::QosUnacceptableParameter => 0x2C,
            ErrorCode::QosRejected => 0x2D,
            ErrorCode::ChannelAssessmentNotSupported => 0x2E,
            ErrorCode::InsufficientSecurity => 0x2F,
            ErrorCode::ParameterOutOfMandatoryRange => 0x30,
            ErrorCode::RoleSwitchPending => 0x32,
            ErrorCode::ReservedSlotViolation => 0x34,
            ErrorCode::RoleSwitchFailed => 0x35,
            ErrorCode::ExtendedInquiryResponseTooLarge => 0x36,
            ErrorCode::SecureSimplePairingNotSupportedByHost => 0x37,
            ErrorCode::HostBusyPairing => 0x38,
            ErrorCode::ConnectionRejectedDueToNoSuitableChannelFound => 0x39,
            ErrorCode::ControllerBusy => 0x3A,
            ErrorCode::UnacceptableConnectionParameters => 0x3B,
            ErrorCode::AdvertisingTimeout => 0x3C,
            ErrorCode::ConnectionTerminatedDueToMicFailure => 0x3D,
            ErrorCode::ConnectionFailedToBeEstablished => 0x3E,
            ErrorCode::CoarseClockAdjustmentRejectedButWillTryToAdjustUsingClockDragging => 0x40,
            ErrorCode::Type0SubmapNotDefined => 0x41,
            ErrorCode::UnknownAdvertisingIdentifier => 0x42,
            ErrorCode::LimitReached => 0x43,
            ErrorCode::OperationCancelledByHost => 0x44,
            ErrorCode::PacketTooLong => 0x45,
            ErrorCode::TooLate => 0x46,
            ErrorCode::TooEarly => 0x47,
            ErrorCode::InsufficientChannels => 0x48,
        }
    }

    /// The numeric values that name an error code: every value up to 0x48 but 0x2B, 0x31, 0x33 and 0x3F.
    pub open spec fn spec_is_code(v: u8) -> bool {
        v <= 0x48 && v != 0x2B && v != 0x31 && v != 0x33 && v != 0x3F
    }

    /// The error code named by `v`, or the error reporting that `v` names none.
    pub open spec fn spec_try_from_u8(v: u8) -> Result<ErrorCode, Error> {
        if ErrorCode::spec_is_code(v) {
            Ok(choose|c: ErrorCode| c.spec_code() == v)
        } else {
            Err(Error::InvalidErrorCode(v))
        }
    }

    /// The numeric code of this error.
    pub fn code(self) -> (r: u8)
        ensures
            r == self.spec_code(),
    {
        match self {
            ErrorCode::Success => 0x00,
            ErrorCode::UnknownHciCommand => 0x01,
            ErrorCode::UnknownConnectionIdentifier => 0x02,
            ErrorCode::HardwareFailure => 0x03,
            ErrorCode::PageTimeout => 0x04,
            ErrorCode::AuthenticationFailure => 0x05,
            ErrorCode::PinOrKeyMissing => 0x06,
            ErrorCode::MemoryCapacityExceeded => 0x07,
            ErrorCode::ConnectionTimeout => 0x08,
            ErrorCode::ConnectionLimitExceeded => 0x09,
            ErrorCode::SynchronousConnectionLimitToADeviceExceeded => 0x0A,
            ErrorCode::AclConnectionAlreadyExists => 0x0B,
            ErrorCode::CommandDisallowed => 0x0C,
            ErrorCode::ConnectionRejectedDueToLimitedResources => 0x0D,
            ErrorCode::ConnectionRejectedDueToSecurityReasons => 0x0E,
            ErrorCode::ConnectionRejectedDueToUnacceptableBdAddr => 0x0F,
            ErrorCode::ConnectionAcceptTimeoutExceeded => 0x10,
            ErrorCode::UnsupportedFeatureOrParameterValue => 0x11,
            ErrorCode::InvalidHciCommandParameters => 0x12,
            ErrorCode::RemoteUserTerminatedConnection => 0x13,
            ErrorCode::RemoteDeviceTerminatedConnectionDueToLowResources => 0x14,
            ErrorCode::RemoteDeviceTerminatedConnectionDueToPowerOff => 0x15,
            ErrorCode::ConnectionTerminatedByLocalHost => 0x16,
            ErrorCode::RepeatedAttempts => 0x17,
            ErrorCode::PairingNotAllowed => 0x18,
            ErrorCode::UnknownLmpPdu => 0x19,
            ErrorCode::UnsupportedRemoteFeatureUnsupportedLmpFeature => 0x1A,
            ErrorCode::ScoOffsetRejected => 0x1B,
            ErrorCode::ScoIntervalRejected => 0x1C,
            ErrorCode::ScoAirModeRejected => 0x1D,
            ErrorCode::InvalidLmpParametersInvalidLlParameters => 0x1E,
            ErrorCode::UnspecifiedError => 0x1F,
            ErrorCode::UnsupportedLmpParameterValueUnsupportedLlParameterValue => 0x20,
            ErrorCode::RoleChangeNotAllowed => 0x21,
            ErrorCode::LmpResponseTimeoutLlResponseTimeout => 0x22,
            ErrorCode::LmpErrorTransactionCollision => 0x23,
            ErrorCode::LmpPduNotAllowed => 0x24,
            ErrorCode::EncryptionModeNotAcceptable => 0x25,
            ErrorCode::LinkKeyCannotBeChanged => 0x26,
            ErrorCode::RequestedQosNotSupported => 0x27,
            ErrorCode::InstantPassed => 0x28,
            ErrorCode::PairingWithUnitKeyNotSupported => 0x29,
            ErrorCode::DifferentTransactionCollision => 0x2A,
            ErrorCode::QosUnacceptableParameter => 0x2C,
            ErrorCode::QosRejected => 0x2D,
            ErrorCode::ChannelAssessmentNotSupported => 0x2E,
            ErrorCode::InsufficientSecurity => 0x2F,
            ErrorCode::ParameterOutOfMandatoryRange => 0x30,
            ErrorCode::RoleSwitchPending => 0x32,
            ErrorCode::ReservedSlotViolation => 0x34,
            ErrorCode::RoleSwitchFailed => 0x35,
            ErrorCode::ExtendedInquiryResponseTooLarge => 0x36,
            ErrorCode::SecureSimplePairingNotSupportedByHost => 0x37,
            ErrorCode::HostBusyPairing => 0x38,
            ErrorCode::ConnectionRejectedDueToNoSuitableChannelFound => 0x39,
            ErrorCode::ControllerBusy => 0x3A,
            ErrorCode::UnacceptableConnectionParameters => 0x3B,
            ErrorCode::AdvertisingTimeout => 0x3C,
            ErrorCode::ConnectionTerminatedDueToMicFailure => 0x3D,
            ErrorCode::ConnectionFailedToBeEstablished => 0x3E,
            ErrorCode::CoarseClockAdjustmentRejectedButWillTryToAdjustUsingClockDragging => 0x40,
            ErrorCode::Type0SubmapNotDefined => 0x41,
            ErrorCode::UnknownAdvertisingIdentifier => 0x42,
            ErrorCode::LimitReached => 0x43,
            ErrorCode::OperationCancelledByHost => 0x44,
            ErrorCode::PacketTooLong => 0x45,
            ErrorCode::TooLate => 0x46,
            ErrorCode::TooEarly => 0x47,
            ErrorCode::InsufficientChannels => 0x48,
        }
    }

    /// Converts a numeric code into an error code.
    pub fn try_from_u8(v: u8) -> (r: Result<ErrorCode, Error>)
        ensures
            r is Ok <==> ErrorCode::spec_is_code(v),
            r matches Ok(c) ==> c.spec_code() == v,
            r is Err ==> r == Err::<ErrorCode, Error>(Error::InvalidErrorCode(v)),
            r == ErrorCode::spec_try_from_u8(v),
    {
        let r = ErrorCode::try_from_u8_table(v);
        proof {
            if let Ok(c) = r {
                let d = choose|d: ErrorCode| d.spec_code() == v;
                lemma_error_code_injective(c, d);
            }
        }
        r
    }

    fn try_from_u8_table(v: u8) -> (r: Result<ErrorCode, Error>)
        ensures
            r is Ok <==> ErrorCode::spec_is_code(v),
            r matches Ok(c) ==> c.spec_code() == v,
            r is Err ==> r == Err::<ErrorCode, Error>(Error::InvalidErrorCode(v)),
    {
        match v {
            0x00 => Ok(ErrorCode::Success),
            0x01 => Ok(ErrorCode::UnknownHciCommand),
            0x02 => Ok(ErrorCode::UnknownConnectionIdentifier),
            0x03 => Ok(ErrorCode::HardwareFailure),
            0x04 => Ok(ErrorCode::PageTimeout),
            0x05 => Ok(ErrorCode::AuthenticationFailure),
            0x06 => Ok(ErrorCode::PinOrKeyMissing),
            0x07 => Ok(ErrorCode::MemoryCapacityExceeded),
            0x08 => Ok(ErrorCode::ConnectionTimeout),
            0x09 => Ok(ErrorCode::ConnectionLimitExceeded),
            0x0A => Ok(ErrorCode::SynchronousConnectionLimitToADeviceExceeded),
            0x0B => Ok(ErrorCode::AclConnectionAlreadyExists),
            0x0C => Ok(ErrorCode::CommandDisallowed),
            0x0D => Ok(ErrorCode::ConnectionRejectedDueToLimitedResources),
            0x0E => Ok(ErrorCode::ConnectionRejectedDueToSecurityReasons),
            0x0F => Ok(ErrorCode::ConnectionRejectedDueToUnacceptableBdAddr),
            0x10 => Ok(ErrorCode::ConnectionAcceptTimeoutExceeded),
            0x11 => Ok(ErrorCode::UnsupportedFeatureOrParameterValue),
            0x12 => Ok(ErrorCode::InvalidHciCommandParameters),
            0x13 => Ok(ErrorCode::RemoteUserTerminatedConnection),
            0x14 => Ok(ErrorCode::RemoteDeviceTerminatedConnectionDueToLowResources),
            0x15 => Ok(ErrorCode::RemoteDeviceTerminatedConnectionDueToPowerOff),
            0x16 => Ok(ErrorCode::ConnectionTerminatedByLocalHost),
            0x17 => Ok(ErrorCode::RepeatedAttempts),
            0x18 => Ok(ErrorCode::PairingNotAllowed),
            0x19 => Ok(ErrorCode::UnknownLmpPdu),
            0x1A => Ok(ErrorCode::UnsupportedRemoteFeatureUnsupportedLmpFeature),
            0x1B => Ok(ErrorCode::ScoOffsetRejected),
            0x1C => Ok(ErrorCode::ScoIntervalRejected),
            0x1D => Ok(ErrorCode::ScoAirModeRejected),
            0x1E => Ok(ErrorCode::InvalidLmpParametersInvalidLlParameters),
            0x1F => Ok(ErrorCode::UnspecifiedError),
            0x20 => Ok(ErrorCode::UnsupportedLmpParameterValueUnsupportedLlParameterValue),
            0x21 => Ok(ErrorCode::RoleChangeNotAllowed),
            0x22 => Ok(ErrorCode::LmpResponseTimeoutLlResponseTimeout),
            0x23 => Ok(ErrorCode::LmpErrorTransactionCollision),
            0x24 => Ok(ErrorCode::LmpPduNotAllowed),
            0x25 => Ok(ErrorCode::EncryptionModeNotAcceptable),
            0x26 => Ok(ErrorCode::LinkKeyCannotBeChanged),
            0x27 => Ok(ErrorCode::RequestedQosNotSupported),
            0x28 => Ok(ErrorCode::InstantPassed),
            0x29 => Ok(ErrorCode::PairingWithUnitKeyNotSupported),
            0x2A => Ok(ErrorCode::DifferentTransactionCollision),
            0x2C => Ok(ErrorCode::QosUnacceptableParameter),
            0x2D => Ok(ErrorCode::QosRejected),
            0x2E => Ok(ErrorCode::ChannelAssessmentNotSupported),
            0x2F => Ok(ErrorCode::InsufficientSecurity),
            0x30 => Ok(ErrorCode::ParameterOutOfMandatoryRange),
            0x32 => Ok(ErrorCode::RoleSwitchPending),
            0x34 => Ok(ErrorCode::ReservedSlotViolation),
            0x35 => Ok(ErrorCode::RoleSwitchFailed),
            0x36 => Ok(ErrorCode::ExtendedInquiryResponseTooLarge),
            0x37 => Ok(ErrorCode::SecureSimplePairingNotSupportedByHost),
            0x38 => Ok(ErrorCode::HostBusyPairing),
            0x39 => Ok(ErrorCode::ConnectionRejectedDueToNoSuitableChannelFound),
            0x3A => Ok(ErrorCode::ControllerBusy),
            0x3B => Ok(ErrorCode::UnacceptableConnectionParameters),
            0x3C => Ok(ErrorCode::AdvertisingTimeout),
            0x3D => Ok(ErrorCode::ConnectionTerminatedDueToMicFailure),
            0x3E => Ok(ErrorCode::ConnectionFailedToBeEstablished),
            0x40 => Ok(ErrorCode::CoarseClockAdjustmentRejectedButWillTryToAdjustUsingClockDragging),
            0x41 => Ok(ErrorCode::Type0SubmapNotDefined),
            0x42 => Ok(ErrorCode::UnknownAdvertisingIdentifier),
            0x43 => Ok(ErrorCode::LimitReached),
            0x44 => Ok(ErrorCode::OperationCancelledByHost),
            0x45 => Ok(ErrorCode::PacketTooLong),
            0x46 => Ok(ErrorCode::TooLate),
            0x47 => Ok(ErrorCode::TooEarly),
            0x48 => Ok(ErrorCode::InsufficientChannels),
            _ => Err(Error::InvalidErrorCode(v)),
        }
    }

    /// Whether this error code denotes a success.
    pub fn is_success(&self) -> (r: bool)
        ensures
            r <==> *self == ErrorCode::Success,
            r <==> self.spec_code() == 0,
    {
        matches!(self, ErrorCode::Success)
    }
}

/// Two error codes with the same numeric code are the same error code.
pub proof fn lemma_error_code_injective(a: ErrorCode, b: ErrorCode)
    ensures
        a.spec_code() == b.spec_code() ==> a == b,
{
}

/// Converting the numeric code of an error code gives it back.
pub proof fn lemma_error_code_try_from_code(c: ErrorCode)
    ensures
        ErrorCode::spec_try_from_u8(c.spec_code()) == Ok::<ErrorCode, Error>(c),
{
    lemma_error_code_injective(c, choose|d: ErrorCode| d.spec_code() == c.spec_code());
}

/// The numeric code of each error code, and the error code each numeric code names.
pub proof fn lemma_error_code_values()
    ensures
        ErrorCode::Success.spec_code() == 0x00,
        ErrorCode::spec_try_from_u8(0x00) == Ok::<ErrorCode, Error>(ErrorCode::Success),
        ErrorCode::UnknownHciCommand.spec_code() == 0x01,
        ErrorCode::spec_try_from_u8(0x01) == Ok::<ErrorCode, Error>(ErrorCode::UnknownHciCommand),
        ErrorCode::UnknownConnectionIdentifier.spec_code() == 0x02,
        ErrorCode::spec_try_from_u8(0x02) == Ok::<ErrorCode, Error>(ErrorCode::UnknownConnectionIdentifier),
        ErrorCode::HardwareFailure.spec_code() == 0x03,
        ErrorCode::spec_try_from_u8(0x03) == Ok::<ErrorCode, Error>(ErrorCode::HardwareFailure),
        ErrorCode::PageTimeout.spec_code() == 0x04,
        ErrorCode::spec_try_from_u8(0x04) == Ok::<ErrorCode, Error>(ErrorCode::PageTimeout),
        ErrorCode::AuthenticationFailure.spec_code() == 0x05,
        ErrorCode::spec_try_from_u8(0x05) == Ok::<ErrorCode, Error>(ErrorCode::AuthenticationFailure),
        ErrorCode::PinOrKeyMissing.spec_code() == 0x06,
        ErrorCode::spec_try_from_u8(0x06) == Ok::<ErrorCode, Error>(ErrorCode::PinOrKeyMissing),
        ErrorCode::MemoryCapacityExceeded.spec_code() == 0x07,
        ErrorCode::spec_try_from_u8(0x07) == Ok::<ErrorCode, Error>(ErrorCode::MemoryCapacityExceeded),
        ErrorCode::ConnectionTimeout.spec_code() == 0x08,
        ErrorCode::spec_try_from_u8(0x08) == Ok::<ErrorCode, Error>(ErrorCode::ConnectionTimeout),
        ErrorCode::ConnectionLimitExceeded.spec_code() == 0x09,
        ErrorCode::spec_try_from_u8(0x09) == Ok::<ErrorCode, Error>(ErrorCode::ConnectionLimitExceeded),
        ErrorCode::SynchronousConnectionLimitToADeviceExceeded.spec_code() == 0x0A,
        ErrorCode::spec_try_from_u8(0x0A) == Ok::<ErrorCode, Error>(ErrorCode::SynchronousConnectionLimitToADeviceExceeded),
        ErrorCode::AclConnectionAlreadyExists.spec_code() == 0x0B,
        ErrorCode::spec_try_from_u8(0x0B) == Ok::<ErrorCode, Error>(ErrorCode::AclConnectionAlreadyExists),
        ErrorCode::CommandDisallowed.spec_code() == 0x0C,
        ErrorCode::spec_try_from_u8(0x0C) == Ok::<ErrorCode, Error>(ErrorCode::CommandDisallowed),
        ErrorCode::ConnectionRejectedDueToLimitedResources.spec_code() == 0x0D,
        ErrorCode::spec_try_from_u8(0x0D) == Ok::<ErrorCode, Error>(ErrorCode::ConnectionRejectedDueToLimitedResources),
        ErrorCode::ConnectionRejectedDueToSecurityReasons.spec_code() == 0x0E,
        ErrorCode::spec_try_from_u8(0x0E) == Ok::<ErrorCode, Error>(ErrorCode::ConnectionRejectedDueToSecurityReasons),
        ErrorCode::ConnectionRejectedDueToUnacceptableBdAddr.spec_code() == 0x0F,
        ErrorCode::spec_try_from_u8(0x0F) == Ok::<ErrorCode, Error>(ErrorCode::ConnectionRejectedDueToUnacceptableBdAddr),
        ErrorCode::ConnectionAcceptTimeoutExceeded.spec_code() == 0x10,
        ErrorCode::spec_try_from_u8(0x10) == Ok::<ErrorCode, Error>(ErrorCode::ConnectionAcceptTimeoutExceeded),
        ErrorCode::UnsupportedFeatureOrParameterValue.spec_code() == 0x11,
        ErrorCode::spec_try_from_u8(0x11) == Ok::<ErrorCode, Error>(ErrorCode::UnsupportedFeatureOrParameterValue),
        ErrorCode::InvalidHciCommandParameters.spec_code() == 0x12,
        ErrorCode::spec_try_from_u8(0x12) == Ok::<ErrorCode, Error>(ErrorCode::InvalidHciCommandParameters),
        ErrorCode::RemoteUserTerminatedConnection.spec_code() == 0x13,
        ErrorCode::spec_try_from_u8(0x13) == Ok::<ErrorCode, Error>(ErrorCode::RemoteUserTerminatedConnection),
        ErrorCode::RemoteDeviceTerminatedConnectionDueToLowResources.spec_code() == 0x14,
        ErrorCode::spec_try_from_u8(0x14) == Ok::<ErrorCode, Error>(ErrorCode::RemoteDeviceTerminatedConnectionDueToLowResources),
        ErrorCode::RemoteDeviceTerminatedConnectionDueToPowerOff.spec_code() == 0x15,
        ErrorCode::spec_try_from_u8(0x15) == Ok::<ErrorCode, Error>(ErrorCode::RemoteDeviceTerminatedConnectionDueToPowerOff),
        ErrorCode::ConnectionTerminatedByLocalHost.spec_code() == 0x16,
        ErrorCode::spec_try_from_u8(0x16) == Ok::<ErrorCode, Error>(ErrorCode::ConnectionTerminatedByLocalHost),
        ErrorCode::RepeatedAttempts.spec_code() == 0x17,
        ErrorCode::spec_try_from_u8(0x17) == Ok::<ErrorCode, Error>(ErrorCode::RepeatedAttempts),
        ErrorCode::PairingNotAllowed.spec_code() == 0x18,
        ErrorCode::spec_try_from_u8(0x18) == Ok::<ErrorCode, Error>(ErrorCode::PairingNotAllowed),
        ErrorCode::UnknownLmpPdu.spec_code() == 0x19,
        ErrorCode::spec_try_from_u8(0x19) == Ok::<ErrorCode, Error>(ErrorCode::UnknownLmpPdu),
        ErrorCode::UnsupportedRemoteFeatureUnsupportedLmpFeature.spec_code() == 0x1A,
        ErrorCode::spec_try_from_u8(0x1A) == Ok::<ErrorCode, Error>(ErrorCode::UnsupportedRemoteFeatureUnsupportedLmpFeature),
        ErrorCode::ScoOffsetRejected.spec_code() == 0x1B,
        ErrorCode::spec_try_from_u8(0x1B) == Ok::<ErrorCode, Error>(ErrorCode::ScoOffsetRejected),
        ErrorCode::ScoIntervalRejected.spec_code() == 0x1C,
        ErrorCode::spec_try_from_u8(0x1C) == Ok::<ErrorCode, Error>(ErrorCode::ScoIntervalRejected),
        ErrorCode::ScoAirModeRejected.spec_code() == 0x1D,
        ErrorCode::spec_try_from_u8(0x1D) == Ok::<ErrorCode, Error>(ErrorCode::ScoAirModeRejected),
        ErrorCode::InvalidLmpParametersInvalidLlParameters.spec_code() == 0x1E,
        ErrorCode::spec_try_from_u8(0x1E) == Ok::<ErrorCode, Error>(ErrorCode::InvalidLmpParametersInvalidLlParameters),
        ErrorCode::UnspecifiedError.spec_code() == 0x1F,
        ErrorCode::spec_try_from_u8(0x1F) == Ok::<ErrorCode, Error>(ErrorCode::UnspecifiedError),
        ErrorCode::UnsupportedLmpParameterValueUnsupportedLlParameterValue.spec_code() == 0x20,
        ErrorCode::spec_try_from_u8(0x20) == Ok::<ErrorCode, Error>(ErrorCode::UnsupportedLmpParameterValueUnsupportedLlParameterValue),
        ErrorCode::RoleChangeNotAllowed.spec_code() == 0x21,
        ErrorCode::spec_try_from_u8(0x21) == Ok::<ErrorCode, Error>(ErrorCode::RoleChangeNotAllowed),
        ErrorCode::LmpResponseTimeoutLlResponseTimeout.spec_code() == 0x22,
        ErrorCode::spec_try_from_u8(0x22) == Ok::<ErrorCode, Error>(ErrorCode::LmpResponseTimeoutLlResponseTimeout),
        ErrorCode::LmpErrorTransactionCollision.spec_code() == 0x23,
        ErrorCode::spec_try_from_u8(0x23) == Ok::<ErrorCode, Error>(ErrorCode::LmpErrorTransactionCollision),
        ErrorCode::LmpPduNotAllowed.spec_code() == 0x24,
        ErrorCode::spec_try_from_u8(0x24) == Ok::<ErrorCode, Error>(ErrorCode::LmpPduNotAllowed),
        ErrorCode::EncryptionModeNotAcceptable.spec_code() == 0x25,
        ErrorCode::spec_try_from_u8(0x25) == Ok::<ErrorCode, Error>(ErrorCode::EncryptionModeNotAcceptable),
        ErrorCode::LinkKeyCannotBeChanged.spec_code() == 0x26,
        ErrorCode::spec_try_from_u8(0x26) == Ok::<ErrorCode, Error>(ErrorCode::LinkKeyCannotBeChanged),
        ErrorCode::RequestedQosNotSupported.spec_code() == 0x27,
        ErrorCode::spec_try_from_u8(0x27) == Ok::<ErrorCode, Error>(ErrorCode::RequestedQosNotSupported),
        ErrorCode::InstantPassed.spec_code() == 0x28,
        ErrorCode::spec_try_from_u8(0x28) == Ok::<ErrorCode, Error>(ErrorCode::InstantPassed),
        ErrorCode::PairingWithUnitKeyNotSupported.spec_code() == 0x29,
        ErrorCode::spec_try_from_u8(0x29) == Ok::<ErrorCode, Error>(ErrorCode::PairingWithUnitKeyNotSupported),
        ErrorCode::DifferentTransactionCollision.spec_code() == 0x2A,
        ErrorCode::spec_try_from_u8(0x2A) == Ok::<ErrorCode, Error>(ErrorCode::DifferentTransactionCollision),
        ErrorCode::QosUnacceptableParameter.spec_code() == 0x2C,
        ErrorCode::spec_try_from_u8(0x2C) == Ok::<ErrorCode, Error>(ErrorCode::QosUnacceptableParameter),
        ErrorCode::QosRejected.spec_code() == 0x2D,
        ErrorCode::spec_try_from_u8(0x2D) == Ok::<ErrorCode, Error>(ErrorCode::QosRejected),
        ErrorCode::ChannelAssessmentNotSupported.spec_code() == 0x2E,
        ErrorCode::spec_try_from_u8(0x2E) == Ok::<ErrorCode, Error>(ErrorCode::ChannelAssessmentNotSupported),
        ErrorCode::InsufficientSecurity.spec_code() == 0x2F,
        ErrorCode::spec_try_from_u8(0x2F) == Ok::<ErrorCode, Error>(ErrorCode::InsufficientSecurity),
        ErrorCode::ParameterOutOfMandatoryRange.spec_code() == 0x30,
        ErrorCode::spec_try_from_u8(0x30) == Ok::<ErrorCode, Error>(ErrorCode::ParameterOutOfMandatoryRange),
        ErrorCode::RoleSwitchPending.spec_code() == 0x32,
        ErrorCode::spec_try_from_u8(0x32) == Ok::<ErrorCode, Error>(ErrorCode::RoleSwitchPending),
        ErrorCode::ReservedSlotViolation.spec_code() == 0x34,
        ErrorCode::spec_try_from_u8(0x34) == Ok::<ErrorCode, Error>(ErrorCode::ReservedSlotViolation),
        ErrorCode::RoleSwitchFailed.spec_code() == 0x35,
        ErrorCode::spec_try_from_u8(0x35) == Ok::<ErrorCode, Error>(ErrorCode::RoleSwitchFailed),
        ErrorCode::ExtendedInquiryResponseTooLarge.spec_code() == 0x36,
        ErrorCode::spec_try_from_u8(0x36) == Ok::<ErrorCode, Error>(ErrorCode::ExtendedInquiryResponseTooLarge),
        ErrorCode::SecureSimplePairingNotSupportedByHost.spec_code() == 0x37,
        ErrorCode::spec_try_from_u8(0x37) == Ok::<ErrorCode, Error>(ErrorCode::SecureSimplePairingNotSupportedByHost),
        ErrorCode::HostBusyPairing.spec_code() == 0x38,
        ErrorCode::spec_try_from_u8(0x38) == Ok::<ErrorCode, Error>(ErrorCode::HostBusyPairing),
        ErrorCode::ConnectionRejectedDueToNoSuitableChannelFound.spec_code() == 0x39,
        ErrorCode::spec_try_from_u8(0x39) == Ok::<ErrorCode, Error>(ErrorCode::ConnectionRejectedDueToNoSuitableChannelFound),
        ErrorCode::ControllerBusy.spec_code() == 0x3A,
        ErrorCode::spec_try_from_u8(0x3A) == Ok::<ErrorCode, Error>(ErrorCode::ControllerBusy),
        ErrorCode::UnacceptableConnectionParameters.spec_code() == 0x3B,
        ErrorCode::spec_try_from_u8(0x3B) == Ok::<ErrorCode, Error>(ErrorCode::UnacceptableConnectionParameters),
        ErrorCode::AdvertisingTimeout.spec_code() == 0x3C,
        ErrorCode::spec_try_from_u8(0x3C) == Ok::<ErrorCode, Error>(ErrorCode::AdvertisingTimeout),
        ErrorCode::ConnectionTerminatedDueToMicFailure.spec_code() == 0x3D,
        ErrorCode::spec_try_from_u8(0x3D) == Ok::<ErrorCode, Error>(ErrorCode::ConnectionTerminatedDueToMicFailure),
        ErrorCode::ConnectionFailedToBeEstablished.spec_code() == 0x3E,
        ErrorCode::spec_try_from_u8(0x3E) == Ok::<ErrorCode, Error>(ErrorCode::ConnectionFailedToBeEstablished),
        ErrorCode::CoarseClockAdjustmentRejectedButWillTryToAdjustUsingClockDragging.spec_code() == 0x40,
        ErrorCode::spec_try_from_u8(0x40) == Ok::<ErrorCode, Error>(ErrorCode::CoarseClockAdjustmentRejectedButWillTryToAdjustUsingClockDragging),
        ErrorCode::Type0SubmapNotDefined.spec_code() == 0x41,
        ErrorCode::spec_try_from_u8(0x41) == Ok::<ErrorCode, Error>(ErrorCode::Type0SubmapNotDefined),
        ErrorCode::UnknownAdvertisingIdentifier.spec_code() == 0x42,
        ErrorCode::spec_try_from_u8(0x42) == Ok::<ErrorCode, Error>(ErrorCode::UnknownAdvertisingIdentifier),
        ErrorCode::LimitReached.spec_code() == 0x43,
        ErrorCode::spec_try_from_u8(0x43) == Ok::<ErrorCode, Error>(ErrorCode::LimitReached),
        ErrorCode::OperationCancelledByHost.spec_code() == 0x44,
        ErrorCode::spec_try_from_u8(0x44) == Ok::<ErrorCode, Error>(ErrorCode::OperationCancelledByHost),
        ErrorCode::PacketTooLong.spec_code() == 0x45,
        ErrorCode::spec_try_from_u8(0x45) == Ok::<ErrorCode, Error>(ErrorCode::PacketTooLong),
        ErrorCode::TooLate.spec_code() == 0x46,
        ErrorCode::spec_try_from_u8(0x46) == Ok::<ErrorCode, Error>(ErrorCode::TooLate),
        ErrorCode::TooEarly.spec_code() == 0x47,
        ErrorCode::spec_try_from_u8(0x47) == Ok::<ErrorCode, Error>(ErrorCode::TooEarly),
        ErrorCode::InsufficientChannels.spec_code() == 0x48,
        ErrorCode::spec_try_from_u8(0x48) == Ok::<ErrorCode, Error>(ErrorCode::InsufficientChannels),
{
    lemma_error_code_try_from_code(ErrorCode::Success);
    lemma_error_code_try_from_code(ErrorCode::UnknownHciCommand);
    lemma_error_code_try_from_code(ErrorCode::UnknownConnectionIdentifier);
    lemma_error_code_try_from_code(ErrorCode::HardwareFailure);
    lemma_error_code_try_from_code(ErrorCode::PageTimeout);
    lemma_error_code_try_from_code(ErrorCode::AuthenticationFailure);
    lemma_error_code_try_from_code(ErrorCode::PinOrKeyMissing);
    lemma_error_code_try_from_code(ErrorCode::MemoryCapacityExceeded);
    lemma_error_code_try_from_code(ErrorCode::ConnectionTimeout);
    lemma_error_code_try_from_code(ErrorCode::ConnectionLimitExceeded);
    lemma_error_code_try_from_code(ErrorCode::SynchronousConnectionLimitToADeviceExceeded);
    lemma_error_code_try_from_code(ErrorCode::AclConnectionAlreadyExists);
    lemma_error_code_try_from_code(ErrorCode::CommandDisallowed);
    lemma_error_code_try_from_code(ErrorCode::ConnectionRejectedDueToLimitedResources);
    lemma_error_code_try_from_code(ErrorCode::ConnectionRejectedDueToSecurityReasons);
    lemma_error_code_try_from_code(ErrorCode::ConnectionRejectedDueToUnacceptableBdAddr);
    lemma_error_code_try_from_code(ErrorCode::ConnectionAcceptTimeoutExceeded);
    lemma_error_code_try_from_code(ErrorCode::UnsupportedFeatureOrParameterValue);
    lemma_error_code_try_from_code(ErrorCode::InvalidHciCommandParameters);
    lemma_error_code_try_from_code(ErrorCode::RemoteUserTerminatedConnection);
    lemma_error_code_try_from_code(ErrorCode::RemoteDeviceTerminatedConnectionDueToLowResources);
    lemma_error_code_try_from_code(ErrorCode::RemoteDeviceTerminatedConnectionDueToPowerOff);
    lemma_error_code_try_from_code(ErrorCode::ConnectionTerminatedByLocalHost);
    lemma_error_code_try_from_code(ErrorCode::RepeatedAttempts);
    lemma_error_code_try_from_code(ErrorCode::PairingNotAllowed);
    lemma_error_code_try_from_code(ErrorCode::UnknownLmpPdu);
    lemma_error_code_try_from_code(ErrorCode::UnsupportedRemoteFeatureUnsupportedLmpFeature);
    lemma_error_code_try_from_code(ErrorCode::ScoOffsetRejected);
    lemma_error_code_try_from_code(ErrorCode::ScoIntervalRejected);
    lemma_error_code_try_from_code(ErrorCode::ScoAirModeRejected);
    lemma_error_code_try_from_code(ErrorCode::InvalidLmpParametersInvalidLlParameters);
    lemma_error_code_try_from_code(ErrorCode::UnspecifiedError);
    lemma_error_code_try_from_code(ErrorCode::UnsupportedLmpParameterValueUnsupportedLlParameterValue);
    lemma_error_code_try_from_code(ErrorCode::RoleChangeNotAllowed);
    lemma_error_code_try_from_code(ErrorCode::LmpResponseTimeoutLlResponseTimeout);
    lemma_error_code_try_from_code(ErrorCode::LmpErrorTransactionCollision);
    lemma_error_code_try_from_code(ErrorCode::LmpPduNotAllowed);
    lemma_error_code_try_from_code(ErrorCode::EncryptionModeNotAcceptable);
    lemma_error_code_try_from_code(ErrorCode::LinkKeyCannotBeChanged);
    lemma_error_code_try_from_code(ErrorCode::RequestedQosNotSupported);
    lemma_error_code_try_from_code(ErrorCode::InstantPassed);
    lemma_error_code_try_from_code(ErrorCode::PairingWithUnitKeyNotSupported);
    lemma_error_code_try_from_code(ErrorCode::DifferentTransactionCollision);
    lemma_error_code_try_from_code(ErrorCode::QosUnacceptableParameter);
    lemma_error_code_try_from_code(ErrorCode::QosRejected);
    lemma_error_code_try_from_code(ErrorCode::ChannelAssessmentNotSupported);
    lemma_error_code_try_from_code(ErrorCode::InsufficientSecurity);
    lemma_error_code_try_from_code(ErrorCode::ParameterOutOfMandatoryRange);
    lemma_error_code_try_from_code(ErrorCode::RoleSwitchPending);
    lemma_error_code_try_from_code(ErrorCode::ReservedSlotViolation);
    lemma_error_code_try_from_code(ErrorCode::RoleSwitchFailed);
    lemma_error_code_try_from_code(ErrorCode::ExtendedInquiryResponseTooLarge);
    lemma_error_code_try_from_code(ErrorCode::SecureSimplePairingNotSupportedByHost);
    lemma_error_code_try_from_code(ErrorCode::HostBusyPairing);
    lemma_error_code_try_from_code(ErrorCode::ConnectionRejectedDueToNoSuitableChannelFound);
    lemma_error_code_try_from_code(ErrorCode::ControllerBusy);
    lemma_error_code_try_from_code(ErrorCode::UnacceptableConnectionParameters);
    lemma_error_code_try_from_code(ErrorCode::AdvertisingTimeout);
    lemma_error_code_try_from_code(ErrorCode::ConnectionTerminatedDueToMicFailure);
    lemma_error_code_try_from_code(ErrorCode::ConnectionFailedToBeEstablished);
    lemma_error_code_try_from_code(ErrorCode::CoarseClockAdjustmentRejectedButWillTryToAdjustUsingClockDragging);
    lemma_error_code_try_from_code(ErrorCode::Type0SubmapNotDefined);
    lemma_error_code_try_from_code(ErrorCode::UnknownAdvertisingIdentifier);
    lemma_error_code_try_from_code(ErrorCode::LimitReached);
    lemma_error_code_try_from_code(ErrorCode::OperationCancelledByHost);
    lemma_error_code_try_from_code(ErrorCode::PacketTooLong);
    lemma_error_code_try_from_code(ErrorCode::TooLate);
    lemma_error_code_try_from_code(ErrorCode::TooEarly);
    lemma_error_code_try_from_code(ErrorCode::InsufficientChannels);
}

/// A numeric value that names an error code names the error code with that value.
pub proof fn lemma_error_code_try_from_u8_to_u8(v: u8)
    requires
        ErrorCode::spec_is_code(v),
    ensures
        ErrorCode::spec_try_from_u8(v) is Ok,
        (ErrorCode::spec_try_from_u8(v)->Ok_0).spec_code() == v,
{
    lemma_error_code_values();
    assert(v == 0x00 || v == 0x01 || v == 0x02 || v == 0x03 || v == 0x04 || v == 0x05 || v == 0x06 || v == 0x07 || v == 0x08 || v == 0x09 || v == 0x0A || v == 0x0B || v == 0x0C || v == 0x0D || v == 0x0E || v == 0x0F || v == 0x10 || v == 0x11 || v == 0x12 || v == 0x13 || v == 0x14 || v == 0x15 || v == 0x16 || v == 0x17 || v == 0x18 || v == 0x19 || v == 0x1A || v == 0x1B || v == 0x1C || v == 0x1D || v == 0x1E || v == 0x1F || v == 0x20 || v == 0x21 || v == 0x22 || v == 0x23 || v == 0x24 || v == 0x25 || v == 0x26 || v == 0x27 || v == 0x28 || v == 0x29 || v == 0x2A || v == 0x2C || v == 0x2D || v == 0x2E || v == 0x2F || v == 0x30 || v == 0x32 || v == 0x34 || v == 0x35 || v == 0x36 || v == 0x37 || v == 0x38 || v == 0x39 || v == 0x3A || v == 0x3B || v == 0x3C || v == 0x3D || v == 0x3E || v == 0x40 || v == 0x41 || v == 0x42 || v == 0x43 || v == 0x44 || v == 0x45 || v == 0x46 || v == 0x47 || v == 0x48);
}

impl TryFrom<u8> for ErrorCode {
    type Error = Error;

    fn try_from(value: u8) -> Result<ErrorCode, Error> {
        ErrorCode::try_from_u8(value)
    }
}

impl vstd::std_specs::convert::TryFromSpecImpl<u8> for ErrorCode {
    open spec fn obeys_try_from_spec() -> bool {
        true
    }

    open spec fn try_from_spec(v: u8) -> Result<ErrorCode, Error> {
        ErrorCode::spec_try_from_u8(v)
    }
}

} // verus!
