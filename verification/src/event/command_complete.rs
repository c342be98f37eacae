//! Command Complete events and the return parameters of the commands.
use vstd::prelude::*;

use crate::bytes::{read_array6, read_array64, read_array8, read_u16_le, spec_array8, spec_u16_from_le};
use crate::command::CommandOpCode;
use crate::common::tx_power_level::TxPowerLevel;
use crate::device_address::PublicDeviceAddress;
use crate::error_code::ErrorCode;
use crate::supported_commands::SupportedCommands;
use crate::supported_features::SupportedFeatures;
use crate::supported_le_features::SupportedLeFeatures;
use crate::supported_le_states::SupportedLeStates;

verus! {

/// Command Complete event: the number of command packets the Controller accepts, the opcode of
/// the completed command and its return parameters.
///
/// See Core Specification 6.0, Vol.4, Part E, 7.7.14.
#[derive(Debug, Clone, Copy, PartialEq, Eq)]
pub struct CommandCompleteEvent {
    pub num_hci_command_packets: u8,
    pub opcode: CommandOpCode,
    pub parameter: EventParameter,
}

impl CommandCompleteEvent {
    /// Creates a Command Complete event.
    pub fn new(num_hci_command_packets: u8, opcode: CommandOpCode, parameter: EventParameter) -> (r:
        CommandCompleteEvent)
        ensures
            r.num_hci_command_packets == num_hci_command_packets,
            r.opcode == opcode,
            r.parameter == parameter,
    {
        CommandCompleteEvent { num_hci_command_packets, opcode, parameter }
    }
}

/// Return parameters of a completed command.
#[derive(Debug, Clone, Copy, PartialEq, Eq)]
pub enum EventParameter {
    Empty,
    Status(StatusEventParameter),
    StatusAndBdAddr(StatusAndBdAddrEventParameter),
    StatusAndBufferSize(StatusAndBufferSizeEventParameter),
    StatusAndFilterAcceptListSize(StatusAndFilterAcceptListSizeEventParameter),
    StatusAndLeBufferSize(StatusAndLeBufferSizeEventParameter),
    StatusAndRandomNumber(StatusAndRandomNumberEventParameter),
    StatusAndSupportedCommands(StatusAndSupportedCommandsEventParameter),
    StatusAndSupportedFeatures(StatusAndSupportedFeaturesEventParameter),
    StatusAndSupportedLeFeatures(StatusAndSupportedLeFeaturesEventParameter),
    StatusAndSupportedLeStates(StatusAndSupportedLeStatesEventParameter),
    StatusAndTxPowerLevel(StatusAndTxPowerLevelEventParameter),
}

/// The status of a completed command.
#[derive(Debug, Clone, Copy, PartialEq, Eq)]
pub struct StatusEventParameter {
    pub status: ErrorCode,
}

/// The status of a Read BD_ADDR command and the public address of the Controller.
#[derive(Debug, Clone, Copy, PartialEq, Eq)]
pub struct StatusAndBdAddrEventParameter {
    pub status: ErrorCode,
    pub bd_addr: PublicDeviceAddress,
}

/// The status of a Read Buffer Size command and the buffer sizes; the first three are never zero.
#[derive(Debug, Clone, Copy, PartialEq, Eq)]
pub struct StatusAndBufferSizeEventParameter {
    pub status: ErrorCode,
    pub acl_data_packet_length: u16,
    pub synchronous_data_packet_length: u8,
    pub total_num_acl_data_packets: u16,
    pub total_num_synchronous_packets: u16,
}

/// The status of a LE Read Filter Accept List Size command and the size of the list.
#[derive(Debug, Clone, Copy, PartialEq, Eq)]
pub struct StatusAndFilterAcceptListSizeEventParameter {
    pub status: ErrorCode,
    pub filter_accept_list_size: usize,
}

/// The status of a LE Read Buffer Size command and the LE buffer sizes.
#[derive(Debug, Clone, Copy, PartialEq, Eq)]
pub struct StatusAndLeBufferSizeEventParameter {
    pub status: ErrorCode,
    pub le_acl_data_packet_length: u16,
    pub total_num_le_acl_data_packets: u8,
}

/// The status of a LE Rand command and the random number.
#[derive(Debug, Clone, Copy, PartialEq, Eq)]
pub struct StatusAndRandomNumberEventParameter {
    pub status: ErrorCode,
    pub random_number: [u8; 8],
}

/// The status of a Read Local Supported Commands command and the supported commands.
#[derive(Debug, Clone, Copy, PartialEq, Eq)]
pub struct StatusAndSupportedCommandsEventParameter {
    pub status: ErrorCode,
    pub supported_commands: SupportedCommands,
}

/// The status of a Read Local Supported Features command and the supported features.
#[derive(Debug, Clone, Copy, PartialEq, Eq)]
pub struct StatusAndSupportedFeaturesEventParameter {
    pub status: ErrorCode,
    pub supported_features: SupportedFeatures,
}

/// The status of a LE Read Local Supported Features command and the supported LE features.
#[derive(Debug, Clone, Copy, PartialEq, Eq)]
pub struct StatusAndSupportedLeFeaturesEventParameter {
    pub status: ErrorCode,
    pub supported_le_features: SupportedLeFeatures,
}

/// The status of a LE Read Supported States command and the supported LE states.
#[derive(Debug, Clone, Copy, PartialEq, Eq)]
pub struct StatusAndSupportedLeStatesEventParameter {
    pub status: ErrorCode,
    pub supported_le_states: SupportedLeStates,
}

/// The status of a LE Read Advertising Channel TX Power command and the TX power level.
#[derive(Debug, Clone, Copy, PartialEq, Eq)]
pub struct StatusAndTxPowerLevelEventParameter {
    pub status: ErrorCode,
    pub tx_power_level: TxPowerLevel,
}

/// The opcodes of the commands whose only return parameter is a status.
pub open spec fn spec_returns_status_only(op: CommandOpCode) -> bool {
    match op {
        CommandOpCode::SetEventMask
        | CommandOpCode::Reset
        | CommandOpCode::LeAddDeviceToFilterAcceptList
        | CommandOpCode::LeClearFilterAcceptList
        | CommandOpCode::LeRemoveDeviceFromFilterAcceptList
        | CommandOpCode::LeSetAdvertisingEnable
        | CommandOpCode::LeSetAdvertisingData
        | CommandOpCode::LeSetAdvertisingParameters
        | CommandOpCode::LeSetEventMask
        | CommandOpCode::LeSetRandomAddress
        | CommandOpCode::LeSetScanEnable
        | CommandOpCode::LeSetScanParameters
        | CommandOpCode::LeSetScanResponseData => true,
        _ => false,
    }
}

/// The status byte at the start of return parameters, where it is a valid error code.
pub open spec fn spec_status(r: Seq<u8>) -> Option<ErrorCode> {
    if r.len() >= 1 && ErrorCode::spec_try_from_u8(r[0]) is Ok {
        Some(ErrorCode::spec_try_from_u8(r[0])->Ok_0)
    } else {
        None
    }
}

/// The TX power level returned by a failed command.
pub closed spec fn spec_default_tx_power_level() -> TxPowerLevel {
    TxPowerLevel::spec_try_new(0)->Ok_0
}

/// The public address returned by a failed command.
pub open spec fn spec_default_bd_addr() -> PublicDeviceAddress {
    PublicDeviceAddress::spec_new(seq![0u8, 0u8, 0u8, 0u8, 0u8, 0u8])
}

/// The random number returned by a failed command.
pub open spec fn spec_default_random_number() -> [u8; 8] {
    spec_array8(seq![0u8, 0u8, 0u8, 0u8, 0u8, 0u8, 0u8, 0u8])
}

/// The return parameters that follow a status: those of a successful command, read from the
/// remaining bytes, which they must fill exactly; those of a failed command, which come with no
/// further byte and hold default values.
pub open spec fn spec_parameter_after_status(
    op: CommandOpCode,
    status: ErrorCode,
    rest: Seq<u8>,
) -> Option<EventParameter> {
    let ok = status == ErrorCode::Success;
    if !ok && rest.len() != 0 {
        None
    } else {
        match op {
            CommandOpCode::LeRand => if !ok {
                Some(EventParameter::StatusAndRandomNumber(StatusAndRandomNumberEventParameter { status, random_number: spec_default_random_number() }))
            } else if rest.len() == 8 {
                Some(EventParameter::StatusAndRandomNumber(StatusAndRandomNumberEventParameter { status, random_number: spec_array8(rest) }))
            } else {
                None
            },
            CommandOpCode::LeReadAdvertisingChannelTxPower => if !ok {
                Some(EventParameter::StatusAndTxPowerLevel(StatusAndTxPowerLevelEventParameter { status, tx_power_level: spec_default_tx_power_level() }))
            } else if rest.len() == 1 && TxPowerLevel::spec_try_new(rest[0] as i8) is Ok {
                Some(EventParameter::StatusAndTxPowerLevel(StatusAndTxPowerLevelEventParameter { status, tx_power_level: TxPowerLevel::spec_try_new(rest[0] as i8)->Ok_0 }))
            } else {
                None
            },
            CommandOpCode::LeReadBufferSize => if !ok {
                Some(EventParameter::StatusAndLeBufferSize(StatusAndLeBufferSizeEventParameter { status, le_acl_data_packet_length: 0, total_num_le_acl_data_packets: 0 }))
            } else if rest.len() == 3 {
                Some(EventParameter::StatusAndLeBufferSize(StatusAndLeBufferSizeEventParameter { status, le_acl_data_packet_length: spec_u16_from_le(rest[0], rest[1]), total_num_le_acl_data_packets: rest[2] }))
            } else {
                None
            },
            CommandOpCode::LeReadFilterAcceptListSize => if !ok {
                Some(EventParameter::StatusAndFilterAcceptListSize(StatusAndFilterAcceptListSizeEventParameter { status, filter_accept_list_size: 0 }))
            } else if rest.len() == 1 {
                Some(EventParameter::StatusAndFilterAcceptListSize(StatusAndFilterAcceptListSizeEventParameter { status, filter_accept_list_size: rest[0] as usize }))
            } else {
                None
            },
            CommandOpCode::LeReadLocalSupportedFeaturesPage0 => if !ok {
                Some(EventParameter::StatusAndSupportedLeFeatures(StatusAndSupportedLeFeaturesEventParameter { status, supported_le_features: SupportedLeFeatures::spec_from_bits_retain(0) }))
            } else if rest.len() == 8 {
                Some(EventParameter::StatusAndSupportedLeFeatures(StatusAndSupportedLeFeaturesEventParameter { status, supported_le_features: SupportedLeFeatures::spec_parse(rest)->Some_0 }))
            } else {
                None
            },
            CommandOpCode::LeReadSupportedStates => if !ok {
                Some(EventParameter::StatusAndSupportedLeStates(StatusAndSupportedLeStatesEventParameter { status, supported_le_states: SupportedLeStates::spec_from_bits_retain(0) }))
            } else if rest.len() == 8 {
                Some(EventParameter::StatusAndSupportedLeStates(StatusAndSupportedLeStatesEventParameter { status, supported_le_states: SupportedLeStates::spec_parse(rest)->Some_0 }))
            } else {
                None
            },
            CommandOpCode::ReadLocalSupportedCommands => if !ok {
                Some(EventParameter::StatusAndSupportedCommands(StatusAndSupportedCommandsEventParameter { status, supported_commands: SupportedCommands::spec_from_bytes(Seq::new(64, |i: int| 0u8)) }))
            } else if rest.len() == 64 {
                Some(EventParameter::StatusAndSupportedCommands(StatusAndSupportedCommandsEventParameter { status, supported_commands: SupportedCommands::spec_from_bytes(rest) }))
            } else {
                None
            },
            CommandOpCode::ReadLocalSupportedFeatures => if !ok {
                Some(EventParameter::StatusAndSupportedFeatures(StatusAndSupportedFeaturesEventParameter { status, supported_features: SupportedFeatures::spec_from_bits_retain(0) }))
            } else if rest.len() == 8 {
                Some(EventParameter::StatusAndSupportedFeatures(StatusAndSupportedFeaturesEventParameter { status, supported_features: SupportedFeatures::spec_parse(rest)->Some_0 }))
            } else {
                None
            },
            CommandOpCode::ReadBdAddr => if !ok {
                Some(EventParameter::StatusAndBdAddr(StatusAndBdAddrEventParameter { status, bd_addr: spec_default_bd_addr() }))
            } else if rest.len() == 6 {
                Some(EventParameter::StatusAndBdAddr(StatusAndBdAddrEventParameter { status, bd_addr: PublicDeviceAddress::spec_new(rest) }))
            } else {
                None
            },
            CommandOpCode::ReadBufferSize => if !ok {
                Some(EventParameter::StatusAndBufferSize(StatusAndBufferSizeEventParameter { status, acl_data_packet_length: 1, synchronous_data_packet_length: 1, total_num_acl_data_packets: 1, total_num_synchronous_packets: 0 }))
            } else if rest.len() == 7 && spec_u16_from_le(rest[0], rest[1]) != 0 && rest[2] != 0 && spec_u16_from_le(rest[3], rest[4]) != 0 {
                Some(EventParameter::StatusAndBufferSize(StatusAndBufferSizeEventParameter {
                    status,
                    acl_data_packet_length: spec_u16_from_le(rest[0], rest[1]),
                    synchronous_data_packet_length: rest[2],
                    total_num_acl_data_packets: spec_u16_from_le(rest[3], rest[4]),
                    total_num_synchronous_packets: spec_u16_from_le(rest[5], rest[6]),
                }))
            } else {
                None
            },
            _ => None,
        }
    }
}

/// The return parameters of a command: none for the no-operation opcode, a status alone for
/// the commands that return nothing else, a status then values for the others; the opcodes of
/// other commands have no return parameters that can be read.
pub open spec fn spec_parse_return_parameters(op: CommandOpCode, r: Seq<u8>) -> Option<EventParameter> {
    if op == CommandOpCode::Nop {
        if r.len() == 0 {
            Some(EventParameter::Empty)
        } else {
            None
        }
    } else if spec_returns_status_only(op) {
        if r.len() == 1 && spec_status(r) is Some {
            Some(EventParameter::Status(StatusEventParameter { status: spec_status(r)->Some_0 }))
        } else {
            None
        }
    } else {
        match spec_status(r) {
            Some(status) => spec_parameter_after_status(op, status, r.drop_first()),
            None => None,
        }
    }
}

/// The signed value of a byte.
pub open spec fn spec_signed(b: u8) -> int {
    if b < 128 {
        b as int
    } else {
        b as int - 256
    }
}

/// A successful LE Read Advertising Channel TX Power returns one signed byte, read exactly when
/// it is a TX power level of -127 to 20 dBm, and then returned; a failed one returns the status
/// alone, with a level of 0 dBm.
pub proof fn lemma_tx_power_level_return_parameters(status: u8, b: u8)
    ensures
        ({
            let p = spec_parse_return_parameters(
                CommandOpCode::LeReadAdvertisingChannelTxPower,
                seq![0u8, b],
            );
            &&& p is Some <==> (b <= 20 || b >= 129)
            &&& p matches Some(q) ==> q matches EventParameter::StatusAndTxPowerLevel(t) && t.status
                == ErrorCode::Success && t.tx_power_level.spec_value() as int == spec_signed(b)
        }),
        status != 0 && ErrorCode::spec_is_code(status) ==> ({
            let p = spec_parse_return_parameters(
                CommandOpCode::LeReadAdvertisingChannelTxPower,
                seq![status],
            );
            p matches Some(EventParameter::StatusAndTxPowerLevel(t)) && t.status.spec_code() == status
                && t.tx_power_level.spec_value() == 0
        }),
{
    crate::error_code::lemma_error_code_values();
    let r = seq![0u8, b];
    assert(r.drop_first() =~= seq![b]);
    assert((b as i8) as int == spec_signed(b)) by (bit_vector);
    TxPowerLevel::lemma_spec_try_new_value(b as i8);
    TxPowerLevel::lemma_spec_try_new_value(0i8);
    if status != 0 && ErrorCode::spec_is_code(status) {
        crate::error_code::lemma_error_code_try_from_u8_to_u8(status);
        assert(seq![status].drop_first() =~= Seq::<u8>::empty());
        assert(spec_default_tx_power_level().spec_value() == 0);
    }
}

/// A successful LE Read Buffer Size returns the LE ACL data packet length (little-endian) and the
/// total number of LE ACL data packets, in exactly three bytes.
pub proof fn lemma_le_buffer_size_return_parameters(r: Seq<u8>)
    ensures
        ({
            let p = spec_parse_return_parameters(
                CommandOpCode::LeReadBufferSize,
                seq![0u8] + r,
            );
            &&& p is Some <==> r.len() == 3
            &&& p matches Some(q) ==> q matches EventParameter::StatusAndLeBufferSize(t) && t.status
                == ErrorCode::Success && t.le_acl_data_packet_length as int == r[0] as int + 256 * (
            r[1] as int) && t.total_num_le_acl_data_packets == r[2]
        }),
{
    crate::error_code::lemma_error_code_values();
    assert((seq![0u8] + r).drop_first() =~= r);
    assert((seq![0u8] + r)[0] == 0);
    if r.len() == 3 {
        crate::bytes::lemma_u16_from_le_value(r[0], r[1]);
    }
}

/// A successful Read Buffer Size returns, little-endian, the ACL data packet length, the
/// synchronous data packet length (one byte), the total number of ACL data packets and the total
/// number of synchronous data packets, in exactly seven bytes, the first three values not zero.
pub proof fn lemma_buffer_size_return_parameters(r: Seq<u8>)
    ensures
        ({
            let p = spec_parse_return_parameters(CommandOpCode::ReadBufferSize, seq![0u8] + r);
            let acl = r[0] as int + 256 * (r[1] as int);
            let total_acl = r[3] as int + 256 * (r[4] as int);
            &&& p is Some <==> r.len() == 7 && acl != 0 && r[2] != 0 && total_acl != 0
            &&& p matches Some(q) ==> q matches EventParameter::StatusAndBufferSize(t) && t.status
                == ErrorCode::Success && t.acl_data_packet_length as int == acl
                && t.synchronous_data_packet_length == r[2] && t.total_num_acl_data_packets as int
                == total_acl && t.total_num_synchronous_packets as int == r[5] as int + 256 * (
            r[6] as int)
        }),
{
    crate::error_code::lemma_error_code_values();
    assert((seq![0u8] + r).drop_first() =~= r);
    assert((seq![0u8] + r)[0] == 0);
    if r.len() == 7 {
        crate::bytes::lemma_u16_from_le_value(r[0], r[1]);
        crate::bytes::lemma_u16_from_le_value(r[3], r[4]);
        crate::bytes::lemma_u16_from_le_value(r[5], r[6]);
    }
}

fn parameter_after_status(op: CommandOpCode, status: ErrorCode, rest: &[u8]) -> (r: Option<EventParameter>)
    ensures
        r == spec_parameter_after_status(op, status, rest@),
{
    let ok = status.is_success();
    if !ok && rest.len() != 0 {
        return None;
    }
    match op {
        CommandOpCode::LeRand => if !ok {
            let random_number = [0u8, 0u8, 0u8, 0u8, 0u8, 0u8, 0u8, 0u8];
            proof {
                assert(random_number@ =~= seq![0u8, 0u8, 0u8, 0u8, 0u8, 0u8, 0u8, 0u8]);
                crate::bytes::lemma_array8_of_bytes(random_number);
            }
            Some(EventParameter::StatusAndRandomNumber(StatusAndRandomNumberEventParameter { status, random_number }))
        } else if rest.len() == 8 {
            let random_number = read_array8(rest, 0);
            assert(rest@.subrange(0, 8) =~= rest@);
            Some(EventParameter::StatusAndRandomNumber(StatusAndRandomNumberEventParameter { status, random_number }))
        } else {
            None
        },
        CommandOpCode::LeReadAdvertisingChannelTxPower => if !ok {
            let tx_power_level = TxPowerLevel::default();
            proof {
                TxPowerLevel::lemma_spec_try_new_value(0);
                TxPowerLevel::lemma_spec_value_injective(tx_power_level, spec_default_tx_power_level());
            }
            Some(EventParameter::StatusAndTxPowerLevel(StatusAndTxPowerLevelEventParameter { status, tx_power_level }))
        } else if rest.len() == 1 {
            match TxPowerLevel::try_new(#[verifier::truncate] (rest[0] as i8)) {
                Ok(tx_power_level) => Some(EventParameter::StatusAndTxPowerLevel(StatusAndTxPowerLevelEventParameter { status, tx_power_level })),
                Err(_) => None,
            }
        } else {
            None
        },
        CommandOpCode::LeReadBufferSize => if !ok {
            Some(EventParameter::StatusAndLeBufferSize(StatusAndLeBufferSizeEventParameter { status, le_acl_data_packet_length: 0, total_num_le_acl_data_packets: 0 }))
        } else if rest.len() == 3 {
            Some(EventParameter::StatusAndLeBufferSize(StatusAndLeBufferSizeEventParameter { status, le_acl_data_packet_length: read_u16_le(rest, 0), total_num_le_acl_data_packets: rest[2] }))
        } else {
            None
        },
        CommandOpCode::LeReadFilterAcceptListSize => if !ok {
            Some(EventParameter::StatusAndFilterAcceptListSize(StatusAndFilterAcceptListSizeEventParameter { status, filter_accept_list_size: 0 }))
        } else if rest.len() == 1 {
            Some(EventParameter::StatusAndFilterAcceptListSize(StatusAndFilterAcceptListSizeEventParameter { status, filter_accept_list_size: rest[0] as usize }))
        } else {
            None
        },
        CommandOpCode::LeReadLocalSupportedFeaturesPage0 => if !ok {
            Some(EventParameter::StatusAndSupportedLeFeatures(StatusAndSupportedLeFeaturesEventParameter { status, supported_le_features: SupportedLeFeatures::from_bits_retain(0) }))
        } else {
            match SupportedLeFeatures::parse(rest) {
                Some(supported_le_features) => Some(EventParameter::StatusAndSupportedLeFeatures(StatusAndSupportedLeFeaturesEventParameter { status, supported_le_features })),
                None => None,
            }
        },
        CommandOpCode::LeReadSupportedStates => if !ok {
            Some(EventParameter::StatusAndSupportedLeStates(StatusAndSupportedLeStatesEventParameter { status, supported_le_states: SupportedLeStates::from_bits_retain(0) }))
        } else {
            match SupportedLeStates::parse(rest) {
                Some(supported_le_states) => Some(EventParameter::StatusAndSupportedLeStates(StatusAndSupportedLeStatesEventParameter { status, supported_le_states })),
                None => None,
            }
        },
        CommandOpCode::ReadLocalSupportedCommands => if !ok {
            let supported_commands = SupportedCommands::from_bytes([0u8; 64]);
            proof {
                assert(supported_commands.spec_bytes() =~= Seq::new(64, |i: int| 0u8));
            }
            Some(EventParameter::StatusAndSupportedCommands(StatusAndSupportedCommandsEventParameter { status, supported_commands }))
        } else if rest.len() == 64 {
            let bytes = read_array64(rest, 0);
            assert(bytes@ =~= rest@);
            let supported_commands = SupportedCommands::from_bytes(bytes);
            Some(EventParameter::StatusAndSupportedCommands(StatusAndSupportedCommandsEventParameter { status, supported_commands }))
        } else {
            None
        },
        CommandOpCode::ReadLocalSupportedFeatures => if !ok {
            Some(EventParameter::StatusAndSupportedFeatures(StatusAndSupportedFeaturesEventParameter { status, supported_features: SupportedFeatures::from_bits_retain(0) }))
        } else {
            match SupportedFeatures::parse(rest) {
                Some(supported_features) => Some(EventParameter::StatusAndSupportedFeatures(StatusAndSupportedFeaturesEventParameter { status, supported_features })),
                None => None,
            }
        },
        CommandOpCode::ReadBdAddr => if !ok {
            let bd_addr = PublicDeviceAddress::new([0u8, 0u8, 0u8, 0u8, 0u8, 0u8]);
            proof {
                assert(bd_addr.spec_value() =~= seq![0u8, 0u8, 0u8, 0u8, 0u8, 0u8]);
                bd_addr.lemma_spec_new_spec_value();
            }
            Some(EventParameter::StatusAndBdAddr(StatusAndBdAddrEventParameter { status, bd_addr }))
        } else if rest.len() == 6 {
            let bytes = read_array6(rest, 0);
            assert(bytes@ =~= rest@);
            Some(EventParameter::StatusAndBdAddr(StatusAndBdAddrEventParameter { status, bd_addr: PublicDeviceAddress::new(bytes) }))
        } else {
            None
        },
        CommandOpCode::ReadBufferSize => if !ok {
            Some(EventParameter::StatusAndBufferSize(StatusAndBufferSizeEventParameter { status, acl_data_packet_length: 1, synchronous_data_packet_length: 1, total_num_acl_data_packets: 1, total_num_synchronous_packets: 0 }))
        } else if rest.len() == 7 {
            let acl_data_packet_length = read_u16_le(rest, 0);
            let synchronous_data_packet_length = rest[2];
            let total_num_acl_data_packets = read_u16_le(rest, 3);
            let total_num_synchronous_packets = read_u16_le(rest, 5);
            if acl_data_packet_length == 0 || synchronous_data_packet_length == 0 || total_num_acl_data_packets == 0 {
                None
            } else {
                Some(EventParameter::StatusAndBufferSize(StatusAndBufferSizeEventParameter {
                    status,
                    acl_data_packet_length,
                    synchronous_data_packet_length,
                    total_num_acl_data_packets,
                    total_num_synchronous_packets,
                }))
            }
        } else {
            None
        },
        _ => None,
    }
}

fn returns_status_only(op: CommandOpCode) -> (r: bool)
    ensures
        r == spec_returns_status_only(op),
{
    match op {
        CommandOpCode::SetEventMask
        | CommandOpCode::Reset
        | CommandOpCode::LeAddDeviceToFilterAcceptList
        | CommandOpCode::LeClearFilterAcceptList
        | CommandOpCode::LeRemoveDeviceFromFilterAcceptList
        | CommandOpCode::LeSetAdvertisingEnable
        | CommandOpCode::LeSetAdvertisingData
        | CommandOpCode::LeSetAdvertisingParameters
        | CommandOpCode::LeSetEventMask
        | CommandOpCode::LeSetRandomAddress
        | CommandOpCode::LeSetScanEnable
        | CommandOpCode::LeSetScanParameters
        | CommandOpCode::LeSetScanResponseData => true,
        _ => false,
    }
}

/// Reads the return parameters of a command.
pub fn parse_return_parameters(op: CommandOpCode, r: &[u8]) -> (p: Option<EventParameter>)
    ensures
        p == spec_parse_return_parameters(op, r@),
{
    if op == CommandOpCode::Nop {
        if r.len() == 0 {
            Some(EventParameter::Empty)
        } else {
            None
        }
    } else if r.len() == 0 {
        None
    } else {
        let status = match ErrorCode::try_from_u8(r[0]) {
            Ok(status) => status,
            Err(_) => return None,
        };
        if returns_status_only(op) {
            if r.len() == 1 {
                Some(EventParameter::Status(StatusEventParameter { status }))
            } else {
                None
            }
        } else {
            let rest = vstd::slice::slice_subrange(r, 1, r.len());
            assert(rest@ =~= r@.drop_first());
            parameter_after_status(op, status, rest)
        }
    }
}

impl CommandCompleteEvent {
    /// The outcome of parsing the parameters of a Command Complete event: the number of command
    /// packets, the opcode, then the return parameters of that command, which fill the rest.
    pub open spec fn spec_parse(s: Seq<u8>) -> Option<CommandCompleteEvent> {
        if s.len() < 3 {
            None
        } else {
            let op = CommandOpCode::spec_from_u16(spec_u16_from_le(s[1], s[2]));
            match spec_parse_return_parameters(op, s.subrange(3, s.len() as int)) {
                Some(parameter) => Some(CommandCompleteEvent { num_hci_command_packets: s[0], opcode: op, parameter }),
                None => None,
            }
        }
    }

    /// Parses the parameters of a Command Complete event.
    pub fn parse(input: &[u8]) -> (r: Option<CommandCompleteEvent>)
        ensures
            r == CommandCompleteEvent::spec_parse(input@),
    {
        if input.len() < 3 {
            return None;
        }
        let op = CommandOpCode::from_u16(read_u16_le(input, 1));
        let rest = vstd::slice::slice_subrange(input, 3, input.len());
        match parse_return_parameters(op, rest) {
            Some(parameter) => Some(CommandCompleteEvent { num_hci_command_packets: input[0], opcode: op, parameter }),
            None => None,
        }
    }
}

impl CommandCompleteEvent {
    /// A parsed Command Complete event holds the number of command packets of the first byte, the
    /// opcode of the next two bytes (little-endian) and the return parameters of that opcode read
    /// from the rest.
    pub proof fn lemma_parse_fields(s: Seq<u8>)
        ensures
            CommandCompleteEvent::spec_parse(s) matches Some(e) ==> {
                &&& e.num_hci_command_packets == s[0]
                &&& e.opcode.spec_to_u16() as int == s[1] as int + 256 * (s[2] as int)
                &&& Some(e.parameter) == spec_parse_return_parameters(
                    e.opcode,
                    s.subrange(3, s.len() as int),
                )
            },
    {
        if s.len() >= 3 {
            crate::bytes::lemma_u16_from_le_value(s[1], s[2]);
            CommandOpCode::lemma_to_from_u16(spec_u16_from_le(s[1], s[2]));
        }
    }
}


} // verus!
