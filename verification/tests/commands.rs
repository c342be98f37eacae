use bletio_hci::advertising::advertising_enable::AdvertisingEnable;
use bletio_hci::advertising_data::{AdvertisingData, ScanResponseData};
use bletio_hci::advertising_parameters::AdvertisingParameters;
use bletio_hci::command::{
    opcode, Command, CommandOpCode, CONTROLLER_AND_BASEBAND_OGF, INFORMATIONAL_PARAMETERS_OGF,
    LE_CONTROLLER_OGF, NOP_OGF,
};
use bletio_hci::common::le_event_mask::LeEventMask;
use bletio_hci::common::le_filter_accept_list_address::LeFilterAcceptListAddress;
use bletio_hci::connection::connection_handle::ConnectionHandle;
use bletio_hci::connection::reason::Reason;
use bletio_hci::device_address::{DeviceAddress, RandomStaticDeviceAddress};
use bletio_hci::event_mask::EventMask;
use bletio_hci::packet::Packet;
use bletio_hci::scanning::scan_enable::{FilterDuplicates, ScanEnable};
use bletio_hci::scanning::scan_parameters::ScanParameters;
use bletio_hci::Error;

fn check_encode(command: Command, expected_opcode: CommandOpCode, expected: &[u8]) {
    let packet = command.encode().unwrap();
    assert_eq!(packet.data(), expected);
    assert_eq!(command.opcode(), expected_opcode);
}

fn check_roundtrip(command: Command) {
    let packet = command.encode().unwrap();
    let (n, parsed) = Packet::parse(packet.data()).unwrap();
    assert_eq!(n, packet.data().len());
    assert_eq!(parsed, Packet::Command(command));
}

#[test]
fn opcode_is_group_and_command_number() {
    assert_eq!(opcode(NOP_OGF, 0), 0);
    assert_eq!(opcode(CONTROLLER_AND_BASEBAND_OGF, 3), 0x0C03);
    assert_eq!(opcode(INFORMATIONAL_PARAMETERS_OGF, 5), 0x1005);
    assert_eq!(opcode(LE_CONTROLLER_OGF, 10), 0x200A);
}

#[test]
fn command_opcode_from_and_into_u16() {
    for (input, expected) in [
        (0x0000u16, CommandOpCode::Nop),
        (0x200A, CommandOpCode::LeSetAdvertisingEnable),
        (0x0C08, CommandOpCode::Unsupported(0x0C08)),
    ] {
        let opcode: CommandOpCode = input.into();
        assert_eq!(opcode, expected);
        let value: u16 = opcode.into();
        assert_eq!(value, input);
    }
}

#[test]
fn command_encoding_without_parameters() {
    check_encode(Command::Nop, CommandOpCode::Nop, &[1, 0, 0, 0]);
    check_encode(Command::LeRand, CommandOpCode::LeRand, &[1, 24, 32, 0]);
    check_encode(
        Command::LeReadAdvertisingChannelTxPower,
        CommandOpCode::LeReadAdvertisingChannelTxPower,
        &[1, 7, 32, 0],
    );
    check_encode(Command::LeReadBufferSize, CommandOpCode::LeReadBufferSize, &[1, 2, 32, 0]);
    check_encode(
        Command::LeReadLocalSupportedFeaturesPage0,
        CommandOpCode::LeReadLocalSupportedFeaturesPage0,
        &[1, 3, 32, 0],
    );
    check_encode(Command::LeReadSupportedStates, CommandOpCode::LeReadSupportedStates, &[1, 28, 32, 0]);
    check_encode(Command::ReadBdAddr, CommandOpCode::ReadBdAddr, &[1, 9, 16, 0]);
    check_encode(Command::ReadBufferSize, CommandOpCode::ReadBufferSize, &[1, 5, 16, 0]);
    check_encode(
        Command::ReadLocalSupportedCommands,
        CommandOpCode::ReadLocalSupportedCommands,
        &[1, 2, 16, 0],
    );
    check_encode(
        Command::ReadLocalSupportedFeatures,
        CommandOpCode::ReadLocalSupportedFeatures,
        &[1, 3, 16, 0],
    );
    check_encode(Command::Reset, CommandOpCode::Reset, &[1, 3, 12, 0]);
    check_encode(Command::LeClearFilterAcceptList, CommandOpCode::LeClearFilterAcceptList, &[1, 16, 32, 0]);
    check_encode(
        Command::LeReadFilterAcceptListSize,
        CommandOpCode::LeReadFilterAcceptListSize,
        &[1, 15, 32, 0],
    );
}

#[test]
fn command_encoding_with_parameters() {
    check_encode(
        Command::LeSetAdvertisingEnable(AdvertisingEnable::Enabled),
        CommandOpCode::LeSetAdvertisingEnable,
        &[1, 10, 32, 1, 1],
    );
    let mut expected = vec![1, 8, 32, 32];
    expected.extend_from_slice(&[0u8; 32]);
    check_encode(
        Command::LeSetAdvertisingData(AdvertisingData::default()),
        CommandOpCode::LeSetAdvertisingData,
        &expected,
    );
    let mut expected = vec![1, 9, 32, 32];
    expected.extend_from_slice(&[0u8; 32]);
    check_encode(
        Command::LeSetScanResponseData(ScanResponseData::default()),
        CommandOpCode::LeSetScanResponseData,
        &expected,
    );
    check_encode(
        Command::LeSetAdvertisingParameters(AdvertisingParameters::default()),
        CommandOpCode::LeSetAdvertisingParameters,
        &[1, 6, 32, 15, 0, 8, 0, 8, 0, 0, 0, 0, 0, 0, 0, 0, 0, 7, 0],
    );
    check_encode(
        Command::LeSetEventMask(LeEventMask::default()),
        CommandOpCode::LeSetEventMask,
        &[1, 1, 32, 8, 31, 0, 0, 0, 0, 0, 0, 0],
    );
    check_encode(
        Command::LeSetRandomAddress([68, 223, 27, 9, 83, 250].try_into().unwrap()),
        CommandOpCode::LeSetRandomAddress,
        &[1, 5, 32, 6, 68, 223, 27, 9, 83, 250],
    );
    check_encode(
        Command::SetEventMask(
            EventMask::hardware_error() | EventMask::data_buffer_overflow() | EventMask::disconnection_complete(),
        ),
        CommandOpCode::SetEventMask,
        &[1, 1, 12, 8, 16, 128, 0, 2, 0, 0, 0, 0],
    );
    check_encode(
        Command::SetEventMask(EventMask::hardware_error() | EventMask::data_buffer_overflow()),
        CommandOpCode::SetEventMask,
        &[1, 1, 12, 8, 0, 128, 0, 2, 0, 0, 0, 0],
    );
    check_encode(
        Command::LeSetScanEnable(ScanEnable::Enabled, FilterDuplicates::Disabled),
        CommandOpCode::LeSetScanEnable,
        &[1, 12, 32, 2, 1, 0],
    );
    check_encode(
        Command::LeSetScanParameters(ScanParameters::default()),
        CommandOpCode::LeSetScanParameters,
        &[1, 11, 32, 7, 0, 16, 0, 16, 0, 0, 0],
    );
    let address: DeviceAddress =
        RandomStaticDeviceAddress::try_new([68, 223, 27, 9, 83, 250]).unwrap().into();
    check_encode(
        Command::LeAddDeviceToFilterAcceptList(LeFilterAcceptListAddress::from(address)),
        CommandOpCode::LeAddDeviceToFilterAcceptList,
        &[1, 17, 32, 7, 1, 68, 223, 27, 9, 83, 250],
    );
    check_encode(
        Command::LeRemoveDeviceFromFilterAcceptList(LeFilterAcceptListAddress::from(address)),
        CommandOpCode::LeRemoveDeviceFromFilterAcceptList,
        &[1, 18, 32, 7, 1, 68, 223, 27, 9, 83, 250],
    );
    check_encode(
        Command::Disconnect(ConnectionHandle::try_new(1).unwrap(), Reason::try_from(0x13u8).unwrap()),
        CommandOpCode::Disconnect,
        &[1, 6, 4, 3, 1, 0, 0x13],
    );
}

#[test]
fn encoded_commands_parse_back() {
    check_roundtrip(Command::Nop);
    check_roundtrip(Command::Reset);
    check_roundtrip(Command::LeSetAdvertisingEnable(AdvertisingEnable::Disabled));
    check_roundtrip(Command::LeSetAdvertisingParameters(AdvertisingParameters::default()));
    check_roundtrip(Command::LeSetAdvertisingData(AdvertisingData::default()));
    check_roundtrip(Command::LeSetEventMask(LeEventMask::default()));
    check_roundtrip(Command::SetEventMask(EventMask::default()));
    check_roundtrip(Command::LeSetRandomAddress([68, 223, 27, 9, 83, 250].try_into().unwrap()));
    check_roundtrip(Command::LeSetScanEnable(ScanEnable::Enabled, FilterDuplicates::Enabled));
    check_roundtrip(Command::LeSetScanParameters(ScanParameters::default()));
    check_roundtrip(Command::LeAddDeviceToFilterAcceptList(LeFilterAcceptListAddress::Anonymous));
    check_roundtrip(Command::Disconnect(
        ConnectionHandle::try_new(0x0EFF).unwrap(),
        Reason::try_from(0x05u8).unwrap(),
    ));
}

#[test]
fn unsupported_command_is_refused() {
    let command = Command::Unsupported(0x0C08);
    assert!(matches!(command.encode(), Err(Error::InvalidCommand(0x0C08))));
}

#[test]
fn command_packet_parsing_failures() {
    // Truncated parameters.
    assert!(Packet::parse(&[1, 10, 32, 1]).is_none());
    // Invalid advertising enable value.
    assert!(Packet::parse(&[1, 10, 32, 1, 2]).is_none());
    // Random static address with all bits set.
    assert!(Packet::parse(&[1, 5, 32, 6, 255, 255, 255, 255, 255, 255]).is_none());
    // An unknown opcode is kept, with its parameters ignored.
    let (n, packet) = Packet::parse(&[1, 8, 12, 1, 7]).unwrap();
    assert_eq!(n, 5);
    assert_eq!(packet, Packet::Command(Command::Unsupported(0x0C08)));
}
