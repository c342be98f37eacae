use bletio_hci::advertising_data::{AdvertisingData, ScanResponseData};
use bletio_hci::advertising_parameters::{
    AdvertisingChannelMap, AdvertisingFilterPolicy, AdvertisingInterval, AdvertisingIntervalRange,
    AdvertisingParameters, AdvertisingType,
};
use bletio_hci::command::{Command, CommandOpCode, CommandPacket};
use bletio_hci::common::le_event_mask::LeEventMask;
use bletio_hci::common::le_filter_accept_list_address::{
    LeFilterAcceptListAddress, LeFilterAcceptListAddressType,
};
use bletio_hci::common::own_address_type::OwnAddressType;
use bletio_hci::connection::connection_handle::ConnectionHandle;
use bletio_hci::connection::latency::Latency;
use bletio_hci::connection::supervision_timeout::SupervisionTimeout;
use bletio_hci::device_address::{
    DeviceAddress, PublicDeviceAddress, RandomAddress, RandomResolvablePrivateAddress,
    RandomStaticDeviceAddress,
};
use bletio_hci::encode::EncodeToBuffer;
use bletio_hci::error::Error;
use bletio_hci::error_code::ErrorCode;
use bletio_hci::event::le_advertising_report::LeAdvertisingReportData;
use bletio_hci::event::le_connection_complete::{
    CentralClockAccuracy, LeConnectionCompleteEvent, Role,
};
use bletio_hci::event::le_connection_update_complete::LeConnectionUpdateCompleteEvent;
use bletio_hci::event::le_meta::LeMetaEvent;
use bletio_hci::event::Event;
use bletio_hci::event_mask::EventMask;
use bletio_hci::packet::{Packet, PacketType};
use bletio_hci::supported_commands::SupportedCommands;
use bletio_hci::supported_le_features::SupportedLeFeatures;
use bletio_hci::connection::connection_event_length as event_length;
use bletio_hci::connection::connection_interval as interval;
use bletio_hci::connection::connection_parameters as parameters;
use bletio_hci::connection::connection_peer_address::ConnectionPeerAddress;
use bletio_hci::connection::connection_update_parameters::ConnectionUpdateParameters;
use bletio_hci::connection_interval as undefined_interval;
use bletio_hci::scan_parameters as old_scan;
use bletio_hci::scanning::scan_parameters as scan;
use bletio_hci::scanning::scan_window::ScanWindow;
use bletio_hci::scan_interval::ScanInterval;

#[test]
fn test_default_advertising_parameters() {
    let adv_params = AdvertisingParameters::default();
    assert_eq!(
        adv_params,
        AdvertisingParameters::try_new(
            AdvertisingIntervalRange::default(),
            AdvertisingType::default(),
            OwnAddressType::default(),
            DeviceAddress::default(),
            AdvertisingChannelMap::default(),
            AdvertisingFilterPolicy::default(),
        )
        .unwrap(),
    );
}

#[test]
fn test_advertising_interval_default() {
    let value = AdvertisingInterval::default();
    assert_eq!(value.value(), 0x800);
}

#[test]
fn le_event_mask_test_eventmask_default() {
    let value = LeEventMask::default();
    assert_eq!(value.bits(), 0x0000_0000_0000_001F);
}

#[test]
fn event_mask_test_eventmask_default() {
    let value = EventMask::default();
    assert_eq!(value.bits(), 0x0000_1FFF_FFFF_FFFF);
}

#[test]
fn test_le_filter_accept_list_address_anonymous() {
    let address = LeFilterAcceptListAddress::Anonymous;
    assert_eq!(address.address_type(), LeFilterAcceptListAddressType::Anonymous);
    assert_eq!(address.value(), [0u8; 6]);
}

#[test]
fn test_le_filter_accept_list_address_from_public_address() {
    let data = [0xCD, 0x2E, 0x0B, 0x04, 0x32, 0x56];
    let address = PublicDeviceAddress::new(data);
    let address: LeFilterAcceptListAddress = address.into();
    assert_eq!(address.address_type(), LeFilterAcceptListAddressType::PublicDevice);
    assert_eq!(address.value(), data);
}

#[test]
fn test_le_filter_accept_list_address_from_random_address() {
    let data = [0x28, 0xC8, 0xE9, 0x7D, 0x6A, 0xF7];
    let address = RandomAddress::Static(RandomStaticDeviceAddress::try_new(data).unwrap());
    let address: LeFilterAcceptListAddress = address.into();
    assert_eq!(address.address_type(), LeFilterAcceptListAddressType::RandomDevice);
    assert_eq!(address.value(), data);
}

#[test]
fn connection_event_length_test_connection_event_length_range_default() {
    let range = event_length::ConnectionEventLengthRange::default();
    assert_eq!(range.min(), event_length::ConnectionEventLength::default());
    assert_eq!(range.max(), event_length::ConnectionEventLength::default());
}

#[test]
fn connection_parameters_test_connection_event_length_range_default() {
    let range = parameters::ConnectionEventLengthRange::default();
    assert_eq!(range.min(), parameters::ConnectionEventLength::default());
    assert_eq!(range.max(), parameters::ConnectionEventLength::default());
}

#[test]
fn test_connection_interval_default() {
    let value = interval::ConnectionInterval::default();
    assert_eq!(value.value(), 64);
}

#[test]
fn test_connection_interval_comparison() -> Result<(), Error> {
    let value1: interval::ConnectionInterval = 0x0020.try_into()?;
    let value2 = interval::ConnectionInterval::try_new(0x0020)?;
    assert_eq!(value1, value2);

    let value1: interval::ConnectionInterval = 0x0006.try_into()?;
    let value2 = interval::ConnectionInterval::try_new(0x0C80)?;
    assert!(value1 <= value2);
    assert!(value2 >= value1);
    Ok(())
}

#[test]
fn test_connection_interval_range_default() {
    let range = interval::ConnectionIntervalRange::default();
    assert_eq!(range.min(), interval::ConnectionInterval::default());
    assert_eq!(range.max(), interval::ConnectionInterval::default());
}

#[test]
fn test_connection_interval_value_comparison() -> Result<(), Error> {
    let value1: undefined_interval::ConnectionInterval = 0x0020.try_into()?;
    let value2 = undefined_interval::ConnectionInterval::try_new(0x0020)?;
    assert_eq!(value1, value2);

    let value1 = undefined_interval::ConnectionInterval::undefined();
    let value2 = undefined_interval::ConnectionInterval::undefined();
    assert_ne!(value1, value2);
    assert!(value1 <= value2);
    assert!(value2 <= value1);

    let value1: undefined_interval::ConnectionInterval = 0x0006.try_into()?;
    let value2 = undefined_interval::ConnectionInterval::try_new(0x0C80)?;
    assert!(value1 <= value2);
    assert!(value2 >= value1);

    let value1 = undefined_interval::ConnectionInterval::undefined();
    let value2 = undefined_interval::ConnectionInterval::try_new(0x0100)?;
    assert!(value1 <= value2);
    assert!(value2 <= value1);
    Ok(())
}

#[test]
fn test_connection_parameters_success() {
    let scan_interval = ScanInterval::default();
    let scan_window = ScanWindow::default();
    let initiator_filter_policy = parameters::InitiatorFilterPolicy::default();
    let peer_address = ConnectionPeerAddress::default();
    let own_address_type = OwnAddressType::default();
    let connection_interval_range = interval::ConnectionIntervalRange::default();
    let max_latency = Latency::default();
    let supervision_timeout = SupervisionTimeout::default();
    let connection_event_length_range = parameters::ConnectionEventLengthRange::default();
    let params = parameters::ConnectionParameters::try_new(
        scan_interval,
        scan_window,
        initiator_filter_policy,
        peer_address.clone(),
        own_address_type,
        connection_interval_range.clone(),
        max_latency,
        supervision_timeout,
        connection_event_length_range.clone(),
    )
    .unwrap();
    assert_eq!(params.scan_interval(), scan_interval);
    assert_eq!(params.scan_window(), scan_window);
    assert_eq!(params.initiator_filter_policy(), initiator_filter_policy);
    assert_eq!(params.peer_address(), &peer_address);
    assert_eq!(params.own_address_type(), own_address_type);
    assert_eq!(params.connection_interval_range(), &connection_interval_range);
    assert_eq!(params.max_latency(), max_latency);
    assert_eq!(params.supervision_timeout(), supervision_timeout);
    assert_eq!(params.connection_event_length_range(), &connection_event_length_range);
}

#[test]
fn test_connection_update_parameters_success() {
    let connection_handle = ConnectionHandle::default();
    let connection_interval_range = interval::ConnectionIntervalRange::default();
    let max_latency = Latency::default();
    let supervision_timeout = SupervisionTimeout::default();
    let connection_event_length_range = event_length::ConnectionEventLengthRange::default();
    let params = ConnectionUpdateParameters::try_new(
        connection_handle,
        connection_interval_range.clone(),
        max_latency,
        supervision_timeout,
        connection_event_length_range.clone(),
    )
    .unwrap();
    assert_eq!(params.connection_handle(), &connection_handle);
    assert_eq!(params.connection_interval_range(), &connection_interval_range);
    assert_eq!(params.max_latency(), max_latency);
    assert_eq!(params.supervision_timeout(), supervision_timeout);
    assert_eq!(params.connection_event_length_range(), &connection_event_length_range);
}

#[test]
fn test_random_static_device_address_try_new_from_random_bytes() -> Result<(), Error> {
    let random_address =
        RandomStaticDeviceAddress::try_new_from_random_bytes([68, 223, 27, 9, 83, 58])?;
    assert_eq!(random_address.value(), &[0x44, 0xDF, 0x1B, 0x09, 0x53, 0xFA]);
    Ok(())
}

#[test]
fn test_hci_error_code_creation_success() -> Result<(), Error> {
    let value: ErrorCode = 0x3Au8.try_into()?;
    assert_eq!(value, ErrorCode::ControllerBusy);
    Ok(())
}

#[test]
fn test_hci_error_code_creation_failure() {
    let err = ErrorCode::try_from(0x93u8).expect_err("Invalid HCI error code");
    assert!(matches!(err, Error::InvalidErrorCode(0x93)));
}

#[test]
fn test_hci_error_code_is_success() {
    assert!(ErrorCode::Success.is_success());
    assert!(!ErrorCode::PacketTooLong.is_success());
}

#[test]
fn test_le_connection_complete_event() {
    let central_clock_accuracy = CentralClockAccuracy::Ppm150;
    let connection_handle = ConnectionHandle::try_new(0).unwrap();
    let connection_interval = interval::ConnectionInterval::try_new(64).unwrap();
    let peer_address: DeviceAddress =
        RandomResolvablePrivateAddress::try_new([83, 251, 125, 93, 119, 88])
            .unwrap()
            .into();
    let peripheral_latency = Latency::try_new(0).unwrap();
    let role = Role::Central;
    let status = ErrorCode::Success;
    let supervision_timeout = SupervisionTimeout::try_new(32).unwrap();
    let le_connection_complete_event = LeConnectionCompleteEvent::new(
        status,
        connection_handle,
        role,
        peer_address.clone(),
        connection_interval,
        peripheral_latency,
        supervision_timeout,
        central_clock_accuracy,
    );
    assert_eq!(le_connection_complete_event.central_clock_accuracy(), central_clock_accuracy);
    assert_eq!(le_connection_complete_event.connection_handle(), connection_handle);
    assert_eq!(le_connection_complete_event.connection_interval(), connection_interval);
    assert_eq!(le_connection_complete_event.peer_address(), &peer_address);
    assert_eq!(le_connection_complete_event.peripheral_latency(), peripheral_latency);
    assert_eq!(le_connection_complete_event.role(), role);
    assert_eq!(le_connection_complete_event.status(), status);
    assert_eq!(le_connection_complete_event.supervision_timeout(), supervision_timeout);
}

#[test]
fn test_le_connection_update_complete_event() {
    let connection_handle = ConnectionHandle::try_new(0).unwrap();
    let connection_interval = interval::ConnectionInterval::try_new(64).unwrap();
    let peripheral_latency = Latency::try_new(0).unwrap();
    let status = ErrorCode::Success;
    let supervision_timeout = SupervisionTimeout::try_new(32).unwrap();
    let le_connection_update_complete_event = LeConnectionUpdateCompleteEvent::new(
        status,
        connection_handle,
        connection_interval,
        peripheral_latency,
        supervision_timeout,
    );
    assert_eq!(le_connection_update_complete_event.connection_handle(), connection_handle);
    assert_eq!(le_connection_update_complete_event.connection_interval(), connection_interval);
    assert_eq!(le_connection_update_complete_event.peripheral_latency(), peripheral_latency);
    assert_eq!(le_connection_update_complete_event.status(), status);
    assert_eq!(le_connection_update_complete_event.supervision_timeout(), supervision_timeout);
}

#[test]
fn test_valid_packet_type() -> Result<(), Error> {
    let packet_type: PacketType = 4u8.try_into()?;
    assert_eq!(packet_type, PacketType::Event);
    Ok(())
}

#[test]
fn test_invalid_packet_type() {
    let err: Result<PacketType, Error> = 10u8.try_into();
    assert!(matches!(err, Err(Error::InvalidPacketType(_))));
}

#[test]
fn scan_parameters_test_invalid_scan_parameters_failure() -> Result<(), Error> {
    let err = old_scan::ScanParameters::try_new(
        old_scan::ScanType::ActiveScanning,
        old_scan::ScanInterval::try_new(0x0010)?,
        old_scan::ScanWindow::try_new(0x0020)?,
        OwnAddressType::PublicDeviceAddress,
        old_scan::ScanningFilterPolicy::BasicUnfiltered,
    );
    assert_eq!(err, Err(Error::ScanWindowMustBeSmallerOrEqualToScanInterval));

    let err = scan::ScanParameters::try_new(
        scan::ScanType::ActiveScanning,
        ScanInterval::try_new(0x0010)?,
        ScanWindow::try_new(0x0020)?,
        OwnAddressType::PublicDeviceAddress,
        scan::ScanningFilterPolicy::BasicUnfiltered,
    );
    assert_eq!(err, Err(Error::ScanWindowMustBeSmallerOrEqualToScanInterval));
    Ok(())
}

#[test]
fn test_valid_scan_parameters_success() -> Result<(), Error> {
    let interval = ScanInterval::try_new(0x0020)?;
    let window = ScanWindow::try_new(0x0010)?;
    let scan_params = scan::ScanParameters::try_new(
        scan::ScanType::PassiveScanning,
        interval,
        window,
        OwnAddressType::RandomDeviceAddress,
        scan::ScanningFilterPolicy::BasicFiltered,
    )?;
    assert_eq!(scan_params.scan_type(), scan::ScanType::PassiveScanning);
    assert_eq!(scan_params.interval(), interval);
    assert_eq!(scan_params.window(), window);
    assert_eq!(scan_params.own_address_type(), OwnAddressType::RandomDeviceAddress);
    assert_eq!(scan_params.filter_policy(), scan::ScanningFilterPolicy::BasicFiltered);
    Ok(())
}

#[test]
fn scan_interval_test_scan_interval_default() {
    let value = bletio_hci::scan_interval::ScanInterval::default();
    assert_eq!(value.value(), 0x0010);
}

#[test]
fn scan_parameters_test_scan_interval_default() {
    let value = bletio_hci::scan_parameters::ScanInterval::default();
    assert_eq!(value.value(), 0x0010);
}

#[test]
fn scan_parameters_test_scan_window_default() {
    let value = bletio_hci::scan_parameters::ScanWindow::default();
    assert_eq!(value.value(), 0x0010);
}

#[test]
fn scan_window_test_scan_window_default() {
    let value = bletio_hci::scanning::scan_window::ScanWindow::default();
    assert_eq!(value.value(), 0x0010);
}

#[test]
fn test_supported_le_features() {
    assert_eq!(SupportedLeFeatures::default(), SupportedLeFeatures::empty());
    assert_eq!(SupportedLeFeatures::ll_privacy().bits(), 1 << 6);
}

#[test]
fn test_supported_commands() {
    assert_eq!(SupportedCommands::default(), SupportedCommands::empty());
    assert_eq!(SupportedCommands::le_set_data_length(), SupportedCommands::from_bit(33, 6));
    let value: SupportedCommands = [
        0, 0, 0, 0, 0, 0, 0, 0, 0, 0, 0, 0, 0, 0, 0, 0, 0, 0, 0, 0, 0, 0, 0, 0, 0, 32, 0, 0, 0, 0,
        0, 0, 0, 0, 0, 0, 0, 0, 0, 0, 0, 0, 0, 0, 0, 0, 0, 0, 0, 0, 0, 0, 0, 0, 0, 0, 0, 0, 0, 0, 0,
        0, 0, 0,
    ]
    .into();
    assert_eq!(value, SupportedCommands::le_set_advertising_parameters())
}

#[test]
fn test_advertising_data_try_from_failure() {
    let len = 32usize;
    let data = [0u8; 31];
    let err: Result<AdvertisingData, Error> = (len as u8, data).try_into();
    assert_eq!(err, Err(Error::BufferTooSmall));
}

#[test]
fn test_scan_response_data_try_from_failure() {
    let len = 32usize;
    let data = [0u8; 31];
    let err: Result<ScanResponseData, Error> = (len as u8, data).try_into();
    assert_eq!(err, Err(Error::BufferTooSmall));
}

#[test]
fn test_advertising_data() {
    let data = [25; 16];
    let mut adv_data = AdvertisingData::default();
    assert_eq!(adv_data.encoded_size(), 32);
    assert_eq!(&adv_data.full_data(), &[0; 32]);
    assert_eq!(adv_data.fill(&data[..]), Ok(16));
    assert_eq!(adv_data.encoded_size(), 32);
    assert_eq!(
        &adv_data.full_data(),
        &[
            16, 25, 25, 25, 25, 25, 25, 25, 25, 25, 25, 25, 25, 25, 25, 25, 25, 0, 0, 0, 0, 0, 0,
            0, 0, 0, 0, 0, 0, 0, 0, 0
        ]
    );
}

#[test]
fn test_scan_response_data() {
    let data = [25; 14];
    let mut adv_data = ScanResponseData::default();
    assert_eq!(adv_data.encoded_size(), 32);
    assert_eq!(&adv_data.full_data(), &[0; 32]);
    assert_eq!(adv_data.fill(&data[..]), Ok(14));
    assert_eq!(adv_data.encoded_size(), 32);
    assert_eq!(
        &adv_data.full_data(),
        &[
            14, 25, 25, 25, 25, 25, 25, 25, 25, 25, 25, 25, 25, 25, 25, 0, 0, 0, 0, 0, 0, 0, 0, 0,
            0, 0, 0, 0, 0, 0, 0, 0
        ]
    );
}

#[test]
fn test_advertising_data_from_le_advertising_report_data() {
    let data = [25; 16];
    let data = LeAdvertisingReportData::try_from_slice(&data[..]).unwrap();
    let adv_data = AdvertisingData::from_report_data(&data);
    assert_eq!(
        adv_data.data(),
        &[16, 25, 25, 25, 25, 25, 25, 25, 25, 25, 25, 25, 25, 25, 25, 25, 25]
    );
}

#[test]
fn test_command_packet_default() {
    let packet = CommandPacket::new(CommandOpCode::Nop);
    assert_eq!(packet.data(), &[1, 0, 0, 0]);
}

#[test]
fn test_encode_unsupported_command() {
    let command = Command::Unsupported(0x0C08);
    let err = command.encode();
    assert!(matches!(err, Err(Error::InvalidCommand(0x0C08))));
    assert_eq!(command.opcode(), CommandOpCode::Unsupported(0x0C08));
}

#[test]
fn command_packet_overflow_fails() {
    let data = AdvertisingData::default();
    let mut packet = CommandPacket::new(CommandOpCode::Nop);
    for _ in 0..7 {
        packet = packet.encode(&data).unwrap();
    }
    assert_eq!(packet.data().len(), 4 + 7 * 32);
    assert!(matches!(packet.encode(&data), Err(Error::DataWillNotFitCommandPacket)));
}

#[test]
fn test_unsupported_le_meta_event_parsing() {
    let (len, packet) = Packet::parse(&[
        0x04, 0x3E, 0x09, 0x34, 0x00, 0xCD, 0x2E, 0x0B, 0x04, 0x32, 0x56, 0x00,
    ])
    .unwrap();
    assert!(matches!(packet, Packet::Event(Event::LeMeta(LeMetaEvent::Unsupported(0x34)))));
    assert_eq!(len, 12);
}

#[test]
fn test_disconnection_complete_event_invalid_length() {
    let err = Packet::parse(&[4, 5, 3, 0, 0, 0]);
    assert!(err.is_none());
}

#[test]
fn test_command_complete_event_for_unsupported_command_parsing() {
    let err = Packet::parse(&[4, 14, 4, 1, 08, 12, 0]);
    assert!(err.is_none());
}
