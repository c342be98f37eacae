use bletio_hci::advertising::advertising_enable::AdvertisingEnable;
use bletio_hci::advertising_parameters::{
    check_advertising_interval_value, check_advertising_range_order, AdvertisingChannelMap,
    AdvertisingFilterPolicy, AdvertisingInterval, AdvertisingIntervalRange, AdvertisingParameters,
    AdvertisingType,
};
use bletio_hci::common::le_event_mask::LeEventMask;
use bletio_hci::common::le_filter_accept_list_address::LeFilterAcceptListAddress;
use bletio_hci::common::own_address_type::OwnAddressType;
use bletio_hci::common::peer_address_type::PeerAddressType;
use bletio_hci::common::tx_power_level::TxPowerLevel;
use bletio_hci::connection::connection_event_length as event_length;
use bletio_hci::connection::connection_handle::ConnectionHandle;
use bletio_hci::connection::connection_interval as interval;
use bletio_hci::connection::connection_parameters as parameters;
use bletio_hci::connection::connection_peer_address::{ConnectionPeerAddress, ConnectionPeerAddressType};
use bletio_hci::connection::connection_update_parameters::ConnectionUpdateParameters;
use bletio_hci::connection::latency::Latency;
use bletio_hci::connection::supervision_timeout::SupervisionTimeout;
use bletio_hci::connection_interval as undefined_interval;
use bletio_hci::device_address::{
    DeviceAddress, PublicDeviceAddress, RandomAddress, RandomNonResolvablePrivateAddress,
    RandomResolvablePrivateAddress, RandomStaticDeviceAddress,
};
use bletio_hci::encode::EncodeToBuffer;
use bletio_hci::error_code::ErrorCode;
use bletio_hci::event_mask::EventMask;
use bletio_hci::le_states::{LeCombinedState, LeSingleState, LeState};
use bletio_hci::rssi::Rssi;
use bletio_hci::scan_interval::ScanInterval;
use bletio_hci::scanning::scan_enable::{FilterDuplicates, ScanEnable};
use bletio_hci::scanning::scan_parameters::ScanParameters;
use bletio_hci::scanning::scan_window::ScanWindow;
use bletio_hci::supported_commands::SupportedCommands;
use bletio_hci::{Error, HciDriverError};

fn encoded<E: EncodeToBuffer>(value: &E) -> Vec<u8> {
    let mut buffer = Vec::new();
    let n = value.encode(&mut buffer);
    assert_eq!(n, buffer.len());
    assert_eq!(value.encoded_size(), n);
    buffer
}

#[test]
fn public_device_addresses() {
    for input in [
        [0xCD, 0x2E, 0x0B, 0x04, 0x32, 0x56],
        [0xF4, 0x23, 0x14, 0xC3, 0xDC, 0x24],
        [0x38, 0x5E, 0x43, 0xCA, 0x4C, 0x40],
    ] {
        let address = PublicDeviceAddress::new(input);
        assert_eq!(address.value(), &input);
        assert_eq!(encoded(&address), input);
        let address: DeviceAddress = address.into();
        assert!(matches!(address, DeviceAddress::Public(_)));
        assert_eq!(address.value(), &input);
    }
}

#[test]
fn random_addresses() {
    for input in [
        [0x28, 0xC8, 0xE9, 0x7D, 0x6A, 0xF7],
        [0xFE, 0x92, 0x2F, 0x0F, 0x4B, 0xD2],
        [0xC6, 0x37, 0x7B, 0xF9, 0x7B, 0xC2],
    ] {
        let address = RandomStaticDeviceAddress::try_new(input).unwrap();
        assert_eq!(encoded(&address), input);
        let random: RandomAddress = address.into();
        assert!(matches!(random, RandomAddress::Static(_)));
        assert_eq!(RandomAddress::try_from(input), Ok(random));
    }
    for input in [[0xff; 6], [0x00, 0x00, 0x00, 0x00, 0x00, 0xc0]] {
        assert_eq!(
            RandomStaticDeviceAddress::try_new(input),
            Err(Error::InvalidRandomStaticDeviceAddress)
        );
    }
    for input in [
        [0x28, 0xC8, 0xE9, 0x7D, 0x6A, 0x77],
        [0xFE, 0x92, 0x2F, 0x0F, 0x4B, 0x52],
        [0xC6, 0x37, 0x7B, 0xF9, 0x7B, 0x42],
    ] {
        let address = RandomResolvablePrivateAddress::try_new(input).unwrap();
        assert_eq!(address.value(), &input);
        let random: RandomAddress = address.into();
        assert!(matches!(random, RandomAddress::ResolvablePrivate(_)));
    }
    for input in [[0xff, 0xff, 0xff, 0xff, 0xff, 0x7f], [0x00, 0x00, 0x00, 0x00, 0x00, 0x40]] {
        assert_eq!(
            RandomResolvablePrivateAddress::try_new(input),
            Err(Error::InvalidRandomResolvablePrivateAddress)
        );
    }
    for input in [
        [0x28, 0xC8, 0xE9, 0x7D, 0x6A, 0x37],
        [0xFE, 0x92, 0x2F, 0x0F, 0x4B, 0x12],
        [0xC6, 0x37, 0x7B, 0xF9, 0x7B, 0x02],
    ] {
        let address = RandomNonResolvablePrivateAddress::try_new(input).unwrap();
        assert_eq!(address.value(), &input);
    }
    for input in [
        [0xff, 0xff, 0xff, 0xff, 0xff, 0x3f],
        [0x00, 0x00, 0x00, 0xff, 0xff, 0x3f],
        [0x28, 0xc8, 0xe9, 0xff, 0xff, 0x3f],
        [0x00, 0x00, 0x00, 0x00, 0x00, 0x00],
        [0xff, 0xff, 0xff, 0x00, 0x00, 0x00],
        [0xc6, 0x37, 0x7b, 0x00, 0x00, 0x00],
    ] {
        assert_eq!(
            RandomNonResolvablePrivateAddress::try_new(input),
            Err(Error::InvalidRandomNonResolvablePrivateAddress)
        );
    }
}

#[test]
fn addresses_from_strings() {
    let expected = PublicDeviceAddress::new([0xCD, 0x2E, 0x0B, 0x04, 0x32, 0x56]);
    assert_eq!(PublicDeviceAddress::try_from("56:32:04:0B:2E:CD"), Ok(expected));
    assert_eq!(PublicDeviceAddress::try_from("56:32:04:0b:2e:cd"), Ok(expected));
    for input in ["24:dc:c3:14:23:f4:cd", "24:dc:c3:14:23", "40:4g:ca:43:5z:38", "hello world"] {
        assert_eq!(PublicDeviceAddress::try_from(input), Err(Error::InvalidPublicDeviceAddress));
    }
    assert_eq!(
        RandomAddress::try_from("f7:6a:7d:e9:c8:28"),
        Ok(RandomAddress::Static(
            RandomStaticDeviceAddress::try_new([0x28, 0xC8, 0xE9, 0x7D, 0x6A, 0xF7]).unwrap()
        ))
    );
    assert_eq!(
        RandomAddress::try_from("77:6a:7d:e9:c8:28"),
        Ok(RandomAddress::ResolvablePrivate(
            RandomResolvablePrivateAddress::try_new([0x28, 0xC8, 0xE9, 0x7D, 0x6A, 0x77]).unwrap()
        ))
    );
    assert_eq!(RandomAddress::try_from("ff:ff:ff:ff:ff:ff"), Err(Error::InvalidRandomAddress));
    assert_eq!(RandomAddress::try_from("c0:00:00:00:00:00"), Err(Error::InvalidRandomAddress));
}

#[test]
fn advertising_intervals() {
    for input in [0x0020u16, 0x4000] {
        assert_eq!(AdvertisingInterval::try_new(input).unwrap().value(), input);
    }
    for input in [0x0010u16, 0x8000] {
        assert_eq!(AdvertisingInterval::try_new(input), Err(Error::InvalidAdvertisingInterval(input)));
    }
    assert!(check_advertising_interval_value(0x0020));
    assert!(!check_advertising_interval_value(0x001F));
    assert!(check_advertising_range_order(0x0020, 0x0020));
    assert!(!check_advertising_range_order(0x0030, 0x0020));
    for (min, max) in [(0x0020u16, 0x0020u16), (0x0020, 0x0030)] {
        let range = AdvertisingIntervalRange::try_new(min, max).unwrap();
        assert_eq!(range.min().value(), min);
        assert_eq!(range.max().value(), max);
    }
    for (min, max, error) in [
        (0x0000u16, 0x0020u16, Error::InvalidAdvertisingInterval(0x0000)),
        (0x0030, 0x5000, Error::InvalidAdvertisingInterval(0x5000)),
        (0x0030, 0x0020, Error::InvalidAdvertisingIntervalRange),
        (0x4000, 0x3000, Error::InvalidAdvertisingIntervalRange),
    ] {
        assert_eq!(AdvertisingIntervalRange::try_new(min, max), Err(error));
    }
    let unchecked = AdvertisingIntervalRange::new_unchecked(0x0001, 0x0002);
    assert_eq!(unchecked.min().value(), 0x0001);
}

#[test]
fn advertising_channel_maps() {
    let all = AdvertisingChannelMap::channel37()
        | AdvertisingChannelMap::channel38()
        | AdvertisingChannelMap::channel39();
    assert_eq!(AdvertisingChannelMap::default(), all);
    assert_eq!(AdvertisingChannelMap::new(), all);
    assert_eq!(AdvertisingChannelMap::from_bits_truncate(0xFF), all);
    assert_eq!(AdvertisingChannelMap::from_bits(0x08), None);
    assert!(AdvertisingChannelMap::empty().is_empty());
    assert_eq!(
        AdvertisingParameters::try_new(
            AdvertisingIntervalRange::default(),
            AdvertisingType::default(),
            OwnAddressType::default(),
            DeviceAddress::default(),
            AdvertisingChannelMap::empty(),
            AdvertisingFilterPolicy::default(),
        ),
        Err(Error::AtLeastOneChannelMustBeEnabledInTheAdvertisingChannelMap)
    );
}

#[test]
fn advertising_parameters_encoding_parses_back() {
    let peer: DeviceAddress =
        RandomStaticDeviceAddress::try_new([0xFE, 0x92, 0x2F, 0x0F, 0x4B, 0xD2]).unwrap().into();
    let parameters = AdvertisingParameters::try_new(
        AdvertisingIntervalRange::try_new(0x0030, 0x0040).unwrap(),
        AdvertisingType::ScannableUndirected,
        OwnAddressType::RandomDeviceAddress,
        peer,
        AdvertisingChannelMap::channel38(),
        AdvertisingFilterPolicy::ScanAllAndConnectionFilterAcceptList,
    )
    .unwrap();
    let bytes = encoded(&parameters);
    assert_eq!(
        bytes,
        [0x30, 0, 0x40, 0, 2, 1, 1, 0xFE, 0x92, 0x2F, 0x0F, 0x4B, 0xD2, 2, 2]
    );
    assert_eq!(AdvertisingParameters::parse(&bytes), Some(parameters));
    assert_eq!(encoded(&AdvertisingParameters::default()), [0, 8, 0, 8, 0, 0, 0, 0, 0, 0, 0, 0, 0, 7, 0]);
}

#[test]
fn peer_address_types() {
    assert_eq!(PeerAddressType::from(&DeviceAddress::default()), PeerAddressType::Public);
    let random: DeviceAddress =
        RandomStaticDeviceAddress::try_new([0xFE, 0x92, 0x2F, 0x0F, 0x4B, 0xD2]).unwrap().into();
    assert_eq!(PeerAddressType::from(&random), PeerAddressType::Random);
    assert_eq!(encoded(&PeerAddressType::Random), [0x01]);
}

#[test]
fn connection_peer_addresses() {
    let public = PublicDeviceAddress::new([0x38, 0x5E, 0x43, 0xCA, 0x4C, 0x40]);
    let random = RandomAddress::try_from([0xC6, 0x37, 0x7B, 0xF9, 0x7B, 0xC2]).unwrap();
    for (address, kind, bytes) in [
        (
            ConnectionPeerAddress::PublicDevice(public),
            ConnectionPeerAddressType::PublicDevice,
            [0x00, 0x38, 0x5E, 0x43, 0xCA, 0x4C, 0x40],
        ),
        (
            ConnectionPeerAddress::RandomDevice(random),
            ConnectionPeerAddressType::RandomDevice,
            [0x01, 0xC6, 0x37, 0x7B, 0xF9, 0x7B, 0xC2],
        ),
        (
            ConnectionPeerAddress::PublicIdentity(public),
            ConnectionPeerAddressType::PublicIdentity,
            [0x02, 0x38, 0x5E, 0x43, 0xCA, 0x4C, 0x40],
        ),
        (
            ConnectionPeerAddress::RandomIdentity(random),
            ConnectionPeerAddressType::RandomIdentity,
            [0x03, 0xC6, 0x37, 0x7B, 0xF9, 0x7B, 0xC2],
        ),
    ] {
        assert_eq!(address.address_type(), kind);
        assert_eq!(encoded(&address), bytes);
        assert_eq!(ConnectionPeerAddress::parse(&bytes, 0), Some(address));
    }
}

#[test]
fn le_filter_accept_list_address_parsing() {
    assert_eq!(
        LeFilterAcceptListAddress::parse(&[0x00, 0xCD, 0x2E, 0x0B, 0x04, 0x32, 0x56]),
        Some(PublicDeviceAddress::new([0xCD, 0x2E, 0x0B, 0x04, 0x32, 0x56]).into())
    );
    assert_eq!(
        LeFilterAcceptListAddress::parse(&[0x01, 0x28, 0xC8, 0xE9, 0x7D, 0x6A, 0xF7]),
        Some(
            RandomAddress::Static(
                RandomStaticDeviceAddress::try_new([0x28, 0xC8, 0xE9, 0x7D, 0x6A, 0xF7]).unwrap()
            )
            .into()
        )
    );
    assert_eq!(
        LeFilterAcceptListAddress::parse(&[0xFF, 0x00, 0x01, 0x02, 0x03, 0x04, 0x05]),
        Some(LeFilterAcceptListAddress::Anonymous)
    );
    assert_eq!(encoded(&LeFilterAcceptListAddress::Anonymous), [0xFF, 0, 0, 0, 0, 0, 0]);
    assert_eq!(LeFilterAcceptListAddress::parse(&[0x02, 0, 0, 0, 0, 0, 0]), None);
}

#[test]
fn scan_values() {
    for input in [0x0004u16, 0x4000] {
        assert_eq!(ScanInterval::try_new(input).unwrap().value(), input);
        assert_eq!(ScanWindow::try_new(input).unwrap().value(), input);
    }
    for input in [0x0003u16, 0x8000] {
        assert_eq!(ScanInterval::try_new(input), Err(Error::InvalidScanInterval(input)));
        assert_eq!(ScanWindow::try_new(input), Err(Error::InvalidScanWindow(input)));
    }
    assert_eq!(ScanEnable::try_from(1u8), Ok(ScanEnable::Enabled));
    assert_eq!(ScanEnable::try_from(2u8), Err(Error::InvalidScanEnableValue(2)));
    assert_eq!(FilterDuplicates::try_from(3u8), Err(Error::InvalidFilterDuplicatesValue(3)));
    let parameters = ScanParameters::default();
    let bytes = encoded(&parameters);
    assert_eq!(bytes, [0, 16, 0, 16, 0, 0, 0]);
    assert_eq!(ScanParameters::parse(&bytes), Some(parameters));
    assert_eq!(ScanParameters::parse(&[0, 16, 0, 32, 0, 0, 0]), None);
}

#[test]
fn advertising_enable_values() {
    assert_eq!(AdvertisingEnable::try_from(0u8), Ok(AdvertisingEnable::Disabled));
    assert_eq!(AdvertisingEnable::try_from(1u8), Ok(AdvertisingEnable::Enabled));
    assert_eq!(AdvertisingEnable::try_from(2u8), Err(Error::InvalidAdvertisingEnableValue(2)));
    assert_eq!(AdvertisingEnable::try_from(255u8), Err(Error::InvalidAdvertisingEnableValue(255)));
    assert_eq!(encoded(&AdvertisingEnable::Enabled), [0x01]);
}

#[test]
fn connection_values() {
    for input in [0x0000u16, 0x0005, 0x0C81, 0xFFFE, 0xFFFF] {
        assert_eq!(
            interval::ConnectionInterval::try_new(input),
            Err(Error::InvalidConnectionIntervalValue(input))
        );
    }
    let value: u16 = interval::ConnectionInterval::try_new(0x0C80).unwrap().into();
    assert_eq!(value, 0x0C80);
    for (min, max, error) in [
        (0x0005u16, 0x0020u16, Error::InvalidConnectionIntervalValue(0x0005)),
        (0x0030, 0x0C81, Error::InvalidConnectionIntervalValue(0x0C81)),
        (0x0030, 0x0020, Error::InvalidConnectionIntervalRange),
        (0x0C80, 0x0C7F, Error::InvalidConnectionIntervalRange),
    ] {
        assert_eq!(interval::ConnectionIntervalRange::try_new(min, max), Err(error));
    }
    for (min, max) in [(0x0030u16, 0x0020u16), (0x2000, 0x1000)] {
        assert_eq!(
            event_length::ConnectionEventLengthRange::try_new(min, max),
            Err(Error::InvalidConnectionEventLengthRange)
        );
    }
    let length: event_length::ConnectionEventLength = 0xFFFFu16.into();
    assert_eq!(length.value(), 0xFFFF);
    assert_eq!(Latency::try_new(0x01F4), Err(Error::InvalidLatency(0x01F4)));
    assert_eq!(SupervisionTimeout::try_new(0x0009), Err(Error::InvalidSupervisionTimeout(0x0009)));
    assert_eq!(ConnectionHandle::try_new(0x0F00), Err(Error::InvalidConnectionHandle(0x0F00)));
    assert_eq!(TxPowerLevel::try_new(21), Err(Error::InvalidTxPowerLevelValue(21)));
    assert_eq!(TxPowerLevel::try_new(-128), Err(Error::InvalidTxPowerLevelValue(-128)));
    assert_eq!(TxPowerLevel::try_new(-127).unwrap().value(), -127);
    assert_eq!(TxPowerLevel::try_new(20).unwrap().value(), 20);
    assert_eq!(Rssi::try_new(-128), Err(Error::InvalidRssiValue(-128)));
    assert_eq!(Rssi::try_new(20).unwrap().value(), 20);
}

#[test]
fn undefined_connection_interval() {
    let value: u16 = undefined_interval::ConnectionInterval::undefined().into();
    assert_eq!(value, 0xFFFF);
    let value: u16 = undefined_interval::ConnectionInterval::default().into();
    assert_eq!(value, 0xFFFF);
    let value: u16 = undefined_interval::ConnectionInterval::try_new(0x0006).unwrap().into();
    assert_eq!(value, 0x0006);
    assert_eq!(
        undefined_interval::ConnectionInterval::try_new(0xFFFF),
        Err(Error::InvalidConnectionIntervalValue(0xFFFF))
    );
}

#[test]
fn test_connection_parameters_failure() {
    let scan_cases = [
        (0x0020u16, 0x0030u16, 0x0020u16, 0x0020u16, 0x0020u16, Error::ScanWindowMustBeSmallerOrEqualToScanInterval),
        (0x0030, 0x0020, 0x0030, 0x0050, 0x0010, Error::SupervisionTimeoutIsNotBigEnough),
    ];
    for (scan_interval, scan_window, min, max, timeout, error) in scan_cases {
        let result = parameters::ConnectionParameters::try_new(
            ScanInterval::try_new(scan_interval).unwrap(),
            ScanWindow::try_new(scan_window).unwrap(),
            parameters::InitiatorFilterPolicy::default(),
            ConnectionPeerAddress::default(),
            OwnAddressType::default(),
            interval::ConnectionIntervalRange::try_new(min, max).unwrap(),
            Latency::default(),
            SupervisionTimeout::try_new(timeout).unwrap(),
            parameters::ConnectionEventLengthRange::default(),
        );
        assert_eq!(result, Err(error));
    }
    let result = ConnectionUpdateParameters::try_new(
        ConnectionHandle::default(),
        interval::ConnectionIntervalRange::try_new(0x0030, 0x0050).unwrap(),
        Latency::default(),
        SupervisionTimeout::try_new(0x0010).unwrap(),
        event_length::ConnectionEventLengthRange::default(),
    );
    assert_eq!(result, Err(Error::SupervisionTimeoutIsNotBigEnough));
    // The boundary: 4 x timeout equal to (1 + latency) x maximum interval is long enough.
    let result = ConnectionUpdateParameters::try_new(
        ConnectionHandle::default(),
        interval::ConnectionIntervalRange::try_new(0x0030, 0x0050).unwrap(),
        Latency::try_new(1).unwrap(),
        SupervisionTimeout::try_new(0x0028).unwrap(),
        event_length::ConnectionEventLengthRange::default(),
    );
    assert!(result.is_ok());
}

#[test]
fn connection_parameters_encoding_parses_back() {
    let parameters = parameters::ConnectionParameters::default();
    let bytes = encoded(&parameters);
    assert_eq!(
        bytes,
        [16, 0, 16, 0, 0, 0, 0, 0, 0, 0, 0, 0, 0, 64, 0, 64, 0, 0, 0, 32, 0, 0, 0, 0, 0]
    );
    assert_eq!(parameters::ConnectionParameters::parse(&bytes), Some(parameters));
    let update = ConnectionUpdateParameters::default();
    let bytes = encoded(&update);
    assert_eq!(bytes, [0, 0, 64, 0, 64, 0, 0, 0, 32, 0, 0, 0, 0, 0]);
    assert_eq!(ConnectionUpdateParameters::parse(&bytes), Some(update));
}

#[test]
fn event_masks() {
    for (mask, bytes) in [
        (EventMask::hardware_error(), [0x00, 0x80, 0x00, 0x00, 0x00, 0x00, 0x00, 0x00]),
        (EventMask::data_buffer_overflow(), [0x00, 0x00, 0x00, 0x02, 0x00, 0x00, 0x00, 0x00]),
        (
            EventMask::hardware_error() | EventMask::data_buffer_overflow(),
            [0x00, 0x80, 0x00, 0x02, 0x00, 0x00, 0x00, 0x00],
        ),
    ] {
        assert_eq!(encoded(&mask), bytes);
        assert_eq!(EventMask::parse(&bytes), Some(mask));
    }
    for (mask, bytes) in [
        (LeEventMask::le_connection_complete(), [0x01, 0, 0, 0, 0, 0, 0, 0]),
        (LeEventMask::le_connection_update_complete(), [0x04, 0, 0, 0, 0, 0, 0, 0]),
        (
            LeEventMask::le_connection_complete() | LeEventMask::le_connection_update_complete(),
            [0x05, 0, 0, 0, 0, 0, 0, 0],
        ),
    ] {
        assert_eq!(encoded(&mask), bytes);
        assert_eq!(LeEventMask::parse(&bytes), Some(mask));
    }
    // Unknown LE events are dropped.
    assert_eq!(LeEventMask::parse(&[0x01, 0, 0, 0, 0, 0, 0, 0x80]), Some(LeEventMask::le_connection_complete()));
}

#[test]
fn test_le_states_eq() {
    let a = LeState::Combined(LeCombinedState(LeSingleState::NonConnectableAdvertising, LeSingleState::PassiveScanning));
    let b = LeState::Combined(LeCombinedState(LeSingleState::PassiveScanning, LeSingleState::NonConnectableAdvertising));
    assert_eq!(a, a);
    assert_eq!(a, b);
    let single: LeState = LeSingleState::ActiveScanning.into();
    let combined: LeState = LeCombinedState(LeSingleState::ActiveScanning, LeSingleState::ActiveScanning).into();
    assert_eq!(single, combined);
}

#[test]
fn test_le_states_ne() {
    let a = LeState::Combined(LeCombinedState(LeSingleState::NonConnectableAdvertising, LeSingleState::PassiveScanning));
    let b = LeState::Combined(LeCombinedState(LeSingleState::ConnectableAdvertising, LeSingleState::ActiveScanning));
    assert_ne!(a, b);
    let single: LeState = LeSingleState::ActiveScanning.into();
    let combined: LeState =
        LeCombinedState(LeSingleState::ConnectableAdvertising, LeSingleState::PassiveScanning).into();
    assert_ne!(single, combined);
}

#[test]
fn error_codes() {
    assert_eq!(ErrorCode::try_from(0x0Cu8), Ok(ErrorCode::CommandDisallowed));
    assert_eq!(ErrorCode::try_from(0x2Bu8), Err(Error::InvalidErrorCode(0x2B)));
    assert_eq!(ErrorCode::ControllerBusy.code(), 0x3A);
}

#[test]
fn hci_driver_error_messages() {
    assert_eq!(HciDriverError::WriteFailure.message(), "HCI driver write failure");
    assert_eq!(HciDriverError::ReadFailure.message(), "HCI driver read failure");
    assert_eq!(HciDriverError::Timeout.message(), "HCI driver timeout");
    assert_eq!(Error::from(HciDriverError::Timeout), Error::HciDriver(HciDriverError::Timeout));
}

#[test]
fn supported_commands_sets() {
    let set = SupportedCommands::le_rand() | SupportedCommands::le_encrypt();
    assert!(set.contains(&SupportedCommands::le_rand()));
    assert!(!set.contains(&SupportedCommands::le_set_event_mask()));
    assert_eq!(set.bits()[27], 0b1100_0000);
    assert!(SupportedCommands::empty().is_empty());
}

#[test]
fn test_scan_interval_eq_scan_window() {
    for input in [0x0004u16, 0x0010, 0x4000] {
        let scan_interval = ScanInterval::try_new(input).unwrap();
        let scan_window = ScanWindow::try_new(input).unwrap();
        assert!(scan_interval == scan_window);
        assert!(scan_window == scan_interval);
        let old_interval = bletio_hci::scan_parameters::ScanInterval::try_new(input).unwrap();
        let old_window = bletio_hci::scan_parameters::ScanWindow::try_new(input).unwrap();
        assert!(old_interval == old_window);
        assert!(old_window == old_interval);
    }
}

#[test]
fn test_scan_interval_ne_scan_window() {
    for (i, w) in [(0x0004u16, 0x0010u16), (0x0010, 0x4000), (0x4000, 0x0004)] {
        let scan_interval = ScanInterval::try_new(i).unwrap();
        let scan_window = ScanWindow::try_new(w).unwrap();
        assert!(scan_interval != scan_window);
        assert!(scan_window != scan_interval);
    }
}

#[test]
fn test_scan_interval_smaller_than_scan_window() {
    for (i, w) in [(0x0004u16, 0x0010u16), (0x0010, 0x4000)] {
        let scan_interval = ScanInterval::try_new(i).unwrap();
        let scan_window = ScanWindow::try_new(w).unwrap();
        assert!(scan_interval <= scan_window);
        assert!(scan_window >= scan_interval);
        let old_interval = bletio_hci::scan_parameters::ScanInterval::try_new(i).unwrap();
        let old_window = bletio_hci::scan_parameters::ScanWindow::try_new(w).unwrap();
        assert!(old_interval <= old_window);
        assert!(old_window >= old_interval);
    }
}

#[test]
fn test_scan_window_smaller_than_scan_interval() {
    for (i, w) in [(0x0010u16, 0x0004u16), (0x4000, 0x0010)] {
        let scan_interval = ScanInterval::try_new(i).unwrap();
        let scan_window = ScanWindow::try_new(w).unwrap();
        assert!(scan_interval >= scan_window);
        assert!(scan_window <= scan_interval);
    }
}

#[test]
fn connection_range_errors() {
    assert_eq!(
        interval::ConnectionIntervalRange::try_new(0x0005, 0x0004),
        Err(Error::InvalidConnectionIntervalRange)
    );
    let range = interval::ConnectionIntervalRange::try_new(0x0006, 0x0C80).unwrap();
    assert_eq!(range.min().value(), 0x0006);
    assert_eq!(range.max().value(), 0x0C80);
    let range = event_length::ConnectionEventLengthRange::try_new(0x0020, 0x0020).unwrap();
    assert_eq!(range.min().value(), 0x0020);
    assert_eq!(range.max().value(), 0x0020);
    assert_eq!(
        parameters::ConnectionEventLengthRange::try_new(0x0030, 0x0020),
        Err(Error::InvalidConnectionEventLengthRange)
    );
}
