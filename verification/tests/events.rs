use bletio_hci::acl_data::{AclData, BroadcastFlag, PacketBoundaryFlag};
use bletio_hci::command::CommandOpCode;
use bletio_hci::common::tx_power_level::TxPowerLevel;
use bletio_hci::connection::connection_handle::ConnectionHandle;
use bletio_hci::device_address::{PublicDeviceAddress, RandomAddress};
use bletio_hci::error_code::ErrorCode;
use bletio_hci::event::command_complete::{
    CommandCompleteEvent, EventParameter, StatusAndBdAddrEventParameter,
    StatusAndBufferSizeEventParameter, StatusAndFilterAcceptListSizeEventParameter,
    StatusAndLeBufferSizeEventParameter, StatusAndRandomNumberEventParameter,
    StatusAndSupportedCommandsEventParameter, StatusAndSupportedFeaturesEventParameter,
    StatusAndSupportedLeFeaturesEventParameter, StatusAndSupportedLeStatesEventParameter,
    StatusAndTxPowerLevelEventParameter, StatusEventParameter,
};
use bletio_hci::event::command_status::CommandStatusEvent;
use bletio_hci::event::disconnection_complete::DisconnectionCompleteEvent;
use bletio_hci::event::le_advertising_report::{
    LeAdvertisingReportAddress, LeAdvertisingReportEventType, LeAdvertisingReportList,
};
use bletio_hci::event::le_connection_complete::{CentralClockAccuracy, Role};
use bletio_hci::event::le_meta::LeMetaEvent;
use bletio_hci::event::Event;
use bletio_hci::packet::Packet;
use bletio_hci::supported_commands::SupportedCommands;
use bletio_hci::supported_features::SupportedFeatures;
use bletio_hci::supported_le_features::SupportedLeFeatures;
use bletio_hci::supported_le_states::SupportedLeStates;

fn parse_event(input: &[u8]) -> Event {
    let (n, packet) = Packet::parse(input).unwrap();
    assert_eq!(n, input.len());
    match packet {
        Packet::Event(event) => event,
        _ => panic!("not an event"),
    }
}

fn check_command_complete(opcode: CommandOpCode, parameter: EventParameter, input: &[u8]) {
    assert_eq!(
        parse_event(input),
        Event::CommandComplete(CommandCompleteEvent::new(1, opcode, parameter))
    );
}

fn status(status: ErrorCode) -> EventParameter {
    EventParameter::Status(StatusEventParameter { status })
}

#[test]
fn command_complete_event_parsing() {
    check_command_complete(
        CommandOpCode::LeRand,
        EventParameter::StatusAndRandomNumber(StatusAndRandomNumberEventParameter {
            status: ErrorCode::Success,
            random_number: [68, 223, 27, 9, 83, 58, 224, 240],
        }),
        &[4, 14, 12, 1, 24, 32, 0, 68, 223, 27, 9, 83, 58, 224, 240],
    );
    check_command_complete(
        CommandOpCode::LeReadAdvertisingChannelTxPower,
        EventParameter::StatusAndTxPowerLevel(StatusAndTxPowerLevelEventParameter {
            status: ErrorCode::Success,
            tx_power_level: TxPowerLevel::try_new(9).unwrap(),
        }),
        &[4, 14, 5, 1, 7, 32, 0, 9],
    );
    check_command_complete(
        CommandOpCode::LeReadBufferSize,
        EventParameter::StatusAndLeBufferSize(StatusAndLeBufferSizeEventParameter {
            status: ErrorCode::Success,
            le_acl_data_packet_length: 255,
            total_num_le_acl_data_packets: 24,
        }),
        &[4, 14, 7, 1, 2, 32, 0, 255, 0, 24],
    );
    check_command_complete(
        CommandOpCode::LeReadLocalSupportedFeaturesPage0,
        EventParameter::StatusAndSupportedLeFeatures(StatusAndSupportedLeFeaturesEventParameter {
            status: ErrorCode::Success,
            supported_le_features: SupportedLeFeatures::le_encryption()
                | SupportedLeFeatures::le_extended_advertising(),
        }),
        &[4, 14, 12, 1, 3, 32, 0, 1, 16, 0, 0, 0, 0, 0, 0],
    );
    check_command_complete(
        CommandOpCode::LeReadSupportedStates,
        EventParameter::StatusAndSupportedLeStates(StatusAndSupportedLeStatesEventParameter {
            status: ErrorCode::Success,
            supported_le_states: SupportedLeStates::from(0x0000_03FF_FFFF_FFFFu64),
        }),
        &[4, 14, 12, 1, 28, 32, 0, 255, 255, 255, 255, 255, 3, 0, 0],
    );
    for (opcode, ocf) in [
        (CommandOpCode::LeSetAdvertisingData, 8u8),
        (CommandOpCode::LeSetAdvertisingEnable, 10),
        (CommandOpCode::LeSetAdvertisingParameters, 6),
        (CommandOpCode::LeSetEventMask, 1),
        (CommandOpCode::LeSetRandomAddress, 5),
        (CommandOpCode::LeSetScanEnable, 12),
        (CommandOpCode::LeSetScanParameters, 11),
        (CommandOpCode::LeSetScanResponseData, 9),
        (CommandOpCode::LeClearFilterAcceptList, 16),
        (CommandOpCode::LeAddDeviceToFilterAcceptList, 17),
        (CommandOpCode::LeRemoveDeviceFromFilterAcceptList, 18),
    ] {
        check_command_complete(opcode, status(ErrorCode::Success), &[4, 14, 4, 1, ocf, 32, 0]);
    }
    check_command_complete(CommandOpCode::Nop, EventParameter::Empty, &[4, 14, 3, 1, 0, 0]);
    check_command_complete(
        CommandOpCode::ReadBdAddr,
        EventParameter::StatusAndBdAddr(StatusAndBdAddrEventParameter {
            status: ErrorCode::Success,
            bd_addr: PublicDeviceAddress::new([0xCD, 0x2E, 0x0B, 0x04, 0x32, 0x56]),
        }),
        &[4, 14, 10, 1, 9, 16, 0, 0xCD, 0x2E, 0x0B, 0x04, 0x32, 0x56],
    );
    check_command_complete(
        CommandOpCode::ReadBufferSize,
        EventParameter::StatusAndBufferSize(StatusAndBufferSizeEventParameter {
            status: ErrorCode::Success,
            acl_data_packet_length: 255,
            synchronous_data_packet_length: 255,
            total_num_acl_data_packets: 24,
            total_num_synchronous_packets: 12,
        }),
        &[4, 14, 11, 1, 5, 16, 0, 255, 0, 255, 24, 0, 12, 0],
    );
    let mut input = vec![4, 14, 68, 1, 2, 16, 0];
    let mut commands = [0u8; 64];
    commands[27] = 128;
    commands[25] = 4;
    input.extend_from_slice(&commands);
    check_command_complete(
        CommandOpCode::ReadLocalSupportedCommands,
        EventParameter::StatusAndSupportedCommands(StatusAndSupportedCommandsEventParameter {
            status: ErrorCode::Success,
            supported_commands: SupportedCommands::le_rand()
                | SupportedCommands::le_read_local_supported_features_page_0(),
        }),
        &input,
    );
    check_command_complete(
        CommandOpCode::ReadLocalSupportedFeatures,
        EventParameter::StatusAndSupportedFeatures(StatusAndSupportedFeaturesEventParameter {
            status: ErrorCode::Success,
            supported_features: SupportedFeatures::le_supported_controller(),
        }),
        &[4, 14, 12, 1, 3, 16, 0, 0, 0, 0, 0, 64, 0, 0, 0],
    );
    check_command_complete(CommandOpCode::Reset, status(ErrorCode::Success), &[4, 14, 4, 1, 3, 12, 0]);
    check_command_complete(
        CommandOpCode::SetEventMask,
        status(ErrorCode::Success),
        &[4, 14, 4, 1, 1, 12, 0],
    );
    check_command_complete(
        CommandOpCode::LeReadFilterAcceptListSize,
        EventParameter::StatusAndFilterAcceptListSize(StatusAndFilterAcceptListSizeEventParameter {
            status: ErrorCode::Success,
            filter_accept_list_size: 12,
        }),
        &[4, 14, 5, 1, 15, 32, 0, 12],
    );
}

#[test]
fn command_complete_event_of_a_failed_command_holds_defaults() {
    check_command_complete(
        CommandOpCode::LeRand,
        EventParameter::StatusAndRandomNumber(StatusAndRandomNumberEventParameter {
            status: ErrorCode::HardwareFailure,
            random_number: [0; 8],
        }),
        &[4, 14, 4, 1, 24, 32, 3],
    );
    check_command_complete(
        CommandOpCode::ReadBufferSize,
        EventParameter::StatusAndBufferSize(StatusAndBufferSizeEventParameter {
            status: ErrorCode::CommandDisallowed,
            acl_data_packet_length: 1,
            synchronous_data_packet_length: 1,
            total_num_acl_data_packets: 1,
            total_num_synchronous_packets: 0,
        }),
        &[4, 14, 4, 1, 5, 16, 12],
    );
    check_command_complete(
        CommandOpCode::LeReadAdvertisingChannelTxPower,
        EventParameter::StatusAndTxPowerLevel(StatusAndTxPowerLevelEventParameter {
            status: ErrorCode::UnknownHciCommand,
            tx_power_level: TxPowerLevel::default(),
        }),
        &[4, 14, 4, 1, 7, 32, 1],
    );
}

#[test]
fn command_complete_event_parsing_failure() {
    for input in [
        &[4u8, 14, 11, 1, 5, 16, 0, 0, 0, 255, 24, 0, 12, 0][..],
        &[4, 14, 11, 1, 5, 16, 0, 255, 0, 0, 24, 0, 12, 0],
        &[4, 14, 11, 1, 5, 16, 0, 255, 0, 255, 0, 0, 12, 0],
        &[4, 14, 7, 1, 17, 32, 0],
        &[4, 14, 30, 1, 16, 32, 0, 2, 1, 7],
        &[4, 14, 13, 1, 2, 32, 0],
        &[4, 14, 5, 1, 7, 32, 0, 21],
        &[4, 14, 5, 1, 7, 32, 0, 0x80],
        &[4, 14, 5, 1, 3, 12, 0, 0],
    ] {
        assert!(Packet::parse(input).is_none());
    }
}

#[test]
fn command_status_event_parsing() {
    for (status_value, opcode, input) in [
        (ErrorCode::Success, CommandOpCode::LeConnectionUpdate, [4u8, 15, 4, 0, 1, 19, 32]),
        (ErrorCode::Success, CommandOpCode::LeCreateConnection, [4, 15, 4, 0, 1, 13, 32]),
        (ErrorCode::CommandDisallowed, CommandOpCode::LeCreateConnection, [4, 15, 4, 12, 1, 13, 32]),
        (ErrorCode::Success, CommandOpCode::Disconnect, [4, 15, 4, 0, 1, 6, 4]),
    ] {
        assert_eq!(
            parse_event(&input),
            Event::CommandStatus(CommandStatusEvent::new(status_value, 1, opcode))
        );
    }
    assert!(Packet::parse(&[4, 15, 6, 0, 1, 13, 32, 0, 0]).is_none());
    assert!(Packet::parse(&[4, 15, 4, 0]).is_none());
}

#[test]
fn disconnection_complete_event_parsing() {
    assert_eq!(
        parse_event(&[4, 5, 4, 0, 0, 0, 22]),
        Event::DisconnectionComplete(DisconnectionCompleteEvent::new(
            ErrorCode::Success,
            ConnectionHandle::try_new(0).unwrap(),
            ErrorCode::ConnectionTerminatedByLocalHost,
        ))
    );
    assert_eq!(
        parse_event(&[4, 5, 4, 0, 1, 0, 5]),
        Event::DisconnectionComplete(DisconnectionCompleteEvent::new(
            ErrorCode::Success,
            ConnectionHandle::try_new(1).unwrap(),
            ErrorCode::AuthenticationFailure,
        ))
    );
}

const ONE_REPORT: [u8; 39] = [
    0, 1, 160, 215, 105, 192, 58, 123, 29, 2, 1, 6, 7, 3, 13, 24, 15, 24, 5, 24, 17, 7, 240, 222,
    188, 154, 120, 86, 52, 18, 120, 86, 52, 18, 120, 86, 52, 18, 204,
];

const SECOND_REPORT: [u8; 42] = [
    4, 1, 160, 215, 105, 192, 58, 123, 31, 30, 8, 90, 101, 112, 104, 121, 114, 32, 80, 101, 114,
    105, 112, 104, 101, 114, 97, 108, 32, 83, 97, 109, 112, 108, 101, 32, 76, 111, 110, 103, 204,
    0,
];

#[test]
fn le_advertising_report_list() {
    let list = LeAdvertisingReportList::try_new(1, &ONE_REPORT).unwrap();
    assert_eq!(list.len(), 1);
    let reports = list.reports();
    assert_eq!(reports.len(), 1);
    assert_eq!(reports[0].event_type(), LeAdvertisingReportEventType::ConnectableUndirected);
    assert!(matches!(reports[0].address(), LeAdvertisingReportAddress::RandomDevice(_)));
    assert_eq!(reports[0].address().value(), &[160, 215, 105, 192, 58, 123]);
    assert_eq!(reports[0].data().len(), 29);
    assert_eq!(reports[0].rssi().map(|r| r.value()), Some(-52));

    let mut two = ONE_REPORT.to_vec();
    two.extend_from_slice(&SECOND_REPORT[..41]);
    let list = LeAdvertisingReportList::try_new(2, &two).unwrap();
    assert_eq!(list.len(), 2);
    let reports = list.reports();
    assert_eq!(reports.len(), 2);
    assert_eq!(reports[1].event_type(), LeAdvertisingReportEventType::ScanResponse);
    assert_eq!(reports[1].data().len(), 31);
}

#[test]
fn le_advertising_report_event_parsing() {
    let mut input = vec![4, 62, 41, 2, 1];
    input.extend_from_slice(&ONE_REPORT);
    assert_eq!(
        parse_event(&input),
        Event::LeMeta(LeMetaEvent::LeAdvertisingReport(
            LeAdvertisingReportList::try_new(1, &ONE_REPORT).unwrap()
        ))
    );

    let mut unknown_rssi = ONE_REPORT;
    unknown_rssi[1] = 0;
    unknown_rssi[2..8].copy_from_slice(&[0xCD, 0x2E, 0x0B, 0x04, 0x32, 0x56]);
    unknown_rssi[38] = 127;
    let mut input = vec![4, 62, 41, 2, 1];
    input.extend_from_slice(&unknown_rssi);
    match parse_event(&input) {
        Event::LeMeta(LeMetaEvent::LeAdvertisingReport(list)) => {
            let reports = list.reports();
            assert!(matches!(reports[0].address(), LeAdvertisingReportAddress::PublicDevice(_)));
            assert_eq!(reports[0].rssi(), None);
        }
        _ => panic!("not an advertising report"),
    }
}

#[test]
fn le_advertising_report_event_parsing_failure() {
    let mut invalid_random = ONE_REPORT;
    invalid_random[2..8].copy_from_slice(&[0xff; 6]);
    let mut input = vec![4, 62, 41, 2, 1];
    input.extend_from_slice(&invalid_random);
    assert!(Packet::parse(&input).is_none());

    let mut invalid_identity = ONE_REPORT;
    invalid_identity[1] = 3;
    invalid_identity[2..8].copy_from_slice(&[0x00, 0x00, 0x00, 0x00, 0x00, 0xc0]);
    let mut input = vec![4, 62, 41, 2, 1];
    input.extend_from_slice(&invalid_identity);
    assert!(Packet::parse(&input).is_none());

    // No report is not a valid number of reports.
    assert!(Packet::parse(&[4, 62, 2, 2, 0]).is_none());
}

#[test]
fn le_connection_complete_event_parsing() {
    let input = [
        4, 62, 19, 1, 0, 0, 0, 0, 1, 83, 251, 125, 93, 119, 88, 64, 0, 0, 0, 32, 0, 2,
    ];
    match parse_event(&input) {
        Event::LeMeta(LeMetaEvent::LeConnectionComplete(event)) => {
            assert_eq!(event.status(), ErrorCode::Success);
            assert_eq!(event.connection_handle().value(), 0);
            assert_eq!(event.role(), Role::Central);
            assert_eq!(event.peer_address().value(), &[83, 251, 125, 93, 119, 88]);
            assert_eq!(event.connection_interval().value(), 64);
            assert_eq!(event.peripheral_latency().value(), 0);
            assert_eq!(event.supervision_timeout().value(), 32);
            assert_eq!(event.central_clock_accuracy(), CentralClockAccuracy::Ppm150);
        }
        _ => panic!("not a connection complete event"),
    }
    // A connection interval below 0x0006 is refused.
    let input = [
        4, 62, 19, 1, 0, 0, 0, 0, 1, 83, 251, 125, 93, 119, 88, 5, 0, 0, 0, 32, 0, 2,
    ];
    assert!(Packet::parse(&input).is_none());
}

#[test]
fn le_connection_update_complete_event_parsing() {
    let input = [4, 62, 10, 3, 0, 1, 0, 64, 0, 0, 0, 32, 0];
    match parse_event(&input) {
        Event::LeMeta(LeMetaEvent::LeConnectionUpdateComplete(event)) => {
            assert_eq!(event.status(), ErrorCode::Success);
            assert_eq!(event.connection_handle().value(), 1);
            assert_eq!(event.connection_interval().value(), 64);
            assert_eq!(event.peripheral_latency().value(), 0);
            assert_eq!(event.supervision_timeout().value(), 32);
        }
        _ => panic!("not a connection update complete event"),
    }
}

#[test]
fn unsupported_event_is_kept_by_its_code() {
    assert_eq!(parse_event(&[4, 1, 3, 1, 0, 0]), Event::Unsupported(1));
}

#[test]
fn acl_data_parsing_success() {
    let input = [2, 0, 32, 16, 0, 12, 0, 5, 0, 18, 1, 8, 0, 24, 0, 40, 0, 0, 0, 42, 0];
    let expected = AclData::try_new(
        ConnectionHandle::try_new(0).unwrap(),
        PacketBoundaryFlag::FirstAutomaticallyFlushablePacket,
        BroadcastFlag::PointToPoint,
        &[12, 0, 5, 0, 18, 1, 8, 0, 24, 0, 40, 0, 0, 0, 42, 0],
    )
    .unwrap();
    assert_eq!(Packet::parse(&input), Some((input.len(), Packet::AclData(expected))));
    assert_eq!(expected.data(), &[12, 0, 5, 0, 18, 1, 8, 0, 24, 0, 40, 0, 0, 0, 42, 0]);
}

#[test]
fn acl_data_too_long_is_refused() {
    let data = [0u8; 28];
    assert_eq!(
        AclData::try_new(
            ConnectionHandle::try_new(0).unwrap(),
            PacketBoundaryFlag::ContinuingFragment,
            BroadcastFlag::PointToPoint,
            &data,
        ),
        Err(bletio_hci::Error::DataWillNotFitAclDataPacket)
    );
}

#[test]
fn random_address_from_report_bytes() {
    let address = RandomAddress::try_from([0x28, 0xC8, 0xE9, 0x7D, 0x6A, 0xF7]).unwrap();
    assert!(matches!(address, RandomAddress::Static(_)));
}

#[test]
fn test_le_advertising_report_list() {
    let mut two = ONE_REPORT.to_vec();
    two.extend_from_slice(&SECOND_REPORT[..41]);
    for (num_reports, data) in [(1u8, ONE_REPORT.to_vec()), (2, two)] {
        let report_list = LeAdvertisingReportList::try_new(num_reports, &data).unwrap();
        assert_eq!(report_list.len(), num_reports as usize);
        let mut it = report_list.iter();
        for _ in 0..report_list.len() {
            assert!(it.next().is_some());
        }
        assert_eq!(it.next(), None);
    }
}
