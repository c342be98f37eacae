use bletio_hci::command::{Command, CommandOpCode};
use bletio_hci::error_code::ErrorCode;
use bletio_hci::event::command_complete::EventParameter;
use bletio_hci::event::Event;
use bletio_hci::hci::{self, HciState};
use bletio_hci::hci_buffer::HciBuffer;
use bletio_hci::Error;

fn run_command(state: &mut HciState, command: Command, response: &[u8]) -> Result<EventParameter, Error> {
    let packet = command.encode()?;
    assert!(!packet.data().is_empty());
    let opcode = command.opcode();
    state.receive(response);
    loop {
        assert!(state.can_parse());
        assert!(!state.next_is_unexpected_completion(opcode));
        if let Some(result) = state.command_response_step(opcode) {
            let event = result?;
            state.complete_command(&event);
            return Ok(event.parameter);
        }
    }
}

#[test]
fn reset_after_waiting_for_the_controller() {
    let mut state = HciState::new();
    assert!(!state.is_controller_ready());
    state.receive(&[4, 14, 3, 1, 0, 0]);
    assert_eq!(state.controller_ready_step(), None);
    assert!(state.is_controller_ready());
    assert_eq!(state.controller_ready_step(), Some(Ok(())));
    let parameter = run_command(&mut state, Command::Reset, &[4, 14, 4, 1, 3, 12, 0]).unwrap();
    assert_eq!(hci::status_response(&parameter), Ok(()));
    assert_eq!(state.num_hci_command_packets(), 1);
    assert!(state.needs_read());
}

#[test]
fn reset_hardware_failure() {
    let mut state = HciState::with_command_packets(1);
    let parameter = run_command(&mut state, Command::Reset, &[4, 14, 4, 1, 3, 12, 3]).unwrap();
    assert_eq!(
        hci::status_response(&parameter),
        Err(Error::ErrorCode(ErrorCode::HardwareFailure))
    );
}

#[test]
fn command_received_instead_of_event() {
    let mut state = HciState::with_command_packets(1);
    assert_eq!(
        run_command(&mut state, Command::Reset, &[1, 3, 12, 0]),
        Err(Error::InvalidPacket)
    );
}

#[test]
fn command_received_while_waiting_for_the_controller() {
    let mut state = HciState::new();
    state.receive(&[1, 3, 12, 0]);
    assert_eq!(state.controller_ready_step(), Some(Err(Error::InvalidPacket)));
}

#[test]
fn other_events_before_the_command_completion() {
    let mut state = HciState::with_command_packets(1);
    let parameter = run_command(
        &mut state,
        Command::Reset,
        &[4, 14, 3, 1, 0, 0, 4, 1, 3, 1, 0, 0, 4, 14, 4, 1, 3, 12, 0],
    )
    .unwrap();
    assert_eq!(hci::status_response(&parameter), Ok(()));
    assert_eq!(state.take_events().len(), 0);
}

#[test]
fn invalid_event_packet_is_dropped_with_an_error() {
    let mut state = HciState::with_command_packets(1);
    let address = bletio_hci::common::le_filter_accept_list_address::LeFilterAcceptListAddress::Anonymous;
    assert_eq!(
        run_command(
            &mut state,
            Command::LeAddDeviceToFilterAcceptList(address),
            &[4, 14, 7, 1, 17, 32, 0]
        ),
        Err(Error::InvalidPacket)
    );
    assert!(state.needs_read());
}

#[test]
fn command_responses() {
    let mut state = HciState::with_command_packets(1);
    let parameter =
        run_command(&mut state, Command::LeRand, &[4, 14, 12, 1, 24, 32, 0, 68, 223, 27, 9, 83, 58, 224, 240])
            .unwrap();
    assert_eq!(hci::random_number_response(&parameter), Ok([68, 223, 27, 9, 83, 58, 224, 240]));

    let parameter = run_command(&mut state, Command::LeRand, &[4, 14, 4, 1, 24, 32, 3]).unwrap();
    assert_eq!(
        hci::random_number_response(&parameter),
        Err(Error::ErrorCode(ErrorCode::HardwareFailure))
    );

    let parameter =
        run_command(&mut state, Command::LeReadAdvertisingChannelTxPower, &[4, 14, 5, 1, 7, 32, 0, 9]).unwrap();
    assert_eq!(hci::tx_power_level_response(&parameter).unwrap().value(), 9);

    let parameter =
        run_command(&mut state, Command::LeReadBufferSize, &[4, 14, 7, 1, 2, 32, 0, 255, 0, 24]).unwrap();
    assert_eq!(hci::le_buffer_size_response(&parameter), Ok((255, 24)));

    let parameter =
        run_command(&mut state, Command::LeReadFilterAcceptListSize, &[4, 14, 5, 1, 15, 32, 0, 12]).unwrap();
    assert_eq!(hci::filter_accept_list_size_response(&parameter), Ok(12));

    let parameter =
        run_command(&mut state, Command::LeReadFilterAcceptListSize, &[4, 14, 4, 1, 15, 32, 12]).unwrap();
    assert_eq!(
        hci::filter_accept_list_size_response(&parameter),
        Err(Error::ErrorCode(ErrorCode::CommandDisallowed))
    );

    let parameter = run_command(
        &mut state,
        Command::ReadBdAddr,
        &[4, 14, 10, 1, 9, 16, 0, 0xCD, 0x2E, 0x0B, 0x04, 0x32, 0x56],
    )
    .unwrap();
    assert_eq!(
        hci::bd_addr_response(&parameter).unwrap().value(),
        &[0xCD, 0x2E, 0x0B, 0x04, 0x32, 0x56]
    );

    let parameter = run_command(
        &mut state,
        Command::ReadBufferSize,
        &[4, 14, 11, 1, 5, 16, 0, 255, 0, 255, 24, 0, 12, 0],
    )
    .unwrap();
    assert_eq!(hci::buffer_size_response(&parameter), Ok((255, 255, 24, 12)));

    let parameter = run_command(
        &mut state,
        Command::LeReadSupportedStates,
        &[4, 14, 12, 1, 28, 32, 0, 255, 255, 255, 255, 255, 3, 0, 0],
    )
    .unwrap();
    assert_eq!(hci::supported_le_states_response(&parameter).unwrap().bits(), 0x0000_03FF_FFFF_FFFF);

    let parameter = run_command(
        &mut state,
        Command::LeReadLocalSupportedFeaturesPage0,
        &[4, 14, 12, 1, 3, 32, 0, 1, 16, 0, 0, 0, 0, 0, 0],
    )
    .unwrap();
    assert_eq!(hci::supported_le_features_response(&parameter).unwrap().bits(), 0x1001);

    let parameter = run_command(
        &mut state,
        Command::ReadLocalSupportedFeatures,
        &[4, 14, 12, 1, 3, 16, 0, 0, 0, 0, 0, 64, 0, 0, 0],
    )
    .unwrap();
    assert_eq!(hci::supported_features_response(&parameter).unwrap().bits(), 1 << 38);
}

#[test]
fn waiting_for_events() {
    let mut state = HciState::with_command_packets(1);
    state.receive(&[4, 5, 4, 0, 0, 0, 22, 4, 5, 4, 0, 1, 0, 5]);
    let mut events = state.take_events();
    assert!(!state.events_ready(&events));
    assert_eq!(state.wait_for_event_step(&mut events), None);
    assert!(!state.events_ready(&events));
    assert_eq!(state.wait_for_event_step(&mut events), None);
    assert!(state.events_ready(&events));
    assert_eq!(events.len(), 2);
    assert!(matches!(events.events()[0], Event::DisconnectionComplete(_)));
}

#[test]
fn events_received_while_waiting_for_a_completion_are_queued() {
    let mut state = HciState::with_command_packets(1);
    let parameter = run_command(
        &mut state,
        Command::Reset,
        &[4, 5, 4, 0, 0, 0, 22, 4, 14, 4, 1, 3, 12, 0],
    )
    .unwrap();
    assert_eq!(hci::status_response(&parameter), Ok(()));
    let events = state.take_events();
    assert_eq!(events.len(), 1);
    assert!(matches!(events.events()[0], Event::DisconnectionComplete(_)));
    assert_eq!(state.take_events().len(), 0);
}

#[test]
fn synchronous_data_cannot_be_parsed() {
    let mut state = HciState::with_command_packets(1);
    state.receive(&[3, 0, 0, 0]);
    assert!(!state.can_parse());
}

#[test]
fn unexpected_completion_is_detected() {
    let mut state = HciState::with_command_packets(1);
    state.receive(&[4, 14, 4, 1, 3, 12, 0]);
    assert!(state.next_is_unexpected_completion(CommandOpCode::LeRand));
    assert!(!state.next_is_unexpected_completion(CommandOpCode::Reset));
}

#[test]
fn hci_buffer() {
    let initial_data: &[u8] = &[];
    let read_data: &[u8] = &[0x01, 0x02, 0x03, 0x04, 0x05];
    let mut buffer = HciBuffer::try_from_slice(initial_data).unwrap();
    assert_eq!(buffer.data(), initial_data);
    assert_eq!(buffer.len(), 0);
    buffer.extend(read_data);
    assert_eq!(buffer.data(), read_data);
    assert_eq!(buffer.len(), read_data.len());
    buffer.consume(2);
    assert_eq!(buffer.data(), &[0x03, 0x04, 0x05]);
    buffer.clear();
    assert!(buffer.is_empty());
    assert_eq!(HciBuffer::try_from_slice(&[0u8; 260]).err(), Some(Error::BufferTooSmall));
}
