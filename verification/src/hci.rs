//! The decisions of the Host Controller Interface: what to make of the packets read from the
//! Controller while a command runs, while waiting for the Controller to accept commands and
//! while waiting for events, and what each command returns. The reading, writing and timing
//! out are done by the caller, which hands the bytes it read to this state.
use vstd::prelude::*;

use crate::command::CommandOpCode;
use crate::common::tx_power_level::TxPowerLevel;
use crate::device_address::PublicDeviceAddress;
use crate::error::Error;
use crate::error_code::ErrorCode;
use crate::event::command_complete::{
    spec_parse_return_parameters, spec_returns_status_only, CommandCompleteEvent, EventParameter,
};
use crate::event::event_list::{EventList, EVENT_LIST_CAPACITY};
use crate::event::Event;
use crate::hci_buffer::HciBuffer;
use crate::packet::Packet;
use crate::supported_commands::SupportedCommands;
use crate::supported_features::SupportedFeatures;
use crate::supported_le_features::SupportedLeFeatures;
use crate::supported_le_states::SupportedLeStates;

verus! {

/// How long a command may take to complete, in milliseconds.
pub const HCI_COMMAND_TIMEOUT_MS: u64 = 1000;

/// The packet at the start of the read buffer, and the bytes left once it is taken: the bytes
/// of an event are consumed, those of another packet are left in place, and unparsable bytes are
/// all dropped, with an invalid packet error.
pub open spec fn spec_next_packet(buffer: Seq<u8>) -> (Seq<u8>, Result<Packet, Error>) {
    match Packet::spec_parse(buffer) {
        Some((n, Packet::Event(e))) => (buffer.subrange(n as int, buffer.len() as int), Ok(Packet::Event(e))),
        Some((_, p)) => (buffer, Ok(p)),
        None => (Seq::empty(), Err(Error::InvalidPacket)),
    }
}

/// Whether handling an event would meet the completion of a command other than the no-operation
/// one, which can only come while that command runs.
pub open spec fn spec_is_unexpected_completion(e: Event) -> bool {
    e matches Event::CommandComplete(c) && c.opcode != CommandOpCode::Nop
}

/// The number of command packets and the pending events after an event is handled: the
/// completion of the no-operation opcode sets the number of command packets, unsupported events
/// are dropped, and the other events are queued while there is room.
pub open spec fn spec_handle_event(num: u8, events: Seq<Event>, e: Event) -> (u8, Seq<Event>) {
    match e {
        Event::CommandComplete(c) => (c.num_hci_command_packets, events),
        Event::Unsupported(_) => (num, events),
        _ => if events.len() < EVENT_LIST_CAPACITY {
            (num, events.push(e))
        } else {
            (num, events)
        },
    }
}

/// Handling an event: the completion of the no-operation opcode sets the number of command
/// packets and queues nothing; an unsupported event changes nothing; every other event (LE Meta,
/// Disconnection Complete, Command Status) leaves the number of command packets as it is and is
/// appended to the pending events while fewer than `EVENT_LIST_CAPACITY` are pending, the list
/// staying as it is once full.
pub proof fn lemma_handle_event_queues(num: u8, events: Seq<Event>, e: Event)
    ensures
        e matches Event::CommandComplete(c) ==> spec_handle_event(num, events, e) == (
            c.num_hci_command_packets,
            events,
        ),
        e is Unsupported ==> spec_handle_event(num, events, e) == (num, events),
        !(e is CommandComplete) && !(e is Unsupported) && events.len() < EVENT_LIST_CAPACITY
            ==> spec_handle_event(num, events, e) == (num, events.push(e)),
        !(e is CommandComplete) && !(e is Unsupported) && events.len() >= EVENT_LIST_CAPACITY
            ==> spec_handle_event(num, events, e) == (num, events),
{
}

/// The state of the Host side of the interface: the number of commands the Controller accepts,
/// the bytes read and not parsed yet, and the events waiting for the upper layers.
#[derive(Debug)]
pub struct HciState {
    num_hci_command_packets: u8,
    read_buffer: HciBuffer,
    event_list: EventList,
}

impl HciState {
    /// The number of commands the Controller accepts.
    pub closed spec fn spec_num_hci_command_packets(&self) -> u8 {
        self.num_hci_command_packets
    }

    /// The bytes read and not parsed yet.
    pub closed spec fn spec_buffer(&self) -> Seq<u8> {
        self.read_buffer.spec_data()
    }

    /// The events waiting for the upper layers.
    pub closed spec fn spec_events(&self) -> Seq<Event> {
        self.event_list.spec_events()
    }

    /// Well-formedness: the buffer and the list hold no more than their capacities.
    pub open spec fn wf(&self) -> bool {
        &&& self.spec_buffer().len() <= crate::hci_buffer::HCI_MAX_READ_BUFFER_SIZE
        &&& self.spec_events().len() <= EVENT_LIST_CAPACITY
    }

    /// Creates the state of a new interface: no command accepted yet, nothing read, no event.
    pub fn new() -> (r: HciState)
        ensures
            r.spec_num_hci_command_packets() == 0,
            r.spec_buffer() == Seq::<u8>::empty(),
            r.spec_events() == Seq::<Event>::empty(),
            r.wf(),
    {
        HciState {
            num_hci_command_packets: 0,
            read_buffer: HciBuffer::new(),
            event_list: EventList::new(),
        }
    }

    /// Creates a state in which the Controller accepts `num_hci_command_packets` commands.
    pub fn with_command_packets(num_hci_command_packets: u8) -> (r: HciState)
        ensures
            r.spec_num_hci_command_packets() == num_hci_command_packets,
            r.spec_buffer() == Seq::<u8>::empty(),
            r.spec_events() == Seq::<Event>::empty(),
            r.wf(),
    {
        HciState { num_hci_command_packets, read_buffer: HciBuffer::new(), event_list: EventList::new() }
    }

    /// The number of commands the Controller accepts.
    pub fn num_hci_command_packets(&self) -> (r: u8)
        ensures
            r == self.spec_num_hci_command_packets(),
    {
        self.num_hci_command_packets
    }

    /// Whether the Controller accepts a command.
    pub fn is_controller_ready(&self) -> (r: bool)
        ensures
            r == (self.spec_num_hci_command_packets() != 0),
    {
        self.num_hci_command_packets != 0
    }

    /// Whether the driver must be read before the next packet is parsed.
    pub fn needs_read(&self) -> (r: bool)
        ensures
            r == (self.spec_buffer().len() == 0),
    {
        self.read_buffer.is_empty()
    }

    /// The number of bytes that a read from the driver may bring.
    pub fn free_space(&self) -> (r: usize)
        requires
            self.wf(),
        ensures
            r == crate::hci_buffer::HCI_MAX_READ_BUFFER_SIZE - self.spec_buffer().len(),
    {
        self.read_buffer.free_space()
    }

    /// Hands over bytes read from the driver.
    pub fn receive(&mut self, data: &[u8])
        requires
            old(self).wf(),
            old(self).spec_buffer().len() + data@.len() <= crate::hci_buffer::HCI_MAX_READ_BUFFER_SIZE,
        ensures
            final(self).spec_buffer() == old(self).spec_buffer() + data@,
            final(self).spec_num_hci_command_packets() == old(self).spec_num_hci_command_packets(),
            final(self).spec_events() == old(self).spec_events(),
            final(self).wf(),
    {
        self.read_buffer.extend(data);
    }

    /// The bytes read and not parsed yet.
    pub fn buffer(&self) -> (r: &[u8])
        ensures
            r@ == self.spec_buffer(),
    {
        self.read_buffer.data()
    }

    /// Whether the packet parser can handle the bytes read.
    pub fn can_parse(&self) -> (r: bool)
        ensures
            r == Packet::spec_is_handled(self.spec_buffer()),
    {
        packet_is_handled(self.read_buffer.data())
    }

    /// Takes the packet at the start of the read buffer.
    fn next_packet(&mut self) -> (r: Result<Packet, Error>)
        requires
            old(self).wf(),
            Packet::spec_is_handled(old(self).spec_buffer()),
        ensures
            (final(self).spec_buffer(), r) == spec_next_packet(old(self).spec_buffer()),
            final(self).spec_num_hci_command_packets() == old(self).spec_num_hci_command_packets(),
            final(self).spec_events() == old(self).spec_events(),
            final(self).wf(),
    {
        match Packet::parse(self.read_buffer.data()) {
            Some((n, Packet::Event(e))) => {
                self.read_buffer.consume(n);
                Ok(Packet::Event(e))
            },
            Some((_, p)) => Ok(p),
            None => {
                self.read_buffer.clear();
                Err(Error::InvalidPacket)
            },
        }
    }

    /// Handles an event received while no command waits for it.
    pub fn handle_event(&mut self, event: Event)
        requires
            old(self).wf(),
            !spec_is_unexpected_completion(event),
        ensures
            (final(self).spec_num_hci_command_packets(), final(self).spec_events())
                == spec_handle_event(
                old(self).spec_num_hci_command_packets(),
                old(self).spec_events(),
                event,
            ),
            final(self).spec_buffer() == old(self).spec_buffer(),
            final(self).wf(),
            event matches Event::CommandComplete(c) ==> final(self).spec_num_hci_command_packets()
                == c.num_hci_command_packets && final(self).spec_events() == old(self).spec_events(),
            event is Unsupported ==> final(self).spec_num_hci_command_packets() == old(
                self,
            ).spec_num_hci_command_packets() && final(self).spec_events() == old(self).spec_events(),
            !(event is CommandComplete) && !(event is Unsupported) ==> {
                &&& final(self).spec_num_hci_command_packets() == old(self).spec_num_hci_command_packets()
                &&& old(self).spec_events().len() < EVENT_LIST_CAPACITY ==> final(self).spec_events()
                    == old(self).spec_events().push(event)
                &&& old(self).spec_events().len() >= EVENT_LIST_CAPACITY ==> final(self).spec_events()
                    == old(self).spec_events()
            },
    {
        match event {
            Event::CommandComplete(c) => {
                self.num_hci_command_packets = c.num_hci_command_packets;
            },
            Event::Unsupported(_) => {},
            _ => {
                let _ = self.event_list.push(event);
            },
        }
    }

    /// Whether the next packet is the completion of a command other than `opcode` and than the
    /// no-operation one, which the interface cannot handle.
    pub open spec fn spec_next_is_unexpected_completion(&self, opcode: CommandOpCode) -> bool {
        Packet::spec_parse(self.spec_buffer()) matches Some((_, Packet::Event(Event::CommandComplete(c))))
            && c.opcode != opcode && c.opcode != CommandOpCode::Nop
    }

    /// Whether the next packet is the completion of a command other than `opcode` and than the
    /// no-operation one.
    pub fn next_is_unexpected_completion(&self, opcode: CommandOpCode) -> (r: bool)
        requires
            Packet::spec_is_handled(self.spec_buffer()),
        ensures
            r == self.spec_next_is_unexpected_completion(opcode),
    {
        match Packet::parse(self.read_buffer.data()) {
            Some((_, Packet::Event(Event::CommandComplete(c)))) => c.opcode != opcode && c.opcode
                != CommandOpCode::Nop,
            _ => false,
        }
    }

    /// One step of waiting for the completion of the command `opcode`: takes the next packet; its
    /// completion ends the wait with it, another event is handled and the wait goes on, another
    /// packet or unparsable bytes end it with an error.
    pub fn command_response_step(&mut self, opcode: CommandOpCode) -> (r: Option<
        Result<CommandCompleteEvent, Error>,
    >)
        requires
            old(self).wf(),
            Packet::spec_is_handled(old(self).spec_buffer()),
            !old(self).spec_next_is_unexpected_completion(opcode),
        ensures
            final(self).wf(),
            final(self).spec_buffer() == spec_next_packet(old(self).spec_buffer()).0,
            match spec_next_packet(old(self).spec_buffer()).1 {
                Err(e) => r == Some(Err::<CommandCompleteEvent, Error>(e))
                    && final(self).spec_num_hci_command_packets() == old(self).spec_num_hci_command_packets()
                    && final(self).spec_events() == old(self).spec_events(),
                Ok(Packet::Event(Event::CommandComplete(c))) => if c.opcode == opcode {
                    r == Some(Ok::<CommandCompleteEvent, Error>(c))
                        && final(self).spec_num_hci_command_packets() == old(self).spec_num_hci_command_packets()
                        && final(self).spec_events() == old(self).spec_events()
                } else {
                    r is None && final(self).spec_num_hci_command_packets() == c.num_hci_command_packets
                        && final(self).spec_events() == old(self).spec_events()
                },
                Ok(Packet::Event(e)) => r is None && (
                    final(self).spec_num_hci_command_packets(),
                    final(self).spec_events(),
                ) == spec_handle_event(
                    old(self).spec_num_hci_command_packets(),
                    old(self).spec_events(),
                    e,
                ),
                Ok(_) => r == Some(Err::<CommandCompleteEvent, Error>(Error::InvalidPacket))
                    && final(self).spec_num_hci_command_packets() == old(self).spec_num_hci_command_packets()
                    && final(self).spec_events() == old(self).spec_events(),
            },
    {
        match self.next_packet() {
            Err(e) => Some(Err(e)),
            Ok(Packet::Event(Event::CommandComplete(c))) => {
                if c.opcode == opcode {
                    Some(Ok(c))
                } else {
                    self.handle_event(Event::CommandComplete(c));
                    None
                }
            },
            Ok(Packet::Event(e)) => {
                self.handle_event(e);
                None
            },
            Ok(_) => Some(Err(Error::InvalidPacket)),
        }
    }

    /// One step of waiting for the Controller to accept commands: done once it accepts one; else
    /// takes the next packet, handles an event and goes on, and ends with an error on another
    /// packet or on unparsable bytes.
    pub fn controller_ready_step(&mut self) -> (r: Option<Result<(), Error>>)
        requires
            old(self).wf(),
            Packet::spec_is_handled(old(self).spec_buffer()),
            !old(self).spec_next_is_unexpected_completion(CommandOpCode::Nop),
        ensures
            final(self).wf(),
            old(self).spec_num_hci_command_packets() != 0 ==> r == Some(Ok::<(), Error>(()))
                && *final(self) == *old(self),
            old(self).spec_num_hci_command_packets() == 0 ==> {
                &&& final(self).spec_buffer() == spec_next_packet(old(self).spec_buffer()).0
                &&& match spec_next_packet(old(self).spec_buffer()).1 {
                    Err(e) => r == Some(Err::<(), Error>(e)) && final(self).spec_events()
                        == old(self).spec_events() && final(self).spec_num_hci_command_packets() == 0,
                    Ok(Packet::Event(e)) => r is None && (
                        final(self).spec_num_hci_command_packets(),
                        final(self).spec_events(),
                    ) == spec_handle_event(0, old(self).spec_events(), e),
                    Ok(_) => r == Some(Err::<(), Error>(Error::InvalidPacket)) && final(self).spec_events()
                        == old(self).spec_events() && final(self).spec_num_hci_command_packets() == 0,
                }
            },
    {
        if self.num_hci_command_packets != 0 {
            return Some(Ok(()));
        }
        match self.next_packet() {
            Err(e) => Some(Err(e)),
            Ok(Packet::Event(e)) => {
                self.handle_event(e);
                None
            },
            Ok(_) => Some(Err(Error::InvalidPacket)),
        }
    }

    /// Records the completion of a command: the Controller now accepts the number of commands it
    /// gives.
    pub fn complete_command(&mut self, event: &CommandCompleteEvent)
        ensures
            final(self).spec_num_hci_command_packets() == event.num_hci_command_packets,
            final(self).spec_buffer() == old(self).spec_buffer(),
            final(self).spec_events() == old(self).spec_events(),
    {
        self.num_hci_command_packets = event.num_hci_command_packets;
    }

    /// Takes the events waiting for the upper layers, leaving none.
    pub fn take_events(&mut self) -> (r: EventList)
        ensures
            r.spec_events() == old(self).spec_events(),
            final(self).spec_events() == Seq::<Event>::empty(),
            final(self).spec_buffer() == old(self).spec_buffer(),
            final(self).spec_num_hci_command_packets() == old(self).spec_num_hci_command_packets(),
    {
        let mut events = EventList::new();
        core::mem::swap(&mut events, &mut self.event_list);
        events
    }

    /// Whether waiting for events is over: some events are there and no byte is left to parse, or
    /// the list is full.
    pub fn events_ready(&self, events: &EventList) -> (r: bool)
        ensures
            r == ((self.spec_buffer().len() == 0 && events.spec_events().len() != 0)
                || events.spec_events().len() >= EVENT_LIST_CAPACITY),
    {
        (self.read_buffer.is_empty() && !events.is_empty()) || events.is_full()
    }

    /// One step of waiting for events: takes the next packet; an event joins the list, another
    /// packet is left alone, unparsable bytes end the wait with an error.
    pub fn wait_for_event_step(&mut self, events: &mut EventList) -> (r: Option<Error>)
        requires
            old(self).wf(),
            old(events).wf(),
            old(events).spec_events().len() < EVENT_LIST_CAPACITY,
            Packet::spec_is_handled(old(self).spec_buffer()),
        ensures
            final(self).wf(),
            final(events).wf(),
            final(self).spec_buffer() == spec_next_packet(old(self).spec_buffer()).0,
            final(self).spec_num_hci_command_packets() == old(self).spec_num_hci_command_packets(),
            final(self).spec_events() == old(self).spec_events(),
            match spec_next_packet(old(self).spec_buffer()).1 {
                Err(e) => r == Some(e) && final(events).spec_events() == old(events).spec_events(),
                Ok(Packet::Event(e)) => r is None && final(events).spec_events() == old(
                    events,
                ).spec_events().push(e),
                Ok(_) => r is None && final(events).spec_events() == old(events).spec_events(),
            },
    {
        match self.next_packet() {
            Err(e) => Some(e),
            Ok(Packet::Event(e)) => {
                let _ = events.push(e);
                None
            },
            Ok(_) => None,
        }
    }
}

impl Default for HciState {
    fn default() -> (r: HciState)
        ensures
            r.spec_num_hci_command_packets() == 0,
            r.spec_buffer() == Seq::<u8>::empty(),
            r.spec_events() == Seq::<Event>::empty(),
            r.wf(),
    {
        HciState::new()
    }
}

/// Whether the packet parser can handle `input`: it is no synchronous or isochronous data packet,
/// and no event holding valid advertising reports too long to be stored.
pub fn packet_is_handled(input: &[u8]) -> (r: bool)
    ensures
        r == Packet::spec_is_handled(input@),
{
    if input.len() < 1 {
        return true;
    }
    if input[0] == 3 || input[0] == 5 {
        return false;
    }
    if input[0] != 4 {
        return true;
    }
    let s = vstd::slice::slice_subrange(input, 1, input.len());
    assert(s@ =~= input@.drop_first());
    if s.len() < 2 {
        return true;
    }
    let len = s[1] as usize;
    if s.len() - 2 < len || s[0] != crate::event::LE_META_CODE {
        return true;
    }
    let p = vstd::slice::slice_subrange(s, 2, 2 + len);
    if p.len() < 2 || p[0] != crate::event::le_meta::LE_ADVERTISING_REPORT_CODE {
        return true;
    }
    let reports = vstd::slice::slice_subrange(p, 1, p.len());
    assert(reports@ =~= p@.drop_first());
    if reports[0] < 1 || reports[0] > crate::event::le_advertising_report::LE_ADVERTISING_REPORT_NUM_REPORTS_MAX {
        return true;
    }
    let data = vstd::slice::slice_subrange(reports, 1, reports.len());
    assert(data@ =~= reports@.drop_first());
    let valid = crate::event::le_advertising_report::parse_reports(data, reports[0]).is_some();
    !(valid && p.len() - 2 > crate::event::le_advertising_report::LE_ADVERTISING_REPORT_EVENT_MAX_SIZE)
}

/// The result of a command that returns a status only.
pub open spec fn spec_status_result(status: ErrorCode) -> Result<(), Error> {
    if status == ErrorCode::Success {
        Ok(())
    } else {
        Err(Error::ErrorCode(status))
    }
}

/// The result of a command whose return parameters are a status only: success, or the error
/// code.
pub fn status_response(parameter: &EventParameter) -> (r: Result<(), Error>)
    requires
        parameter is Status,
    ensures
        r == spec_status_result(parameter->Status_0.status),
{
    match parameter {
        EventParameter::Status(p) => if p.status.is_success() {
            Ok(())
        } else {
            Err(Error::ErrorCode(p.status))
        },
        _ => Err(Error::InvalidPacket),
    }
}

/// The result of a command returning the random number: them on success, else the error code.
pub fn random_number_response(parameter: &EventParameter) -> (r: Result<[u8; 8], Error>)
    requires
        parameter is StatusAndRandomNumber,
    ensures
        ({
            let p = parameter->StatusAndRandomNumber_0;
            r == if p.status == ErrorCode::Success {
                Ok::<[u8; 8], Error>(p.random_number)
            } else {
                Err::<[u8; 8], Error>(Error::ErrorCode(p.status))
            }
        }),
{
    match parameter {
        EventParameter::StatusAndRandomNumber(p) => if p.status.is_success() {
            Ok(p.random_number)
        } else {
            Err(Error::ErrorCode(p.status))
        },
        _ => Err(Error::InvalidPacket),
    }
}

/// The result of a command returning the TX power level: them on success, else the error code.
pub fn tx_power_level_response(parameter: &EventParameter) -> (r: Result<TxPowerLevel, Error>)
    requires
        parameter is StatusAndTxPowerLevel,
    ensures
        ({
            let p = parameter->StatusAndTxPowerLevel_0;
            r == if p.status == ErrorCode::Success {
                Ok::<TxPowerLevel, Error>(p.tx_power_level)
            } else {
                Err::<TxPowerLevel, Error>(Error::ErrorCode(p.status))
            }
        }),
{
    match parameter {
        EventParameter::StatusAndTxPowerLevel(p) => if p.status.is_success() {
            Ok(p.tx_power_level)
        } else {
            Err(Error::ErrorCode(p.status))
        },
        _ => Err(Error::InvalidPacket),
    }
}

/// The result of a command returning the LE ACL data packet length and the total number of LE ACL data packets: them on success, else the error code.
pub fn le_buffer_size_response(parameter: &EventParameter) -> (r: Result<(u16, u16), Error>)
    requires
        parameter is StatusAndLeBufferSize,
    ensures
        ({
            let p = parameter->StatusAndLeBufferSize_0;
            r == if p.status == ErrorCode::Success {
                Ok::<(u16, u16), Error>((p.le_acl_data_packet_length, p.total_num_le_acl_data_packets as u16))
            } else {
                Err::<(u16, u16), Error>(Error::ErrorCode(p.status))
            }
        }),
{
    match parameter {
        EventParameter::StatusAndLeBufferSize(p) => if p.status.is_success() {
            Ok((p.le_acl_data_packet_length, p.total_num_le_acl_data_packets as u16))
        } else {
            Err(Error::ErrorCode(p.status))
        },
        _ => Err(Error::InvalidPacket),
    }
}

/// The result of a command returning the size of the Filter Accept List: them on success, else the error code.
pub fn filter_accept_list_size_response(parameter: &EventParameter) -> (r: Result<usize, Error>)
    requires
        parameter is StatusAndFilterAcceptListSize,
    ensures
        ({
            let p = parameter->StatusAndFilterAcceptListSize_0;
            r == if p.status == ErrorCode::Success {
                Ok::<usize, Error>(p.filter_accept_list_size)
            } else {
                Err::<usize, Error>(Error::ErrorCode(p.status))
            }
        }),
{
    match parameter {
        EventParameter::StatusAndFilterAcceptListSize(p) => if p.status.is_success() {
            Ok(p.filter_accept_list_size)
        } else {
            Err(Error::ErrorCode(p.status))
        },
        _ => Err(Error::InvalidPacket),
    }
}

/// The result of a command returning the supported LE features: them on success, else the error code.
pub fn supported_le_features_response(parameter: &EventParameter) -> (r: Result<SupportedLeFeatures, Error>)
    requires
        parameter is StatusAndSupportedLeFeatures,
    ensures
        ({
            let p = parameter->StatusAndSupportedLeFeatures_0;
            r == if p.status == ErrorCode::Success {
                Ok::<SupportedLeFeatures, Error>(p.supported_le_features)
            } else {
                Err::<SupportedLeFeatures, Error>(Error::ErrorCode(p.status))
            }
        }),
{
    match parameter {
        EventParameter::StatusAndSupportedLeFeatures(p) => if p.status.is_success() {
            Ok(p.supported_le_features)
        } else {
            Err(Error::ErrorCode(p.status))
        },
        _ => Err(Error::InvalidPacket),
    }
}

/// The result of a command returning the supported LE states: them on success, else the error code.
pub fn supported_le_states_response(parameter: &EventParameter) -> (r: Result<SupportedLeStates, Error>)
    requires
        parameter is StatusAndSupportedLeStates,
    ensures
        ({
            let p = parameter->StatusAndSupportedLeStates_0;
            r == if p.status == ErrorCode::Success {
                Ok::<SupportedLeStates, Error>(p.supported_le_states)
            } else {
                Err::<SupportedLeStates, Error>(Error::ErrorCode(p.status))
            }
        }),
{
    match parameter {
        EventParameter::StatusAndSupportedLeStates(p) => if p.status.is_success() {
            Ok(p.supported_le_states)
        } else {
            Err(Error::ErrorCode(p.status))
        },
        _ => Err(Error::InvalidPacket),
    }
}

/// The result of a command returning the public address of the Controller: them on success, else the error code.
pub fn bd_addr_response(parameter: &EventParameter) -> (r: Result<PublicDeviceAddress, Error>)
    requires
        parameter is StatusAndBdAddr,
    ensures
        ({
            let p = parameter->StatusAndBdAddr_0;
            r == if p.status == ErrorCode::Success {
                Ok::<PublicDeviceAddress, Error>(p.bd_addr)
            } else {
                Err::<PublicDeviceAddress, Error>(Error::ErrorCode(p.status))
            }
        }),
{
    match parameter {
        EventParameter::StatusAndBdAddr(p) => if p.status.is_success() {
            Ok(p.bd_addr)
        } else {
            Err(Error::ErrorCode(p.status))
        },
        _ => Err(Error::InvalidPacket),
    }
}

/// The result of a command returning the ACL data packet length, the synchronous data packet length, the total number of ACL data packets and the total number of synchronous data packets: them on success, else the error code.
pub fn buffer_size_response(parameter: &EventParameter) -> (r: Result<(u16, u8, u16, u16), Error>)
    requires
        parameter is StatusAndBufferSize,
    ensures
        ({
            let p = parameter->StatusAndBufferSize_0;
            r == if p.status == ErrorCode::Success {
                Ok::<(u16, u8, u16, u16), Error>((p.acl_data_packet_length, p.synchronous_data_packet_length, p.total_num_acl_data_packets, p.total_num_synchronous_packets))
            } else {
                Err::<(u16, u8, u16, u16), Error>(Error::ErrorCode(p.status))
            }
        }),
{
    match parameter {
        EventParameter::StatusAndBufferSize(p) => if p.status.is_success() {
            Ok((p.acl_data_packet_length, p.synchronous_data_packet_length, p.total_num_acl_data_packets, p.total_num_synchronous_packets))
        } else {
            Err(Error::ErrorCode(p.status))
        },
        _ => Err(Error::InvalidPacket),
    }
}

/// The result of a command returning the supported commands: them on success, else the error code.
pub fn supported_commands_response(parameter: &EventParameter) -> (r: Result<SupportedCommands, Error>)
    requires
        parameter is StatusAndSupportedCommands,
    ensures
        ({
            let p = parameter->StatusAndSupportedCommands_0;
            r == if p.status == ErrorCode::Success {
                Ok::<SupportedCommands, Error>(p.supported_commands)
            } else {
                Err::<SupportedCommands, Error>(Error::ErrorCode(p.status))
            }
        }),
{
    match parameter {
        EventParameter::StatusAndSupportedCommands(p) => if p.status.is_success() {
            Ok(p.supported_commands)
        } else {
            Err(Error::ErrorCode(p.status))
        },
        _ => Err(Error::InvalidPacket),
    }
}

/// The result of a command returning the supported features: them on success, else the error code.
pub fn supported_features_response(parameter: &EventParameter) -> (r: Result<SupportedFeatures, Error>)
    requires
        parameter is StatusAndSupportedFeatures,
    ensures
        ({
            let p = parameter->StatusAndSupportedFeatures_0;
            r == if p.status == ErrorCode::Success {
                Ok::<SupportedFeatures, Error>(p.supported_features)
            } else {
                Err::<SupportedFeatures, Error>(Error::ErrorCode(p.status))
            }
        }),
{
    match parameter {
        EventParameter::StatusAndSupportedFeatures(p) => if p.status.is_success() {
            Ok(p.supported_features)
        } else {
            Err(Error::ErrorCode(p.status))
        },
        _ => Err(Error::InvalidPacket),
    }
}

/// The return parameters read for a command are those that its result expects: a status alone
/// for the commands that return nothing else, and for each other command its own kind.
pub proof fn lemma_return_parameters_kind(op: CommandOpCode, r: Seq<u8>)
    ensures
        spec_parse_return_parameters(op, r) matches Some(p) ==> {
            &&& spec_returns_status_only(op) ==> p is Status
            &&& op == CommandOpCode::LeRand ==> p is StatusAndRandomNumber
            &&& op == CommandOpCode::LeReadAdvertisingChannelTxPower ==> p is StatusAndTxPowerLevel
            &&& op == CommandOpCode::LeReadBufferSize ==> p is StatusAndLeBufferSize
            &&& op == CommandOpCode::LeReadFilterAcceptListSize ==> p is StatusAndFilterAcceptListSize
            &&& op == CommandOpCode::LeReadLocalSupportedFeaturesPage0 ==> p is StatusAndSupportedLeFeatures
            &&& op == CommandOpCode::LeReadSupportedStates ==> p is StatusAndSupportedLeStates
            &&& op == CommandOpCode::ReadBdAddr ==> p is StatusAndBdAddr
            &&& op == CommandOpCode::ReadBufferSize ==> p is StatusAndBufferSize
            &&& op == CommandOpCode::ReadLocalSupportedCommands ==> p is StatusAndSupportedCommands
            &&& op == CommandOpCode::ReadLocalSupportedFeatures ==> p is StatusAndSupportedFeatures
            &&& op == CommandOpCode::Nop ==> p is Empty
        },
{
}

} // verus!
