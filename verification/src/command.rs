//! HCI commands: their opcodes, their packets and the parsing of command packets.
use vstd::prelude::*;

use crate::advertising::advertising_enable::AdvertisingEnable;
use crate::advertising_data::{AdvertisingData, ScanResponseData};
use crate::advertising_parameters::AdvertisingParameters;
use crate::bytes::{
    lemma_u16_le_roundtrip, push_u16_le, read_array6, read_u16_le,
    spec_u16_from_le, spec_u16_le_bytes,
};
use crate::common::le_event_mask::LeEventMask;
use crate::common::le_filter_accept_list_address::LeFilterAcceptListAddress;
use crate::connection::connection_handle::ConnectionHandle;
use crate::connection::connection_parameters::ConnectionParameters;
use crate::connection::connection_update_parameters::ConnectionUpdateParameters;
use crate::connection::reason::Reason;
use crate::device_address::{DeviceAddress, RandomAddress, RandomStaticDeviceAddress};
use crate::encode::EncodeToBuffer;
use crate::error::Error;
use crate::event_mask::EventMask;
use crate::scanning::scan_enable::{FilterDuplicates, ScanEnable};
use crate::scanning::scan_parameters::ScanParameters;

verus! {

/// Opcode group of the no-operation opcode.
pub const NOP_OGF: u16 = 0x00;

/// Opcode group of the link control commands.
pub const LINK_CONTROL_OGF: u16 = 0x01;

/// Opcode group of the controller and baseband commands.
pub const CONTROLLER_AND_BASEBAND_OGF: u16 = 0x03;

/// Opcode group of the informational parameters commands.
pub const INFORMATIONAL_PARAMETERS_OGF: u16 = 0x04;

/// Opcode group of the LE controller commands.
pub const LE_CONTROLLER_OGF: u16 = 0x08;

/// The largest command packet: packet type (1), opcode (2), parameter total length (1) and up
/// to 255 bytes of parameters.
pub const HCI_COMMAND_MAX_SIZE: usize = 259;

/// The opcode of the command `ocf` of the group `ogf`.
pub open spec fn spec_opcode(ogf: u16, ocf: u16) -> u16 {
    (ogf << 10u16) | ocf
}

/// The opcode of the command `ocf` of the group `ogf`.
pub fn opcode(ogf: u16, ocf: u16) -> (r: u16)
    ensures
        r == spec_opcode(ogf, ocf),
{
    (ogf << 10u16) | ocf
}

/// Opcode of an HCI command; any value that names no command of this library is kept as is.
#[derive(Debug, Clone, Copy, PartialEq, Eq, Structural)]
pub enum CommandOpCode {

    Nop,
    Disconnect,
    SetEventMask,
    Reset,
    ReadLocalSupportedCommands,
    ReadLocalSupportedFeatures,
    ReadBufferSize,
    ReadBdAddr,
    LeSetEventMask,
    LeReadBufferSize,
    LeReadLocalSupportedFeaturesPage0,
    LeSetRandomAddress,
    LeSetAdvertisingParameters,
    LeReadAdvertisingChannelTxPower,
    LeSetAdvertisingData,
    LeSetScanResponseData,
    LeSetAdvertisingEnable,
    LeSetScanParameters,
    LeSetScanEnable,
    LeCreateConnection,
    LeReadFilterAcceptListSize,
    LeClearFilterAcceptList,
    LeAddDeviceToFilterAcceptList,
    LeRemoveDeviceFromFilterAcceptList,
    LeConnectionUpdate,
    LeRand,
    LeReadSupportedStates,
    Unsupported(u16),
}

impl CommandOpCode {
    /// The value of the opcode.
    pub open spec fn spec_to_u16(self) -> u16 {
        match self {
            CommandOpCode::Nop => 0x0000,
            CommandOpCode::Disconnect => 0x0406,
            CommandOpCode::SetEventMask => 0x0C01,
            CommandOpCode::Reset => 0x0C03,
            CommandOpCode::ReadLocalSupportedCommands => 0x1002,
            CommandOpCode::ReadLocalSupportedFeatures => 0x1003,
            CommandOpCode::ReadBufferSize => 0x1005,
            CommandOpCode::ReadBdAddr => 0x1009,
            CommandOpCode::LeSetEventMask => 0x2001,
            CommandOpCode::LeReadBufferSize => 0x2002,
            CommandOpCode::LeReadLocalSupportedFeaturesPage0 => 0x2003,
            CommandOpCode::LeSetRandomAddress => 0x2005,
            CommandOpCode::LeSetAdvertisingParameters => 0x2006,
            CommandOpCode::LeReadAdvertisingChannelTxPower => 0x2007,
            CommandOpCode::LeSetAdvertisingData => 0x2008,
            CommandOpCode::LeSetScanResponseData => 0x2009,
            CommandOpCode::LeSetAdvertisingEnable => 0x200A,
            CommandOpCode::LeSetScanParameters => 0x200B,
            CommandOpCode::LeSetScanEnable => 0x200C,
            CommandOpCode::LeCreateConnection => 0x200D,
            CommandOpCode::LeReadFilterAcceptListSize => 0x200F,
            CommandOpCode::LeClearFilterAcceptList => 0x2010,
            CommandOpCode::LeAddDeviceToFilterAcceptList => 0x2011,
            CommandOpCode::LeRemoveDeviceFromFilterAcceptList => 0x2012,
            CommandOpCode::LeConnectionUpdate => 0x2013,
            CommandOpCode::LeRand => 0x2018,
            CommandOpCode::LeReadSupportedStates => 0x201C,
            CommandOpCode::Unsupported(v) => v,
        }
    }

    /// The opcode of a value: the command it names, or `Unsupported` with the value.
    pub open spec fn spec_from_u16(v: u16) -> CommandOpCode {
        if v == 0x0000 {
            CommandOpCode::Nop
        } else if v == 0x0406 {
            CommandOpCode::Disconnect
        } else if v == 0x0C01 {
            CommandOpCode::SetEventMask
        } else if v == 0x0C03 {
            CommandOpCode::Reset
        } else if v == 0x1002 {
            CommandOpCode::ReadLocalSupportedCommands
        } else if v == 0x1003 {
            CommandOpCode::ReadLocalSupportedFeatures
        } else if v == 0x1005 {
            CommandOpCode::ReadBufferSize
        } else if v == 0x1009 {
            CommandOpCode::ReadBdAddr
        } else if v == 0x2001 {
            CommandOpCode::LeSetEventMask
        } else if v == 0x2002 {
            CommandOpCode::LeReadBufferSize
        } else if v == 0x2003 {
            CommandOpCode::LeReadLocalSupportedFeaturesPage0
        } else if v == 0x2005 {
            CommandOpCode::LeSetRandomAddress
        } else if v == 0x2006 {
            CommandOpCode::LeSetAdvertisingParameters
        } else if v == 0x2007 {
            CommandOpCode::LeReadAdvertisingChannelTxPower
        } else if v == 0x2008 {
            CommandOpCode::LeSetAdvertisingData
        } else if v == 0x2009 {
            CommandOpCode::LeSetScanResponseData
        } else if v == 0x200A {
            CommandOpCode::LeSetAdvertisingEnable
        } else if v == 0x200B {
            CommandOpCode::LeSetScanParameters
        } else if v == 0x200C {
            CommandOpCode::LeSetScanEnable
        } else if v == 0x200D {
            CommandOpCode::LeCreateConnection
        } else if v == 0x200F {
            CommandOpCode::LeReadFilterAcceptListSize
        } else if v == 0x2010 {
            CommandOpCode::LeClearFilterAcceptList
        } else if v == 0x2011 {
            CommandOpCode::LeAddDeviceToFilterAcceptList
        } else if v == 0x2012 {
            CommandOpCode::LeRemoveDeviceFromFilterAcceptList
        } else if v == 0x2013 {
            CommandOpCode::LeConnectionUpdate
        } else if v == 0x2018 {
            CommandOpCode::LeRand
        } else if v == 0x201C {
            CommandOpCode::LeReadSupportedStates
        } else {
            CommandOpCode::Unsupported(v)
        }
    }

    /// Whether `v` is the value of a command of this library.
    pub open spec fn spec_is_known(v: u16) -> bool {
        !(CommandOpCode::spec_from_u16(v) is Unsupported)
    }

    /// Well-formedness: an unsupported opcode holds a value that names no known command.
    pub open spec fn wf(self) -> bool {
        match self {
            CommandOpCode::Unsupported(v) => !CommandOpCode::spec_is_known(v),
            _ => true,
        }
    }

    /// The value of the opcode.
    pub fn to_u16(&self) -> (r: u16)
        ensures
            r == self.spec_to_u16(),
    {
        match self {
            CommandOpCode::Nop => 0x0000,
            CommandOpCode::Disconnect => 0x0406,
            CommandOpCode::SetEventMask => 0x0C01,
            CommandOpCode::Reset => 0x0C03,
            CommandOpCode::ReadLocalSupportedCommands => 0x1002,
            CommandOpCode::ReadLocalSupportedFeatures => 0x1003,
            CommandOpCode::ReadBufferSize => 0x1005,
            CommandOpCode::ReadBdAddr => 0x1009,
            CommandOpCode::LeSetEventMask => 0x2001,
            CommandOpCode::LeReadBufferSize => 0x2002,
            CommandOpCode::LeReadLocalSupportedFeaturesPage0 => 0x2003,
            CommandOpCode::LeSetRandomAddress => 0x2005,
            CommandOpCode::LeSetAdvertisingParameters => 0x2006,
            CommandOpCode::LeReadAdvertisingChannelTxPower => 0x2007,
            CommandOpCode::LeSetAdvertisingData => 0x2008,
            CommandOpCode::LeSetScanResponseData => 0x2009,
            CommandOpCode::LeSetAdvertisingEnable => 0x200A,
            CommandOpCode::LeSetScanParameters => 0x200B,
            CommandOpCode::LeSetScanEnable => 0x200C,
            CommandOpCode::LeCreateConnection => 0x200D,
            CommandOpCode::LeReadFilterAcceptListSize => 0x200F,
            CommandOpCode::LeClearFilterAcceptList => 0x2010,
            CommandOpCode::LeAddDeviceToFilterAcceptList => 0x2011,
            CommandOpCode::LeRemoveDeviceFromFilterAcceptList => 0x2012,
            CommandOpCode::LeConnectionUpdate => 0x2013,
            CommandOpCode::LeRand => 0x2018,
            CommandOpCode::LeReadSupportedStates => 0x201C,
            CommandOpCode::Unsupported(v) => *v,
        }
    }

    /// The opcode of a value.
    pub fn from_u16(v: u16) -> (r: CommandOpCode)
        ensures
            r == CommandOpCode::spec_from_u16(v),
            r.wf(),
            r.spec_to_u16() == v,
    {
        match v {
            0x0000 => CommandOpCode::Nop,
            0x0406 => CommandOpCode::Disconnect,
            0x0C01 => CommandOpCode::SetEventMask,
            0x0C03 => CommandOpCode::Reset,
            0x1002 => CommandOpCode::ReadLocalSupportedCommands,
            0x1003 => CommandOpCode::ReadLocalSupportedFeatures,
            0x1005 => CommandOpCode::ReadBufferSize,
            0x1009 => CommandOpCode::ReadBdAddr,
            0x2001 => CommandOpCode::LeSetEventMask,
            0x2002 => CommandOpCode::LeReadBufferSize,
            0x2003 => CommandOpCode::LeReadLocalSupportedFeaturesPage0,
            0x2005 => CommandOpCode::LeSetRandomAddress,
            0x2006 => CommandOpCode::LeSetAdvertisingParameters,
            0x2007 => CommandOpCode::LeReadAdvertisingChannelTxPower,
            0x2008 => CommandOpCode::LeSetAdvertisingData,
            0x2009 => CommandOpCode::LeSetScanResponseData,
            0x200A => CommandOpCode::LeSetAdvertisingEnable,
            0x200B => CommandOpCode::LeSetScanParameters,
            0x200C => CommandOpCode::LeSetScanEnable,
            0x200D => CommandOpCode::LeCreateConnection,
            0x200F => CommandOpCode::LeReadFilterAcceptListSize,
            0x2010 => CommandOpCode::LeClearFilterAcceptList,
            0x2011 => CommandOpCode::LeAddDeviceToFilterAcceptList,
            0x2012 => CommandOpCode::LeRemoveDeviceFromFilterAcceptList,
            0x2013 => CommandOpCode::LeConnectionUpdate,
            0x2018 => CommandOpCode::LeRand,
            0x201C => CommandOpCode::LeReadSupportedStates,
            _ => CommandOpCode::Unsupported(v),
        }
    }

    /// The opcodes of the known commands are made of their group and command numbers.
    pub proof fn lemma_opcode_values()
        ensures
            CommandOpCode::Nop.spec_to_u16() == spec_opcode(NOP_OGF, 0x0000),
            CommandOpCode::Disconnect.spec_to_u16() == spec_opcode(LINK_CONTROL_OGF, 0x0006),
            CommandOpCode::SetEventMask.spec_to_u16() == spec_opcode(CONTROLLER_AND_BASEBAND_OGF, 0x0001),
            CommandOpCode::Reset.spec_to_u16() == spec_opcode(CONTROLLER_AND_BASEBAND_OGF, 0x0003),
            CommandOpCode::ReadLocalSupportedCommands.spec_to_u16() == spec_opcode(INFORMATIONAL_PARAMETERS_OGF, 0x0002),
            CommandOpCode::ReadLocalSupportedFeatures.spec_to_u16() == spec_opcode(INFORMATIONAL_PARAMETERS_OGF, 0x0003),
            CommandOpCode::ReadBufferSize.spec_to_u16() == spec_opcode(INFORMATIONAL_PARAMETERS_OGF, 0x0005),
            CommandOpCode::ReadBdAddr.spec_to_u16() == spec_opcode(INFORMATIONAL_PARAMETERS_OGF, 0x0009),
            CommandOpCode::LeSetEventMask.spec_to_u16() == spec_opcode(LE_CONTROLLER_OGF, 0x0001),
            CommandOpCode::LeReadBufferSize.spec_to_u16() == spec_opcode(LE_CONTROLLER_OGF, 0x0002),
            CommandOpCode::LeReadLocalSupportedFeaturesPage0.spec_to_u16() == spec_opcode(LE_CONTROLLER_OGF, 0x0003),
            CommandOpCode::LeSetRandomAddress.spec_to_u16() == spec_opcode(LE_CONTROLLER_OGF, 0x0005),
            CommandOpCode::LeSetAdvertisingParameters.spec_to_u16() == spec_opcode(LE_CONTROLLER_OGF, 0x0006),
            CommandOpCode::LeReadAdvertisingChannelTxPower.spec_to_u16() == spec_opcode(LE_CONTROLLER_OGF, 0x0007),
            CommandOpCode::LeSetAdvertisingData.spec_to_u16() == spec_opcode(LE_CONTROLLER_OGF, 0x0008),
            CommandOpCode::LeSetScanResponseData.spec_to_u16() == spec_opcode(LE_CONTROLLER_OGF, 0x0009),
            CommandOpCode::LeSetAdvertisingEnable.spec_to_u16() == spec_opcode(LE_CONTROLLER_OGF, 0x000A),
            CommandOpCode::LeSetScanParameters.spec_to_u16() == spec_opcode(LE_CONTROLLER_OGF, 0x000B),
            CommandOpCode::LeSetScanEnable.spec_to_u16() == spec_opcode(LE_CONTROLLER_OGF, 0x000C),
            CommandOpCode::LeCreateConnection.spec_to_u16() == spec_opcode(LE_CONTROLLER_OGF, 0x000D),
            CommandOpCode::LeReadFilterAcceptListSize.spec_to_u16() == spec_opcode(LE_CONTROLLER_OGF, 0x000F),
            CommandOpCode::LeClearFilterAcceptList.spec_to_u16() == spec_opcode(LE_CONTROLLER_OGF, 0x0010),
            CommandOpCode::LeAddDeviceToFilterAcceptList.spec_to_u16() == spec_opcode(LE_CONTROLLER_OGF, 0x0011),
            CommandOpCode::LeRemoveDeviceFromFilterAcceptList.spec_to_u16() == spec_opcode(LE_CONTROLLER_OGF, 0x0012),
            CommandOpCode::LeConnectionUpdate.spec_to_u16() == spec_opcode(LE_CONTROLLER_OGF, 0x0013),
            CommandOpCode::LeRand.spec_to_u16() == spec_opcode(LE_CONTROLLER_OGF, 0x0018),
            CommandOpCode::LeReadSupportedStates.spec_to_u16() == spec_opcode(LE_CONTROLLER_OGF, 0x001C),
    {
        assert(((0u16 << 10u16) | 0x0000u16) == 0x0000u16 && ((1u16 << 10u16) | 0x0006u16) == 0x0406u16 && ((3u16 << 10u16) | 0x0001u16) == 0x0C01u16 && ((3u16 << 10u16) | 0x0003u16) == 0x0C03u16 && ((4u16 << 10u16) | 0x0002u16) == 0x1002u16 && ((4u16 << 10u16) | 0x0003u16) == 0x1003u16 && ((4u16 << 10u16) | 0x0005u16) == 0x1005u16 && ((4u16 << 10u16) | 0x0009u16) == 0x1009u16 && ((8u16 << 10u16) | 0x0001u16) == 0x2001u16 && ((8u16 << 10u16) | 0x0002u16) == 0x2002u16 && ((8u16 << 10u16) | 0x0003u16) == 0x2003u16 && ((8u16 << 10u16) | 0x0005u16) == 0x2005u16 && ((8u16 << 10u16) | 0x0006u16) == 0x2006u16 && ((8u16 << 10u16) | 0x0007u16) == 0x2007u16 && ((8u16 << 10u16) | 0x0008u16) == 0x2008u16 && ((8u16 << 10u16) | 0x0009u16) == 0x2009u16 && ((8u16 << 10u16) | 0x000Au16) == 0x200Au16 && ((8u16 << 10u16) | 0x000Bu16) == 0x200Bu16 && ((8u16 << 10u16) | 0x000Cu16) == 0x200Cu16 && ((8u16 << 10u16) | 0x000Du16) == 0x200Du16 && ((8u16 << 10u16) | 0x000Fu16) == 0x200Fu16 && ((8u16 << 10u16) | 0x0010u16) == 0x2010u16 && ((8u16 << 10u16) | 0x0011u16) == 0x2011u16 && ((8u16 << 10u16) | 0x0012u16) == 0x2012u16 && ((8u16 << 10u16) | 0x0013u16) == 0x2013u16 && ((8u16 << 10u16) | 0x0018u16) == 0x2018u16 && ((8u16 << 10u16) | 0x001Cu16) == 0x201Cu16) by (bit_vector);
    }

    /// Converting the value of a well-formed opcode gives the opcode back.
    pub proof fn lemma_from_to_u16(self)
        requires
            self.wf(),
        ensures
            CommandOpCode::spec_from_u16(self.spec_to_u16()) == self,
    {
    }

    /// Converting a value into an opcode and back gives the value.
    pub proof fn lemma_to_from_u16(v: u16)
        ensures
            CommandOpCode::spec_from_u16(v).spec_to_u16() == v,
    {
    }
}

impl From<u16> for CommandOpCode {
    fn from(value: u16) -> CommandOpCode {
        CommandOpCode::from_u16(value)
    }
}

impl vstd::std_specs::convert::FromSpecImpl<u16> for CommandOpCode {
    open spec fn obeys_from_spec() -> bool {
        true
    }

    open spec fn from_spec(v: u16) -> CommandOpCode {
        CommandOpCode::spec_from_u16(v)
    }
}

impl From<CommandOpCode> for u16 {
    fn from(value: CommandOpCode) -> u16 {
        value.to_u16()
    }
}

impl vstd::std_specs::convert::FromSpecImpl<CommandOpCode> for u16 {
    open spec fn obeys_from_spec() -> bool {
        true
    }

    open spec fn from_spec(v: CommandOpCode) -> u16 {
        v.spec_to_u16()
    }
}

/// An HCI command packet: packet type, opcode, parameter total length and parameters.
#[derive(Debug)]
pub struct CommandPacket {
    buffer: Vec<u8>,
}

impl CommandPacket {
    /// The bytes of the packet.
    pub closed spec fn spec_data(&self) -> Seq<u8> {
        self.buffer@
    }

    /// Well-formedness: a header of four bytes whose last one counts the parameters, and no more
    /// than 255 bytes of parameters.
    pub open spec fn wf(&self) -> bool {
        &&& self.spec_data().len() >= 4
        &&& self.spec_data().len() <= HCI_COMMAND_MAX_SIZE
        &&& self.spec_data()[3] == self.spec_data().len() - 4
    }

    /// The header of a command packet without parameters.
    pub open spec fn spec_header(opcode: CommandOpCode) -> Seq<u8> {
        seq![0x01u8] + spec_u16_le_bytes(opcode.spec_to_u16()) + seq![0u8]
    }

    /// Creates the packet of a command without parameters.
    pub fn new(opcode: CommandOpCode) -> (r: CommandPacket)
        ensures
            r.spec_data() == CommandPacket::spec_header(opcode),
            r.wf(),
    {
        let mut buffer: Vec<u8> = Vec::new();
        buffer.push(0x01);
        push_u16_le(&mut buffer, opcode.to_u16());
        buffer.push(0);
        let r = CommandPacket { buffer };
        assert(r.spec_data() =~= CommandPacket::spec_header(opcode));
        r
    }

    /// The packet with `parameters` appended and counted, or the error reporting that they do not
    /// fit.
    pub open spec fn spec_append(data: Seq<u8>, parameters: Seq<u8>) -> Result<Seq<u8>, Error> {
        if data.len() + parameters.len() > HCI_COMMAND_MAX_SIZE {
            Err(Error::DataWillNotFitCommandPacket)
        } else {
            Ok(data.update(3, (data[3] + parameters.len()) as u8) + parameters)
        }
    }

    /// Appending no parameter leaves a well-formed packet as it is.
    pub proof fn lemma_append_nothing(data: Seq<u8>)
        requires
            4 <= data.len() <= HCI_COMMAND_MAX_SIZE,
        ensures
            CommandPacket::spec_append(data, Seq::empty()) == Ok::<Seq<u8>, Error>(data),
    {
        assert(data.update(3, (data[3] + 0) as u8) + Seq::empty() =~= data);
    }

    /// Appends the encoding of a value to the parameters.
    pub fn encode<E: EncodeToBuffer>(self, data: &E) -> (r: Result<CommandPacket, Error>)
        requires
            self.wf(),
        ensures
            r matches Ok(p) ==> p.wf() && Ok::<Seq<u8>, Error>(p.spec_data())
                == CommandPacket::spec_append(self.spec_data(), data.spec_encode()),
            r matches Err(e) ==> Err::<Seq<u8>, Error>(e) == CommandPacket::spec_append(
                self.spec_data(),
                data.spec_encode(),
            ),
    {
        let n = data.encoded_size();
        if n > HCI_COMMAND_MAX_SIZE - self.buffer.len() {
            return Err(Error::DataWillNotFitCommandPacket);
        }
        let mut buffer = self.buffer;
        let ghost start = buffer@;
        data.encode(&mut buffer);
        let count = buffer[3] + (n as u8);
        buffer.set(3, count);
        let r = CommandPacket { buffer };
        assert(r.spec_data() =~= start.update(3, (start[3] + n) as u8) + data.spec_encode());
        Ok(r)
    }

    /// The bytes of the packet.
    pub fn data(&self) -> (r: &[u8])
        ensures
            r@ == self.spec_data(),
    {
        self.buffer.as_slice()
    }
}

/// An HCI command, with its parameters.
#[derive(Debug, Clone, Copy, PartialEq, Eq)]
pub enum Command {
    LeAddDeviceToFilterAcceptList(LeFilterAcceptListAddress),
    LeClearFilterAcceptList,
    LeConnectionUpdate(ConnectionUpdateParameters),
    LeCreateConnection(ConnectionParameters),
    LeRand,
    LeReadAdvertisingChannelTxPower,
    LeReadBufferSize,
    LeReadFilterAcceptListSize,
    LeReadLocalSupportedFeaturesPage0,
    LeReadSupportedStates,
    LeRemoveDeviceFromFilterAcceptList(LeFilterAcceptListAddress),
    LeSetEventMask(LeEventMask),
    LeSetAdvertisingEnable(AdvertisingEnable),
    LeSetAdvertisingData(AdvertisingData),
    LeSetAdvertisingParameters(AdvertisingParameters),
    LeSetRandomAddress(RandomStaticDeviceAddress),
    LeSetScanEnable(ScanEnable, FilterDuplicates),
    LeSetScanParameters(ScanParameters),
    LeSetScanResponseData(ScanResponseData),
    Disconnect(ConnectionHandle, Reason),
    Nop,
    ReadBdAddr,
    ReadBufferSize,
    ReadLocalSupportedCommands,
    ReadLocalSupportedFeatures,
    Reset,
    SetEventMask(EventMask),
    Unsupported(u16),
}

impl Command {
    /// The opcode of the command.
    pub open spec fn spec_opcode(self) -> CommandOpCode {
        match self {
            Command::LeAddDeviceToFilterAcceptList(_) => CommandOpCode::LeAddDeviceToFilterAcceptList,
            Command::LeClearFilterAcceptList => CommandOpCode::LeClearFilterAcceptList,
            Command::LeConnectionUpdate(_) => CommandOpCode::LeConnectionUpdate,
            Command::LeCreateConnection(_) => CommandOpCode::LeCreateConnection,
            Command::LeRand => CommandOpCode::LeRand,
            Command::LeReadAdvertisingChannelTxPower => CommandOpCode::LeReadAdvertisingChannelTxPower,
            Command::LeReadBufferSize => CommandOpCode::LeReadBufferSize,
            Command::LeReadFilterAcceptListSize => CommandOpCode::LeReadFilterAcceptListSize,
            Command::LeReadLocalSupportedFeaturesPage0 => CommandOpCode::LeReadLocalSupportedFeaturesPage0,
            Command::LeReadSupportedStates => CommandOpCode::LeReadSupportedStates,
            Command::LeRemoveDeviceFromFilterAcceptList(_) => CommandOpCode::LeRemoveDeviceFromFilterAcceptList,
            Command::LeSetEventMask(_) => CommandOpCode::LeSetEventMask,
            Command::LeSetAdvertisingEnable(_) => CommandOpCode::LeSetAdvertisingEnable,
            Command::LeSetAdvertisingData(_) => CommandOpCode::LeSetAdvertisingData,
            Command::LeSetAdvertisingParameters(_) => CommandOpCode::LeSetAdvertisingParameters,
            Command::LeSetRandomAddress(_) => CommandOpCode::LeSetRandomAddress,
            Command::LeSetScanEnable(_, _) => CommandOpCode::LeSetScanEnable,
            Command::LeSetScanParameters(_) => CommandOpCode::LeSetScanParameters,
            Command::LeSetScanResponseData(_) => CommandOpCode::LeSetScanResponseData,
            Command::Disconnect(_, _) => CommandOpCode::Disconnect,
            Command::Nop => CommandOpCode::Nop,
            Command::ReadBdAddr => CommandOpCode::ReadBdAddr,
            Command::ReadBufferSize => CommandOpCode::ReadBufferSize,
            Command::ReadLocalSupportedCommands => CommandOpCode::ReadLocalSupportedCommands,
            Command::ReadLocalSupportedFeatures => CommandOpCode::ReadLocalSupportedFeatures,
            Command::Reset => CommandOpCode::Reset,
            Command::SetEventMask(_) => CommandOpCode::SetEventMask,
            Command::Unsupported(v) => CommandOpCode::Unsupported(v),
        }
    }

    /// The opcode of the command.
    pub fn opcode(&self) -> (r: CommandOpCode)
        ensures
            r == self.spec_opcode(),
    {
        match self {
            Command::LeAddDeviceToFilterAcceptList(_) => CommandOpCode::LeAddDeviceToFilterAcceptList,
            Command::LeClearFilterAcceptList => CommandOpCode::LeClearFilterAcceptList,
            Command::LeConnectionUpdate(_) => CommandOpCode::LeConnectionUpdate,
            Command::LeCreateConnection(_) => CommandOpCode::LeCreateConnection,
            Command::LeRand => CommandOpCode::LeRand,
            Command::LeReadAdvertisingChannelTxPower => CommandOpCode::LeReadAdvertisingChannelTxPower,
            Command::LeReadBufferSize => CommandOpCode::LeReadBufferSize,
            Command::LeReadFilterAcceptListSize => CommandOpCode::LeReadFilterAcceptListSize,
            Command::LeReadLocalSupportedFeaturesPage0 => CommandOpCode::LeReadLocalSupportedFeaturesPage0,
            Command::LeReadSupportedStates => CommandOpCode::LeReadSupportedStates,
            Command::LeRemoveDeviceFromFilterAcceptList(_) => CommandOpCode::LeRemoveDeviceFromFilterAcceptList,
            Command::LeSetEventMask(_) => CommandOpCode::LeSetEventMask,
            Command::LeSetAdvertisingEnable(_) => CommandOpCode::LeSetAdvertisingEnable,
            Command::LeSetAdvertisingData(_) => CommandOpCode::LeSetAdvertisingData,
            Command::LeSetAdvertisingParameters(_) => CommandOpCode::LeSetAdvertisingParameters,
            Command::LeSetRandomAddress(_) => CommandOpCode::LeSetRandomAddress,
            Command::LeSetScanEnable(_, _) => CommandOpCode::LeSetScanEnable,
            Command::LeSetScanParameters(_) => CommandOpCode::LeSetScanParameters,
            Command::LeSetScanResponseData(_) => CommandOpCode::LeSetScanResponseData,
            Command::Disconnect(_, _) => CommandOpCode::Disconnect,
            Command::Nop => CommandOpCode::Nop,
            Command::ReadBdAddr => CommandOpCode::ReadBdAddr,
            Command::ReadBufferSize => CommandOpCode::ReadBufferSize,
            Command::ReadLocalSupportedCommands => CommandOpCode::ReadLocalSupportedCommands,
            Command::ReadLocalSupportedFeatures => CommandOpCode::ReadLocalSupportedFeatures,
            Command::Reset => CommandOpCode::Reset,
            Command::SetEventMask(_) => CommandOpCode::SetEventMask,
            Command::Unsupported(v) => CommandOpCode::Unsupported(*v),
        }
    }

    /// The encoded parameters of the command.
    pub open spec fn spec_parameters(self) -> Seq<u8> {
        match self {
            Command::LeAddDeviceToFilterAcceptList(p0) => p0.spec_encode(),
            Command::LeConnectionUpdate(p0) => p0.spec_encode(),
            Command::LeCreateConnection(p0) => p0.spec_encode(),
            Command::LeRemoveDeviceFromFilterAcceptList(p0) => p0.spec_encode(),
            Command::LeSetEventMask(p0) => p0.spec_encode(),
            Command::LeSetAdvertisingEnable(p0) => p0.spec_encode(),
            Command::LeSetAdvertisingData(p0) => p0.spec_encode(),
            Command::LeSetAdvertisingParameters(p0) => p0.spec_encode(),
            Command::LeSetRandomAddress(p0) => p0.spec_encode(),
            Command::LeSetScanEnable(p0, p1) => p0.spec_encode() + p1.spec_encode(),
            Command::LeSetScanParameters(p0) => p0.spec_encode(),
            Command::LeSetScanResponseData(p0) => p0.spec_encode(),
            Command::Disconnect(p0, p1) => p0.spec_encode() + p1.spec_encode(),
            Command::SetEventMask(p0) => p0.spec_encode(),
            _ => Seq::empty(),
        }
    }

    /// Well-formedness: every parameter holds a value that its encoding carries.
    pub open spec fn wf(self) -> bool {
        match self {
            Command::LeAddDeviceToFilterAcceptList(p0) => p0.wf(),
            Command::LeConnectionUpdate(p0) => p0.wf(),
            Command::LeCreateConnection(p0) => p0.wf(),
            Command::LeRemoveDeviceFromFilterAcceptList(p0) => p0.wf(),
            Command::LeSetEventMask(p0) => p0.spec_bits() & !LeEventMask::spec_known_bits() == 0,
            Command::LeSetAdvertisingData(p0) => p0.wf(),
            Command::LeSetAdvertisingParameters(p0) => p0.wf(),
            Command::LeSetRandomAddress(p0) => p0.wf(),
            Command::LeSetScanParameters(p0) => p0.wf(),
            Command::LeSetScanResponseData(p0) => p0.wf(),
            Command::Disconnect(p0, p1) => p0.wf(),
            Command::Unsupported(v) => !CommandOpCode::spec_is_known(v),
            _ => true,
        }
    }

    /// The bytes of the packet of the command.
    pub open spec fn spec_packet(self) -> Seq<u8> {
        CommandPacket::spec_append(
            CommandPacket::spec_header(self.spec_opcode()),
            self.spec_parameters(),
        )->Ok_0
    }

    /// The outcome of `encode`: the packet of every supported command; an unsupported command is
    /// refused.
    pub open spec fn spec_encode(self) -> Result<Seq<u8>, Error> {
        match self {
            Command::Unsupported(v) => Err(Error::InvalidCommand(v)),
            _ => Ok(self.spec_packet()),
        }
    }

    /// The parameters of every command are at most 32 bytes long.
    pub proof fn lemma_parameters_len(self)
        ensures
            self.spec_parameters().len() <= 32,
    {
        match self {
            Command::LeAddDeviceToFilterAcceptList(p0) => { p0.lemma_spec_value_len(); },
            Command::LeConnectionUpdate(p0) => {  },
            Command::LeCreateConnection(p0) => { p0.spec_peer_address().lemma_spec_value_len(); },
            Command::LeRemoveDeviceFromFilterAcceptList(p0) => { p0.lemma_spec_value_len(); },
            Command::LeSetEventMask(p0) => {  },
            Command::LeSetAdvertisingEnable(p0) => {  },
            Command::LeSetAdvertisingData(p0) => { p0.lemma_spec_buffer_len(); },
            Command::LeSetAdvertisingParameters(p0) => { p0.spec_peer_address().lemma_spec_value_len(); },
            Command::LeSetRandomAddress(p0) => { DeviceAddress::Random(RandomAddress::Static(p0)).lemma_spec_value_len(); },
            Command::LeSetScanEnable(p0, p1) => {  },
            Command::LeSetScanParameters(p0) => {  },
            Command::LeSetScanResponseData(p0) => { p0.lemma_spec_buffer_len(); },
            Command::Disconnect(p0, p1) => {  },
            Command::SetEventMask(p0) => {  },
            _ => {},
        }
    }

    /// Encodes the command into a command packet.
    pub fn encode(&self) -> (r: Result<CommandPacket, Error>)
        ensures
            r is Ok <==> !(self is Unsupported),
            r matches Ok(p) ==> Ok::<Seq<u8>, Error>(p.spec_data()) == self.spec_encode() && p.wf(),
            r matches Err(e) ==> Err::<Seq<u8>, Error>(e) == self.spec_encode(),
    {
        proof {
            self.lemma_parameters_len();
        }
        let packet = CommandPacket::new(self.opcode());
        proof {
            CommandPacket::lemma_append_nothing(packet.spec_data());
        }
        match self {
            Command::LeAddDeviceToFilterAcceptList(p0) => packet.encode(p0),
            Command::LeClearFilterAcceptList => Ok(packet),
            Command::LeConnectionUpdate(p0) => packet.encode(p0),
            Command::LeCreateConnection(p0) => packet.encode(p0),
            Command::LeRand => Ok(packet),
            Command::LeReadAdvertisingChannelTxPower => Ok(packet),
            Command::LeReadBufferSize => Ok(packet),
            Command::LeReadFilterAcceptListSize => Ok(packet),
            Command::LeReadLocalSupportedFeaturesPage0 => Ok(packet),
            Command::LeReadSupportedStates => Ok(packet),
            Command::LeRemoveDeviceFromFilterAcceptList(p0) => packet.encode(p0),
            Command::LeSetEventMask(p0) => packet.encode(p0),
            Command::LeSetAdvertisingEnable(p0) => packet.encode(p0),
            Command::LeSetAdvertisingData(p0) => packet.encode(p0),
            Command::LeSetAdvertisingParameters(p0) => packet.encode(p0),
            Command::LeSetRandomAddress(p0) => packet.encode(p0),
            Command::LeSetScanEnable(p0, p1) => {
                let ghost header = packet.spec_data();
                match packet.encode(p0) {
                    Ok(first) => {
                        let r = first.encode(p1);
                        proof {
                            let a = header.update(3, (header[3] + p0.spec_encode().len()) as u8) + p0.spec_encode();
                            assert(a.update(3, (a[3] + p1.spec_encode().len()) as u8) + p1.spec_encode() =~= header.update(3, (header[3] + (p0.spec_encode() + p1.spec_encode()).len()) as u8) + (p0.spec_encode() + p1.spec_encode()));
                        }
                        r
                    },
                    Err(e) => Err(e),
                }
            },
            Command::LeSetScanParameters(p0) => packet.encode(p0),
            Command::LeSetScanResponseData(p0) => packet.encode(p0),
            Command::Disconnect(p0, p1) => {
                let ghost header = packet.spec_data();
                match packet.encode(p0) {
                    Ok(first) => {
                        let r = first.encode(p1);
                        proof {
                            let a = header.update(3, (header[3] + p0.spec_encode().len()) as u8) + p0.spec_encode();
                            assert(a.update(3, (a[3] + p1.spec_encode().len()) as u8) + p1.spec_encode() =~= header.update(3, (header[3] + (p0.spec_encode() + p1.spec_encode()).len()) as u8) + (p0.spec_encode() + p1.spec_encode()));
                        }
                        r
                    },
                    Err(e) => Err(e),
                }
            },
            Command::Nop => Ok(packet),
            Command::ReadBdAddr => Ok(packet),
            Command::ReadBufferSize => Ok(packet),
            Command::ReadLocalSupportedCommands => Ok(packet),
            Command::ReadLocalSupportedFeatures => Ok(packet),
            Command::Reset => Ok(packet),
            Command::SetEventMask(p0) => packet.encode(p0),
            Command::Unsupported(v) => Err(Error::InvalidCommand(*v)),
        }
    }

    /// The command of an opcode and its parameters, or `None` where the parameters are not valid
    /// for it; the parameters of commands that take none are ignored.
    pub open spec fn spec_from_parameters(op: CommandOpCode, p: Seq<u8>) -> Option<Command> {
        match op {
            CommandOpCode::LeAddDeviceToFilterAcceptList => match LeFilterAcceptListAddress::spec_parse(p) {
                Some(v) => Some(Command::LeAddDeviceToFilterAcceptList(v)),
                None => None,
            },
            CommandOpCode::LeClearFilterAcceptList => Some(Command::LeClearFilterAcceptList),
            CommandOpCode::LeConnectionUpdate => match ConnectionUpdateParameters::spec_parse(p) {
                Some(v) => Some(Command::LeConnectionUpdate(v)),
                None => None,
            },
            CommandOpCode::LeCreateConnection => match ConnectionParameters::spec_parse(p) {
                Some(v) => Some(Command::LeCreateConnection(v)),
                None => None,
            },
            CommandOpCode::LeRand => Some(Command::LeRand),
            CommandOpCode::LeReadAdvertisingChannelTxPower => Some(Command::LeReadAdvertisingChannelTxPower),
            CommandOpCode::LeReadBufferSize => Some(Command::LeReadBufferSize),
            CommandOpCode::LeReadFilterAcceptListSize => Some(Command::LeReadFilterAcceptListSize),
            CommandOpCode::LeReadLocalSupportedFeaturesPage0 => Some(Command::LeReadLocalSupportedFeaturesPage0),
            CommandOpCode::LeReadSupportedStates => Some(Command::LeReadSupportedStates),
            CommandOpCode::LeRemoveDeviceFromFilterAcceptList => match LeFilterAcceptListAddress::spec_parse(p) {
                Some(v) => Some(Command::LeRemoveDeviceFromFilterAcceptList(v)),
                None => None,
            },
            CommandOpCode::LeSetEventMask => match LeEventMask::spec_parse(p) {
                Some(v) => Some(Command::LeSetEventMask(v)),
                None => None,
            },
            CommandOpCode::LeSetAdvertisingEnable => if p.len() == 1 && AdvertisingEnable::spec_try_from_u8(p[0]) is Ok {
                Some(Command::LeSetAdvertisingEnable(AdvertisingEnable::spec_try_from_u8(p[0])->Ok_0))
            } else {
                None
            },
            CommandOpCode::LeSetAdvertisingData => match AdvertisingData::spec_parse(p) {
                Some(v) => Some(Command::LeSetAdvertisingData(v)),
                None => None,
            },
            CommandOpCode::LeSetAdvertisingParameters => match AdvertisingParameters::spec_parse(p) {
                Some(v) => Some(Command::LeSetAdvertisingParameters(v)),
                None => None,
            },
            CommandOpCode::LeSetRandomAddress => if p.len() == 6 && RandomStaticDeviceAddress::spec_try_new(p) is Ok {
                Some(Command::LeSetRandomAddress(RandomStaticDeviceAddress::spec_try_new(p)->Ok_0))
            } else {
                None
            },
            CommandOpCode::LeSetScanEnable => if p.len() == 2 && ScanEnable::spec_try_from_u8(p[0]) is Ok && FilterDuplicates::spec_try_from_u8(p[1]) is Ok {
                Some(Command::LeSetScanEnable(ScanEnable::spec_try_from_u8(p[0])->Ok_0, FilterDuplicates::spec_try_from_u8(p[1])->Ok_0))
            } else {
                None
            },
            CommandOpCode::LeSetScanParameters => match ScanParameters::spec_parse(p) {
                Some(v) => Some(Command::LeSetScanParameters(v)),
                None => None,
            },
            CommandOpCode::LeSetScanResponseData => match ScanResponseData::spec_parse(p) {
                Some(v) => Some(Command::LeSetScanResponseData(v)),
                None => None,
            },
            CommandOpCode::Disconnect => if p.len() == 3 && ConnectionHandle::spec_try_new(spec_u16_from_le(p[0], p[1])) is Ok && Reason::spec_try_from_u8(p[2]) is Ok {
                Some(Command::Disconnect(ConnectionHandle::spec_try_new(spec_u16_from_le(p[0], p[1]))->Ok_0, Reason::spec_try_from_u8(p[2])->Ok_0))
            } else {
                None
            },
            CommandOpCode::Nop => Some(Command::Nop),
            CommandOpCode::ReadBdAddr => Some(Command::ReadBdAddr),
            CommandOpCode::ReadBufferSize => Some(Command::ReadBufferSize),
            CommandOpCode::ReadLocalSupportedCommands => Some(Command::ReadLocalSupportedCommands),
            CommandOpCode::ReadLocalSupportedFeatures => Some(Command::ReadLocalSupportedFeatures),
            CommandOpCode::Reset => Some(Command::Reset),
            CommandOpCode::SetEventMask => match EventMask::spec_parse(p) {
                Some(v) => Some(Command::SetEventMask(v)),
                None => None,
            },
            CommandOpCode::Unsupported(v) => Some(Command::Unsupported(v)),
        }
    }

    /// Builds the command of an opcode from its parameters.
    pub fn from_parameters(op: CommandOpCode, p: &[u8]) -> (r: Option<Command>)
        ensures
            r == Command::spec_from_parameters(op, p@),
    {
        match op {
            CommandOpCode::LeAddDeviceToFilterAcceptList => match LeFilterAcceptListAddress::parse(p) {
                Some(v) => Some(Command::LeAddDeviceToFilterAcceptList(v)),
                None => None,
            },
            CommandOpCode::LeClearFilterAcceptList => Some(Command::LeClearFilterAcceptList),
            CommandOpCode::LeConnectionUpdate => match ConnectionUpdateParameters::parse(p) {
                Some(v) => Some(Command::LeConnectionUpdate(v)),
                None => None,
            },
            CommandOpCode::LeCreateConnection => match ConnectionParameters::parse(p) {
                Some(v) => Some(Command::LeCreateConnection(v)),
                None => None,
            },
            CommandOpCode::LeRand => Some(Command::LeRand),
            CommandOpCode::LeReadAdvertisingChannelTxPower => Some(Command::LeReadAdvertisingChannelTxPower),
            CommandOpCode::LeReadBufferSize => Some(Command::LeReadBufferSize),
            CommandOpCode::LeReadFilterAcceptListSize => Some(Command::LeReadFilterAcceptListSize),
            CommandOpCode::LeReadLocalSupportedFeaturesPage0 => Some(Command::LeReadLocalSupportedFeaturesPage0),
            CommandOpCode::LeReadSupportedStates => Some(Command::LeReadSupportedStates),
            CommandOpCode::LeRemoveDeviceFromFilterAcceptList => match LeFilterAcceptListAddress::parse(p) {
                Some(v) => Some(Command::LeRemoveDeviceFromFilterAcceptList(v)),
                None => None,
            },
            CommandOpCode::LeSetEventMask => match LeEventMask::parse(p) {
                Some(v) => Some(Command::LeSetEventMask(v)),
                None => None,
            },
            CommandOpCode::LeSetAdvertisingEnable => {
                if p.len() != 1 {
                    return None;
                }
                match AdvertisingEnable::try_from_u8(p[0]) {
                    Ok(v) => Some(Command::LeSetAdvertisingEnable(v)),
                    Err(_) => None,
                }
            },
            CommandOpCode::LeSetAdvertisingData => match AdvertisingData::parse(p) {
                Some(v) => Some(Command::LeSetAdvertisingData(v)),
                None => None,
            },
            CommandOpCode::LeSetAdvertisingParameters => match AdvertisingParameters::parse(p) {
                Some(v) => Some(Command::LeSetAdvertisingParameters(v)),
                None => None,
            },
            CommandOpCode::LeSetRandomAddress => {
                if p.len() != 6 {
                    return None;
                }
                let bytes = read_array6(p, 0);
                assert(bytes@ =~= p@);
                match RandomStaticDeviceAddress::try_new(bytes) {
                    Ok(a) => Some(Command::LeSetRandomAddress(a)),
                    Err(_) => None,
                }
            },
            CommandOpCode::LeSetScanEnable => {
                if p.len() != 2 {
                    return None;
                }
                match (ScanEnable::try_from_u8(p[0]), FilterDuplicates::try_from_u8(p[1])) {
                    (Ok(e), Ok(f)) => Some(Command::LeSetScanEnable(e, f)),
                    _ => None,
                }
            },
            CommandOpCode::LeSetScanParameters => match ScanParameters::parse(p) {
                Some(v) => Some(Command::LeSetScanParameters(v)),
                None => None,
            },
            CommandOpCode::LeSetScanResponseData => match ScanResponseData::parse(p) {
                Some(v) => Some(Command::LeSetScanResponseData(v)),
                None => None,
            },
            CommandOpCode::Disconnect => {
                if p.len() != 3 {
                    return None;
                }
                match (ConnectionHandle::try_new(read_u16_le(p, 0)), Reason::try_from_u8(p[2])) {
                    (Ok(h), Ok(r)) => Some(Command::Disconnect(h, r)),
                    _ => None,
                }
            },
            CommandOpCode::Nop => Some(Command::Nop),
            CommandOpCode::ReadBdAddr => Some(Command::ReadBdAddr),
            CommandOpCode::ReadBufferSize => Some(Command::ReadBufferSize),
            CommandOpCode::ReadLocalSupportedCommands => Some(Command::ReadLocalSupportedCommands),
            CommandOpCode::ReadLocalSupportedFeatures => Some(Command::ReadLocalSupportedFeatures),
            CommandOpCode::Reset => Some(Command::Reset),
            CommandOpCode::SetEventMask => match EventMask::parse(p) {
                Some(v) => Some(Command::SetEventMask(v)),
                None => None,
            },
            CommandOpCode::Unsupported(v) => Some(Command::Unsupported(v)),
        }
    }

    /// Parsing the parameters of a well-formed supported command gives it back.
    pub proof fn lemma_from_parameters(self)
        requires
            self.wf(),
            !(self is Unsupported),
        ensures
            Command::spec_from_parameters(self.spec_opcode(), self.spec_parameters()) == Some(self),
    {
        match self {
            Command::LeAddDeviceToFilterAcceptList(p0) => p0.lemma_parse_encode(),
            Command::LeConnectionUpdate(p0) => p0.lemma_parse_encode(),
            Command::LeCreateConnection(p0) => p0.lemma_parse_encode(),
            Command::LeRemoveDeviceFromFilterAcceptList(p0) => p0.lemma_parse_encode(),
            Command::LeSetEventMask(p0) => p0.lemma_parse_encode(),
            Command::LeSetAdvertisingEnable(p0) => p0.lemma_try_from_to_u8(),
            Command::LeSetAdvertisingData(p0) => p0.lemma_parse_encode(),
            Command::LeSetAdvertisingParameters(p0) => p0.lemma_parse_encode(),
            Command::LeSetRandomAddress(p0) => {
                p0.lemma_try_new_spec_value();
                DeviceAddress::Random(RandomAddress::Static(p0)).lemma_spec_value_len();
            },
            Command::LeSetScanEnable(p0, p1) => {
                p0.lemma_try_from_to_u8();
                p1.lemma_try_from_to_u8();
            },
            Command::LeSetScanParameters(p0) => p0.lemma_parse_encode(),
            Command::LeSetScanResponseData(p0) => p0.lemma_parse_encode(),
            Command::Disconnect(p0, p1) => {
                let p = self.spec_parameters();
                lemma_u16_le_roundtrip(p0.spec_value());
                p0.lemma_try_new_spec_value();
                p1.lemma_try_from_to_u8();
                assert(p[0] == spec_u16_le_bytes(p0.spec_value())[0]);
                assert(p[1] == spec_u16_le_bytes(p0.spec_value())[1]);
                assert(p[2] == p1.spec_to_u8());
            },
            Command::SetEventMask(p0) => p0.lemma_parse_encode(),
            _ => {},
        }
    }

    /// The outcome of parsing a command packet after its packet type: the opcode, the parameter
    /// total length and that many parameter bytes, which must be valid for the opcode. The result
    /// holds the number of bytes read and the command.
    pub open spec fn spec_parse(s: Seq<u8>) -> Option<(nat, Command)> {
        if s.len() < 3 || s.len() < 3 + s[2] {
            None
        } else {
            let op = CommandOpCode::spec_from_u16(spec_u16_from_le(s[0], s[1]));
            match Command::spec_from_parameters(op, s.subrange(3, 3 + s[2])) {
                Some(c) => Some(((3 + s[2]) as nat, c)),
                None => None,
            }
        }
    }

    /// Parses a command packet after its packet type.
    pub fn parse(input: &[u8]) -> (r: Option<(usize, Command)>)
        ensures
            r matches Some((n, c)) ==> Command::spec_parse(input@) == Some((n as nat, c)),
            r is None ==> Command::spec_parse(input@) is None,
    {
        if input.len() < 3 {
            return None;
        }
        let len = input[2] as usize;
        if input.len() - 3 < len {
            return None;
        }
        let op = CommandOpCode::from_u16(read_u16_le(input, 0));
        let parameters = vstd::slice::slice_subrange(input, 3, 3 + len);
        match Command::from_parameters(op, parameters) {
            Some(c) => Some((3 + len, c)),
            None => None,
        }
    }

    /// Parsing the packet of a well-formed supported command, after its packet type, reads the
    /// whole packet and gives the command back.
    pub proof fn lemma_parse_encode(self)
        requires
            self.wf(),
            !(self is Unsupported),
        ensures
            Command::spec_parse(self.spec_packet().drop_first()) == Some(
                ((self.spec_packet().len() - 1) as nat, self),
            ),
    {
        self.lemma_parameters_len();
        self.lemma_from_parameters();
        let op = self.spec_opcode();
        let p = self.spec_parameters();
        let packet = self.spec_packet();
        let s = packet.drop_first();
        lemma_u16_le_roundtrip(op.spec_to_u16());
        op.lemma_from_to_u16();
        assert(packet =~= seq![0x01u8] + spec_u16_le_bytes(op.spec_to_u16()) + seq![p.len() as u8] + p);
        assert(s[0] == spec_u16_le_bytes(op.spec_to_u16())[0]);
        assert(s[1] == spec_u16_le_bytes(op.spec_to_u16())[1]);
        assert(s[2] == p.len());
        assert(s.subrange(3, 3 + s[2]) =~= p);
    }
}

impl Command {
    /// The packet of a command: the command packet type 0x01, the opcode little-endian, the number
    /// of parameter bytes, then the parameters.
    pub proof fn lemma_packet_layout(self)
        ensures
            ({
                let packet = self.spec_packet();
                let p = self.spec_parameters();
                &&& packet.len() == 4 + p.len()
                &&& packet[0] == 0x01
                &&& packet[1] as int + 256 * (packet[2] as int) == self.spec_opcode().spec_to_u16() as int
                &&& packet[3] as int == p.len()
                &&& packet.subrange(4, packet.len() as int) == p
            }),
    {
        self.lemma_parameters_len();
        let v = self.spec_opcode().spec_to_u16();
        let b = spec_u16_le_bytes(v);
        lemma_u16_le_roundtrip(v);
        crate::bytes::lemma_u16_from_le_value(b[0], b[1]);
        let packet = self.spec_packet();
        let p = self.spec_parameters();
        assert(packet =~= seq![0x01u8, b[0], b[1], p.len() as u8] + p);
        assert(packet.subrange(4, packet.len() as int) =~= p);
    }
}


} // verus!
