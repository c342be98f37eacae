//! HCI packets, by their packet type.
use vstd::prelude::*;

use crate::acl_data::AclData;
use crate::command::Command;
use crate::error::Error;
use crate::event::Event;

verus! {

/// HCI packet type.
///
/// HCI does not tell the five HCI packet types apart; where they share a physical interface, each
/// packet starts with this packet type.
///
/// See Core Specification 6.0, Vol. 4, Part A, 2.
#[derive(Debug, Clone, Copy, PartialEq, Eq, Structural)]
#[non_exhaustive]
pub enum PacketType {
    Command,
    AclData,
    SynchronousData,
    Event,
    IsoData,
}

impl PacketType {
    /// The value of this variant in HCI packets.
    pub open spec fn spec_to_u8(self) -> u8 {
        match self {
            PacketType::Command => 0x01,
            PacketType::AclData => 0x02,
            PacketType::SynchronousData => 0x03,
            PacketType::Event => 0x04,
            PacketType::IsoData => 0x05,
        }
    }

    /// The values that name a variant.
    pub open spec fn spec_is_valid_u8(v: u8) -> bool {
        v == 0x01 || v == 0x02 || v == 0x03 || v == 0x04 || v == 0x05
    }

    /// The variant named by `v`, or the error reporting that `v` names none.
    pub open spec fn spec_try_from_u8(v: u8) -> Result<PacketType, Error> {
        if PacketType::spec_is_valid_u8(v) {
            Ok(choose|e: PacketType| e.spec_to_u8() == v)
        } else {
            Err(Error::InvalidPacketType(v))
        }
    }

    /// The value of this variant in HCI packets.
    pub fn to_u8(self) -> (r: u8)
        ensures
            r == self.spec_to_u8(),
    {
        match self {
            PacketType::Command => 0x01,
            PacketType::AclData => 0x02,
            PacketType::SynchronousData => 0x03,
            PacketType::Event => 0x04,
            PacketType::IsoData => 0x05,
        }
    }

    /// Converts a value of an HCI packet into a variant.
    pub fn try_from_u8(v: u8) -> (r: Result<PacketType, Error>)
        ensures
            r == PacketType::spec_try_from_u8(v),
            r is Ok <==> PacketType::spec_is_valid_u8(v),
            r matches Ok(e) ==> e.spec_to_u8() == v,
            r is Err ==> r == Err::<PacketType, Error>(Error::InvalidPacketType(v)),
    {
        let r = match v {
            0x01 => Ok(PacketType::Command),
            0x02 => Ok(PacketType::AclData),
            0x03 => Ok(PacketType::SynchronousData),
            0x04 => Ok(PacketType::Event),
            0x05 => Ok(PacketType::IsoData),
            _ => Err(Error::InvalidPacketType(v)),
        };
        proof {
            if let Ok(e) = r {
                PacketType::lemma_to_u8_injective(e, choose|d: PacketType| d.spec_to_u8() == v);
            }
        }
        r
    }

    /// Distinct variants have distinct values.
    pub proof fn lemma_to_u8_injective(a: PacketType, b: PacketType)
        ensures
            a.spec_to_u8() == b.spec_to_u8() ==> a == b,
    {
    }

    /// A value that names a variant names a variant with that value.
    pub proof fn lemma_try_from_u8_to_u8(v: u8)
        requires
            PacketType::spec_is_valid_u8(v),
        ensures
            PacketType::spec_try_from_u8(v) is Ok,
            (PacketType::spec_try_from_u8(v)->Ok_0).spec_to_u8() == v,
    {
        if v == 0x01 {
            assert(PacketType::Command.spec_to_u8() == v);
        } else if v == 0x02 {
            assert(PacketType::AclData.spec_to_u8() == v);
        } else if v == 0x03 {
            assert(PacketType::SynchronousData.spec_to_u8() == v);
        } else if v == 0x04 {
            assert(PacketType::Event.spec_to_u8() == v);
        } else if v == 0x05 {
            assert(PacketType::IsoData.spec_to_u8() == v);
        }
    }

    /// Converting the value of a variant gives the variant back.
    pub proof fn lemma_try_from_to_u8(self)
        ensures
            PacketType::spec_try_from_u8(self.spec_to_u8()) == Ok::<PacketType, Error>(self),
    {
        PacketType::lemma_to_u8_injective(self, choose|d: PacketType| d.spec_to_u8() == self.spec_to_u8());
    }
}

impl TryFrom<u8> for PacketType {
    type Error = Error;

    fn try_from(value: u8) -> Result<PacketType, Error> {
        PacketType::try_from_u8(value)
    }
}

impl vstd::std_specs::convert::TryFromSpecImpl<u8> for PacketType {
    open spec fn obeys_try_from_spec() -> bool {
        true
    }

    open spec fn try_from_spec(v: u8) -> Result<PacketType, Error> {
        PacketType::spec_try_from_u8(v)
    }
}

impl From<PacketType> for u8 {
    fn from(value: PacketType) -> u8 {
        value.to_u8()
    }
}

impl vstd::std_specs::convert::FromSpecImpl<PacketType> for u8 {
    open spec fn obeys_from_spec() -> bool {
        true
    }

    open spec fn from_spec(v: PacketType) -> u8 {
        v.spec_to_u8()
    }
}


/// An HCI packet read by the Host.
#[derive(Debug, Clone, Copy, PartialEq, Eq)]
pub enum Packet {
    Command(Command),
    Event(Event),
    AclData(AclData),
}

impl Packet {
    /// Whether the packet parser can handle `s`: it reads no synchronous or isochronous data
    /// packet, and no event holding valid advertising reports too long to be stored.
    pub open spec fn spec_is_handled(s: Seq<u8>) -> bool {
        &&& !(s.len() >= 1 && (s[0] == 3 || s[0] == 5))
        &&& !(s.len() >= 1 && s[0] == 4 && Event::spec_overflows(s.drop_first()))
    }

    /// The outcome of parsing a packet at the start of `s`: the packet type, then a command, an
    /// event or ACL data. The result holds the number of bytes read and the packet.
    pub open spec fn spec_parse(s: Seq<u8>) -> Option<(nat, Packet)> {
        if s.len() < 1 {
            None
        } else if s[0] == 1 {
            match Command::spec_parse(s.drop_first()) {
                Some((n, c)) => Some(((n + 1) as nat, Packet::Command(c))),
                None => None,
            }
        } else if s[0] == 4 {
            match Event::spec_parse(s.drop_first()) {
                Some((n, e)) => Some(((n + 1) as nat, Packet::Event(e))),
                None => None,
            }
        } else if s[0] == 2 {
            match AclData::spec_parse(s.drop_first()) {
                Some((n, a)) => Some(((n + 1) as nat, Packet::AclData(a))),
                None => None,
            }
        } else {
            None
        }
    }

    /// Parses a packet at the start of `input`.
    pub fn parse(input: &[u8]) -> (r: Option<(usize, Packet)>)
        requires
            Packet::spec_is_handled(input@),
        ensures
            r matches Some((n, p)) ==> Packet::spec_parse(input@) == Some((n as nat, p)) && n
                <= input@.len(),
            r is None ==> Packet::spec_parse(input@) is None,
    {
        if input.len() < 1 {
            return None;
        }
        let rest = vstd::slice::slice_subrange(input, 1, input.len());
        assert(rest@ =~= input@.drop_first());
        let packet_type = match PacketType::try_from_u8(input[0]) {
            Ok(t) => t,
            Err(_) => return None,
        };
        match packet_type {
            PacketType::Command => match Command::parse(rest) {
                Some((n, c)) => Some((n + 1, Packet::Command(c))),
                None => None,
            },
            PacketType::Event => match Event::parse(rest) {
                Some((n, e)) => Some((n + 1, Packet::Event(e))),
                None => None,
            },
            PacketType::AclData => match AclData::parse(rest) {
                Some((n, a)) => Some((n + 1, Packet::AclData(a))),
                None => None,
            },
            _ => None,
        }
    }
}

impl PacketType {
    /// The value of each variant in HCI packets, and the variant each value names.
    pub proof fn lemma_values()
        ensures
            PacketType::Command.spec_to_u8() == 0x01,
            PacketType::spec_try_from_u8(0x01) == Ok::<PacketType, Error>(PacketType::Command),
            PacketType::AclData.spec_to_u8() == 0x02,
            PacketType::spec_try_from_u8(0x02) == Ok::<PacketType, Error>(PacketType::AclData),
            PacketType::SynchronousData.spec_to_u8() == 0x03,
            PacketType::spec_try_from_u8(0x03) == Ok::<PacketType, Error>(PacketType::SynchronousData),
            PacketType::Event.spec_to_u8() == 0x04,
            PacketType::spec_try_from_u8(0x04) == Ok::<PacketType, Error>(PacketType::Event),
            PacketType::IsoData.spec_to_u8() == 0x05,
            PacketType::spec_try_from_u8(0x05) == Ok::<PacketType, Error>(PacketType::IsoData),
    {
        PacketType::Command.lemma_try_from_to_u8();
        PacketType::AclData.lemma_try_from_to_u8();
        PacketType::SynchronousData.lemma_try_from_to_u8();
        PacketType::Event.lemma_try_from_to_u8();
        PacketType::IsoData.lemma_try_from_to_u8();
    }
}

} // verus!
