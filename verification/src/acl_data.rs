//! ACL data packets.
use vstd::prelude::*;

use crate::bytes::{lemma_array27_of_bytes, read_u16_le, spec_array27, spec_u16_from_le};
use crate::connection::connection_handle::ConnectionHandle;
use crate::error::Error;

verus! {

/// The largest number of data bytes in an ACL data packet.
pub const ACL_DATA_MAX_SIZE: usize = 27;

/// Packet boundary flag of an ACL data packet.
///
/// See Core Specification 6.0, Vol. 4, Part E, 5.4.2.
#[derive(Debug, Clone, Copy, PartialEq, Eq, Structural)]
#[non_exhaustive]
pub enum PacketBoundaryFlag {
    /// First non-automatically-flushable packet of a higher layer message, from Host to Controller.
    FirstNonAutomaticallyFlushablePacket,
    /// Continuing fragment of a higher layer message.
    ContinuingFragment,
    /// First automatically flushable packet of a higher layer message.
    FirstAutomaticallyFlushablePacket,
}

impl PacketBoundaryFlag {
    /// The value of this variant in HCI packets.
    pub open spec fn spec_to_u8(self) -> u8 {
        match self {
            PacketBoundaryFlag::FirstNonAutomaticallyFlushablePacket => 0x00,
            PacketBoundaryFlag::ContinuingFragment => 0x01,
            PacketBoundaryFlag::FirstAutomaticallyFlushablePacket => 0x02,
        }
    }

    /// The values that name a variant.
    pub open spec fn spec_is_valid_u8(v: u8) -> bool {
        v <= 0x02
    }

    /// The variant named by `v`, or the error reporting that `v` names none.
    pub open spec fn spec_try_from_u8(v: u8) -> Result<PacketBoundaryFlag, Error> {
        if PacketBoundaryFlag::spec_is_valid_u8(v) {
            Ok(choose|e: PacketBoundaryFlag| e.spec_to_u8() == v)
        } else {
            Err(Error::InvalidPacketBoundaryFlag(v))
        }
    }

    /// The value of this variant in HCI packets.
    pub fn to_u8(self) -> (r: u8)
        ensures
            r == self.spec_to_u8(),
    {
        match self {
            PacketBoundaryFlag::FirstNonAutomaticallyFlushablePacket => 0x00,
            PacketBoundaryFlag::ContinuingFragment => 0x01,
            PacketBoundaryFlag::FirstAutomaticallyFlushablePacket => 0x02,
        }
    }

    /// Converts a value of an HCI packet into a variant.
    pub fn try_from_u8(v: u8) -> (r: Result<PacketBoundaryFlag, Error>)
        ensures
            r == PacketBoundaryFlag::spec_try_from_u8(v),
            r is Ok <==> PacketBoundaryFlag::spec_is_valid_u8(v),
            r matches Ok(e) ==> e.spec_to_u8() == v,
            r is Err ==> r == Err::<PacketBoundaryFlag, Error>(Error::InvalidPacketBoundaryFlag(v)),
    {
        let r = match v {
            0x00 => Ok(PacketBoundaryFlag::FirstNonAutomaticallyFlushablePacket),
            0x01 => Ok(PacketBoundaryFlag::ContinuingFragment),
            0x02 => Ok(PacketBoundaryFlag::FirstAutomaticallyFlushablePacket),
            _ => Err(Error::InvalidPacketBoundaryFlag(v)),
        };
        proof {
            if let Ok(e) = r {
                PacketBoundaryFlag::lemma_to_u8_injective(e, choose|d: PacketBoundaryFlag| d.spec_to_u8() == v);
            }
        }
        r
    }

    /// Distinct variants have distinct values.
    pub proof fn lemma_to_u8_injective(a: PacketBoundaryFlag, b: PacketBoundaryFlag)
        ensures
            a.spec_to_u8() == b.spec_to_u8() ==> a == b,
    {
    }

    /// A value that names a variant names a variant with that value.
    pub proof fn lemma_try_from_u8_to_u8(v: u8)
        requires
            PacketBoundaryFlag::spec_is_valid_u8(v),
        ensures
            PacketBoundaryFlag::spec_try_from_u8(v) is Ok,
            (PacketBoundaryFlag::spec_try_from_u8(v)->Ok_0).spec_to_u8() == v,
    {
        if v == 0x00 {
            assert(PacketBoundaryFlag::FirstNonAutomaticallyFlushablePacket.spec_to_u8() == v);
        } else if v == 0x01 {
            assert(PacketBoundaryFlag::ContinuingFragment.spec_to_u8() == v);
        } else if v == 0x02 {
            assert(PacketBoundaryFlag::FirstAutomaticallyFlushablePacket.spec_to_u8() == v);
        }
    }

    /// Converting the value of a variant gives the variant back.
    pub proof fn lemma_try_from_to_u8(self)
        ensures
            PacketBoundaryFlag::spec_try_from_u8(self.spec_to_u8()) == Ok::<PacketBoundaryFlag, Error>(self),
    {
        PacketBoundaryFlag::lemma_to_u8_injective(self, choose|d: PacketBoundaryFlag| d.spec_to_u8() == self.spec_to_u8());
    }
}

impl TryFrom<u8> for PacketBoundaryFlag {
    type Error = Error;

    fn try_from(value: u8) -> Result<PacketBoundaryFlag, Error> {
        PacketBoundaryFlag::try_from_u8(value)
    }
}

impl vstd::std_specs::convert::TryFromSpecImpl<u8> for PacketBoundaryFlag {
    open spec fn obeys_try_from_spec() -> bool {
        true
    }

    open spec fn try_from_spec(v: u8) -> Result<PacketBoundaryFlag, Error> {
        PacketBoundaryFlag::spec_try_from_u8(v)
    }
}

/// Broadcast flag of an ACL data packet.
///
/// See Core Specification 6.0, Vol. 4, Part E, 5.4.2.
#[derive(Debug, Clone, Copy, PartialEq, Eq, Structural)]
#[non_exhaustive]
pub enum BroadcastFlag {
    /// Point-to-point (ACL-U or LE-U).
    PointToPoint,
    /// BR/EDR broadcast (APB-U).
    BrEdrBroadcast,
}

impl BroadcastFlag {
    /// The value of this variant in HCI packets.
    pub open spec fn spec_to_u8(self) -> u8 {
        match self {
            BroadcastFlag::PointToPoint => 0x00,
            BroadcastFlag::BrEdrBroadcast => 0x01,
        }
    }

    /// The values that name a variant.
    pub open spec fn spec_is_valid_u8(v: u8) -> bool {
        v <= 0x01
    }

    /// The variant named by `v`, or the error reporting that `v` names none.
    pub open spec fn spec_try_from_u8(v: u8) -> Result<BroadcastFlag, Error> {
        if BroadcastFlag::spec_is_valid_u8(v) {
            Ok(choose|e: BroadcastFlag| e.spec_to_u8() == v)
        } else {
            Err(Error::InvalidBroadcastFlag(v))
        }
    }

    /// The value of this variant in HCI packets.
    pub fn to_u8(self) -> (r: u8)
        ensures
            r == self.spec_to_u8(),
    {
        match self {
            BroadcastFlag::PointToPoint => 0x00,
            BroadcastFlag::BrEdrBroadcast => 0x01,
        }
    }

    /// Converts a value of an HCI packet into a variant.
    pub fn try_from_u8(v: u8) -> (r: Result<BroadcastFlag, Error>)
        ensures
            r == BroadcastFlag::spec_try_from_u8(v),
            r is Ok <==> BroadcastFlag::spec_is_valid_u8(v),
            r matches Ok(e) ==> e.spec_to_u8() == v,
            r is Err ==> r == Err::<BroadcastFlag, Error>(Error::InvalidBroadcastFlag(v)),
    {
        let r = match v {
            0x00 => Ok(BroadcastFlag::PointToPoint),
            0x01 => Ok(BroadcastFlag::BrEdrBroadcast),
            _ => Err(Error::InvalidBroadcastFlag(v)),
        };
        proof {
            if let Ok(e) = r {
                BroadcastFlag::lemma_to_u8_injective(e, choose|d: BroadcastFlag| d.spec_to_u8() == v);
            }
        }
        r
    }

    /// Distinct variants have distinct values.
    pub proof fn lemma_to_u8_injective(a: BroadcastFlag, b: BroadcastFlag)
        ensures
            a.spec_to_u8() == b.spec_to_u8() ==> a == b,
    {
    }

    /// A value that names a variant names a variant with that value.
    pub proof fn lemma_try_from_u8_to_u8(v: u8)
        requires
            BroadcastFlag::spec_is_valid_u8(v),
        ensures
            BroadcastFlag::spec_try_from_u8(v) is Ok,
            (BroadcastFlag::spec_try_from_u8(v)->Ok_0).spec_to_u8() == v,
    {
        if v == 0x00 {
            assert(BroadcastFlag::PointToPoint.spec_to_u8() == v);
        } else if v == 0x01 {
            assert(BroadcastFlag::BrEdrBroadcast.spec_to_u8() == v);
        }
    }

    /// Converting the value of a variant gives the variant back.
    pub proof fn lemma_try_from_to_u8(self)
        ensures
            BroadcastFlag::spec_try_from_u8(self.spec_to_u8()) == Ok::<BroadcastFlag, Error>(self),
    {
        BroadcastFlag::lemma_to_u8_injective(self, choose|d: BroadcastFlag| d.spec_to_u8() == self.spec_to_u8());
    }
}

impl TryFrom<u8> for BroadcastFlag {
    type Error = Error;

    fn try_from(value: u8) -> Result<BroadcastFlag, Error> {
        BroadcastFlag::try_from_u8(value)
    }
}

impl vstd::std_specs::convert::TryFromSpecImpl<u8> for BroadcastFlag {
    open spec fn obeys_try_from_spec() -> bool {
        true
    }

    open spec fn try_from_spec(v: u8) -> Result<BroadcastFlag, Error> {
        BroadcastFlag::spec_try_from_u8(v)
    }
}


/// ACL data packet: the connection handle, the flags and at most 27 data bytes.
///
/// See Core Specification 6.0, Vol. 4, Part E, 5.4.2.
#[derive(Debug, Clone, Copy, PartialEq, Eq)]
pub struct AclData {
    handle: ConnectionHandle,
    packet_boundary_flag: PacketBoundaryFlag,
    broadcast_flag: BroadcastFlag,
    data: [u8; 27],
    len: usize,
}

impl AclData {
    /// The connection handle.
    pub closed spec fn spec_handle(self) -> ConnectionHandle {
        self.handle
    }

    /// The packet boundary flag.
    pub closed spec fn spec_packet_boundary_flag(self) -> PacketBoundaryFlag {
        self.packet_boundary_flag
    }

    /// The broadcast flag.
    pub closed spec fn spec_broadcast_flag(self) -> BroadcastFlag {
        self.broadcast_flag
    }

    /// Well-formedness: the data fits.
    pub closed spec fn wf(self) -> bool {
        self.len <= ACL_DATA_MAX_SIZE
    }

    /// The data bytes.
    pub closed spec fn spec_data(self) -> Seq<u8> {
        self.data@.subrange(0, self.len as int)
    }

    /// The packet with the given fields, the unused bytes zero.
    pub closed spec fn spec_new(
        handle: ConnectionHandle,
        packet_boundary_flag: PacketBoundaryFlag,
        broadcast_flag: BroadcastFlag,
        data: Seq<u8>,
    ) -> AclData {
        AclData {
            handle,
            packet_boundary_flag,
            broadcast_flag,
            data: spec_array27(Seq::new(27, |i: int| if i < data.len() { data[i] } else { 0u8 })),
            len: data.len() as usize,
        }
    }

    /// The outcome of `try_new`: at most 27 data bytes.
    pub open spec fn spec_try_new(
        handle: ConnectionHandle,
        packet_boundary_flag: PacketBoundaryFlag,
        broadcast_flag: BroadcastFlag,
        data: Seq<u8>,
    ) -> Result<AclData, Error> {
        if data.len() <= ACL_DATA_MAX_SIZE {
            Ok(AclData::spec_new(handle, packet_boundary_flag, broadcast_flag, data))
        } else {
            Err(Error::DataWillNotFitAclDataPacket)
        }
    }

    /// Creates an ACL data packet, checking that the data fits.
    pub fn try_new(
        handle: ConnectionHandle,
        packet_boundary_flag: PacketBoundaryFlag,
        broadcast_flag: BroadcastFlag,
        data: &[u8],
    ) -> (r: Result<AclData, Error>)
        ensures
            r == AclData::spec_try_new(handle, packet_boundary_flag, broadcast_flag, data@),
            r matches Ok(p) ==> p.spec_data() == data@ && p.wf(),
    {
        if data.len() > ACL_DATA_MAX_SIZE {
            return Err(Error::DataWillNotFitAclDataPacket);
        }
        let mut buffer = [0u8; 27];
        let mut i: usize = 0;
        while i < data.len()
            invariant
                data@.len() <= 27,
                i <= data@.len(),
                buffer@.len() == 27,
                forall|j: int| 0 <= j < i ==> buffer@[j] == data@[j],
                forall|j: int| i <= j < 27 ==> buffer@[j] == 0,
            decreases data@.len() - i,
        {
            buffer[i] = data[i];
            i += 1;
        }
        let r = AclData { handle, packet_boundary_flag, broadcast_flag, data: buffer, len: data.len() };
        proof {
            assert(buffer@ =~= Seq::new(27, |i: int| if i < data@.len() { data@[i] } else { 0u8 }));
            lemma_array27_of_bytes(buffer);
            assert(r.spec_data() =~= data@);
        }
        Ok(r)
    }

    /// The connection handle.
    pub fn handle(&self) -> (r: ConnectionHandle)
        ensures
            r == self.spec_handle(),
    {
        self.handle
    }

    /// The packet boundary flag.
    pub fn packet_boundary_flag(&self) -> (r: PacketBoundaryFlag)
        ensures
            r == self.spec_packet_boundary_flag(),
    {
        self.packet_boundary_flag
    }

    /// The broadcast flag.
    pub fn broadcast_flag(&self) -> (r: BroadcastFlag)
        ensures
            r == self.spec_broadcast_flag(),
    {
        self.broadcast_flag
    }

    /// The data bytes.
    pub fn data(&self) -> (r: &[u8])
        requires
            self.wf(),
        ensures
            r@ == self.spec_data(),
    {
        vstd::slice::slice_subrange(self.data.as_slice(), 0, self.len)
    }

    /// The connection handle held by the low bits of the first header field.
    pub open spec fn spec_handle_bits(v: u16) -> u16 {
        v & 0x0EFF
    }

    /// The packet boundary flag bits of the first header field.
    pub open spec fn spec_packet_boundary_flag_bits(v: u16) -> u8 {
        ((v >> 12u16) & 0x0003) as u8
    }

    /// The broadcast flag bits of the first header field.
    pub open spec fn spec_broadcast_flag_bits(v: u16) -> u8 {
        (v >> 14u16) as u8
    }

    /// The outcome of parsing an ACL data packet after its packet type: the handle and flags,
    /// the data total length and that many data bytes, at most 27. The result holds the number of
    /// bytes read and the packet.
    pub open spec fn spec_parse(s: Seq<u8>) -> Option<(nat, AclData)> {
        if s.len() < 4 {
            None
        } else {
            let v = spec_u16_from_le(s[0], s[1]);
            let len = spec_u16_from_le(s[2], s[3]);
            let handle = ConnectionHandle::spec_try_new(AclData::spec_handle_bits(v));
            let pbf = PacketBoundaryFlag::spec_try_from_u8(AclData::spec_packet_boundary_flag_bits(v));
            let bf = BroadcastFlag::spec_try_from_u8(AclData::spec_broadcast_flag_bits(v));
            if handle is Ok && pbf is Ok && bf is Ok && s.len() >= 4 + len && len <= ACL_DATA_MAX_SIZE {
                Some(
                    (
                        (4 + len) as nat,
                        AclData::spec_new(handle->Ok_0, pbf->Ok_0, bf->Ok_0, s.subrange(4, 4 + len)),
                    ),
                )
            } else {
                None
            }
        }
    }

    /// Parses an ACL data packet after its packet type.
    pub fn parse(input: &[u8]) -> (r: Option<(usize, AclData)>)
        ensures
            r matches Some((n, p)) ==> AclData::spec_parse(input@) == Some((n as nat, p)) && p.wf(),
            r is None ==> AclData::spec_parse(input@) is None,
    {
        if input.len() < 4 {
            return None;
        }
        let v = read_u16_le(input, 0);
        let len = read_u16_le(input, 2) as usize;
        let handle = match ConnectionHandle::try_new(v & 0x0EFF) {
            Ok(h) => h,
            Err(_) => return None,
        };
        let pbf = match PacketBoundaryFlag::try_from_u8(((v >> 12u16) & 0x0003) as u8) {
            Ok(f) => f,
            Err(_) => return None,
        };
        let bf = match BroadcastFlag::try_from_u8(#[verifier::truncate] ((v >> 14u16) as u8)) {
            Ok(f) => f,
            Err(_) => return None,
        };
        if input.len() - 4 < len {
            return None;
        }
        let data = vstd::slice::slice_subrange(input, 4, 4 + len);
        match AclData::try_new(handle, pbf, bf, data) {
            Ok(p) => Some((4 + len, p)),
            Err(_) => None,
        }
    }
}

impl PacketBoundaryFlag {
    /// The value of each variant in HCI packets, and the variant each value names.
    pub proof fn lemma_values()
        ensures
            PacketBoundaryFlag::FirstNonAutomaticallyFlushablePacket.spec_to_u8() == 0x00,
            PacketBoundaryFlag::spec_try_from_u8(0x00) == Ok::<PacketBoundaryFlag, Error>(PacketBoundaryFlag::FirstNonAutomaticallyFlushablePacket),
            PacketBoundaryFlag::ContinuingFragment.spec_to_u8() == 0x01,
            PacketBoundaryFlag::spec_try_from_u8(0x01) == Ok::<PacketBoundaryFlag, Error>(PacketBoundaryFlag::ContinuingFragment),
            PacketBoundaryFlag::FirstAutomaticallyFlushablePacket.spec_to_u8() == 0x02,
            PacketBoundaryFlag::spec_try_from_u8(0x02) == Ok::<PacketBoundaryFlag, Error>(PacketBoundaryFlag::FirstAutomaticallyFlushablePacket),
    {
        PacketBoundaryFlag::FirstNonAutomaticallyFlushablePacket.lemma_try_from_to_u8();
        PacketBoundaryFlag::ContinuingFragment.lemma_try_from_to_u8();
        PacketBoundaryFlag::FirstAutomaticallyFlushablePacket.lemma_try_from_to_u8();
    }
}

impl BroadcastFlag {
    /// The value of each variant in HCI packets, and the variant each value names.
    pub proof fn lemma_values()
        ensures
            BroadcastFlag::PointToPoint.spec_to_u8() == 0x00,
            BroadcastFlag::spec_try_from_u8(0x00) == Ok::<BroadcastFlag, Error>(BroadcastFlag::PointToPoint),
            BroadcastFlag::BrEdrBroadcast.spec_to_u8() == 0x01,
            BroadcastFlag::spec_try_from_u8(0x01) == Ok::<BroadcastFlag, Error>(BroadcastFlag::BrEdrBroadcast),
    {
        BroadcastFlag::PointToPoint.lemma_try_from_to_u8();
        BroadcastFlag::BrEdrBroadcast.lemma_try_from_to_u8();
    }
}

} // verus!
