//! HCI LE event mask.
use vstd::prelude::*;

use crate::bytes::{
    lemma_u64_le_bytes_roundtrip, lemma_u64_le_roundtrip, push_u64_le, read_u64_le,
    spec_u64_from_le, spec_u64_le_bytes,
};
use crate::encode::EncodeToBuffer;

verus! {

/// HCI LE event mask.
///
/// See Core Specification 6.0, Vol. 4, Part E, 7.8.1.
#[derive(Debug, Clone, Copy, PartialEq, Eq, Structural)]
pub struct LeEventMask {
    bits: u64,
}

impl LeEventMask {
    /// Indicates to both of the Hosts forming the connection that a new connection has been created.
    pub fn le_connection_complete() -> (r: LeEventMask)
        ensures
            r.spec_bits() == 1u64 << 0u64,
    {
        LeEventMask { bits: 1u64 << 0u64 }
    }

    /// One or more Bluetooth devices have responded to an active scan or have broadcast advertisements that were received during a passive scan.
    pub fn le_advertising_report() -> (r: LeEventMask)
        ensures
            r.spec_bits() == 1u64 << 1u64,
    {
        LeEventMask { bits: 1u64 << 1u64 }
    }

    /// Indicates that the Connection Update procedure has completed.
    pub fn le_connection_update_complete() -> (r: LeEventMask)
        ensures
            r.spec_bits() == 1u64 << 2u64,
    {
        LeEventMask { bits: 1u64 << 2u64 }
    }

    /// Indicates the completion of the process of the Controller obtaining page 0 of the features used on the connection
    /// and the features supported by the remote Bluetooth device.
    pub fn le_read_remote_features_page_0_complete() -> (r: LeEventMask)
        ensures
            r.spec_bits() == 1u64 << 3u64,
    {
        LeEventMask { bits: 1u64 << 3u64 }
    }

    /// Indicates that the peer device, in the Central role, is attempting to encrypt or re-encrypt the link and is requesting
    /// the Long Term Key from the Host.
    pub fn le_long_term_key_request() -> (r: LeEventMask)
        ensures
            r.spec_bits() == 1u64 << 4u64,
    {
        LeEventMask { bits: 1u64 << 4u64 }
    }

    /// Indicates to the Central’s Host or the Peripheral’s Host that the remote device is requesting a change in the
    /// connection parameters using the Connection Update procedure.
    pub fn le_remote_connection_parameter_request() -> (r: LeEventMask)
        ensures
            r.spec_bits() == 1u64 << 5u64,
    {
        LeEventMask { bits: 1u64 << 5u64 }
    }

    /// Notifies the Host of a change to either the maximum LL Data PDU Payload length or the maximum transmission time
    /// of packets containing LL Data PDUs in either direction.
    pub fn le_data_length_change() -> (r: LeEventMask)
        ensures
            r.spec_bits() == 1u64 << 6u64,
    {
        LeEventMask { bits: 1u64 << 6u64 }
    }

    /// The local P-256 key generation is complete.
    pub fn le_read_local_p256_public_key_complete() -> (r: LeEventMask)
        ensures
            r.spec_bits() == 1u64 << 7u64,
    {
        LeEventMask { bits: 1u64 << 7u64 }
    }

    /// Indicates that LE Diffie-Hellman key generation has been completed by the Controller.
    pub fn le_generate_dhkey_complete() -> (r: LeEventMask)
        ensures
            r.spec_bits() == 1u64 << 8u64,
    {
        LeEventMask { bits: 1u64 << 8u64 }
    }

    /// Indicates to both of the Hosts forming the connection that a new connection has been created.
    pub fn le_enhanced_connection_complete() -> (r: LeEventMask)
        ensures
            r.spec_bits() == 1u64 << 9u64,
    {
        LeEventMask { bits: 1u64 << 9u64 }
    }

    /// Indicates that directed advertisements have been received.
    pub fn le_directed_avertising_report() -> (r: LeEventMask)
        ensures
            r.spec_bits() == 1u64 << 10u64,
    {
        LeEventMask { bits: 1u64 << 10u64 }
    }

    /// Indicate that the Controller has changed the transmitter PHY or receiver PHY in use.
    pub fn le_phy_update_complete() -> (r: LeEventMask)
        ensures
            r.spec_bits() == 1u64 << 11u64,
    {
        LeEventMask { bits: 1u64 << 11u64 }
    }

    /// Indicates that one or more Bluetooth devices have responded to an active scan or have broadcast advertisements
    /// that were received during a passive scan.
    pub fn le_extended_advertising_report() -> (r: LeEventMask)
        ensures
            r.spec_bits() == 1u64 << 12u64,
    {
        LeEventMask { bits: 1u64 << 12u64 }
    }

    /// Indicates that the Controller has received the first periodic advertising packet from an advertiser.
    pub fn le_periodic_advertising_sync_established() -> (r: LeEventMask)
        ensures
            r.spec_bits() == 1u64 << 13u64,
    {
        LeEventMask { bits: 1u64 << 13u64 }
    }

    /// Indicates that the Controller has received a periodic advertisement or has failed to receive an AUX_SYNC_SUBEVENT_IND PDU.
    pub fn le_periodic_advertising_report() -> (r: LeEventMask)
        ensures
            r.spec_bits() == 1u64 << 14u64,
    {
        LeEventMask { bits: 1u64 << 14u64 }
    }

    /// Indicates that the Controller has not received a Periodic Advertising packet from a train within the timeout period.
    pub fn le_periodic_advertising_sync_lost() -> (r: LeEventMask)
        ensures
            r.spec_bits() == 1u64 << 15u64,
    {
        LeEventMask { bits: 1u64 << 15u64 }
    }

    /// Indicates that scanning has ended because the duration has expired.
    pub fn le_scan_timeout() -> (r: LeEventMask)
        ensures
            r.spec_bits() == 1u64 << 16u64,
    {
        LeEventMask { bits: 1u64 << 16u64 }
    }

    /// Indicates that the Controller has terminated advertising in the specified advertising sets.
    pub fn le_advertising_set_terminated() -> (r: LeEventMask)
        ensures
            r.spec_bits() == 1u64 << 17u64,
    {
        LeEventMask { bits: 1u64 << 17u64 }
    }

    /// Indicates that a SCAN_REQ PDU or an AUX_SCAN_REQ PDU has been received by the advertiser.
    pub fn le_scan_request_received() -> (r: LeEventMask)
        ensures
            r.spec_bits() == 1u64 << 18u64,
    {
        LeEventMask { bits: 1u64 << 18u64 }
    }

    /// Indicates which channel selection algorithm is used on a data physical channel connection.
    pub fn le_channel_selection_algorithm() -> (r: LeEventMask)
        ensures
            r.spec_bits() == 1u64 << 19u64,
    {
        LeEventMask { bits: 1u64 << 19u64 }
    }

    /// The Controller reports IQ information from the Constant Tone Extension of a received advertising packet forming
    /// part of the periodic advertising train.
    pub fn le_connectionless_iq_report() -> (r: LeEventMask)
        ensures
            r.spec_bits() == 1u64 << 20u64,
    {
        LeEventMask { bits: 1u64 << 20u64 }
    }

    /// The Controller reports the IQ samples from the Constant Tone Extension of a received packet.
    pub fn le_connection_iq_report() -> (r: LeEventMask)
        ensures
            r.spec_bits() == 1u64 << 21u64,
    {
        LeEventMask { bits: 1u64 << 21u64 }
    }

    /// The Controller reports an issue following a request to a peer device to reply with a packet containing an
    /// LL_CTE_RSP PDU and a Constant Tone Extension.
    pub fn le_cte_request_failed() -> (r: LeEventMask)
        ensures
            r.spec_bits() == 1u64 << 22u64,
    {
        LeEventMask { bits: 1u64 << 22u64 }
    }

    /// The Controller reports that it has received periodic advertising synchronization information from a device
    /// and either successfully synchronized to the periodic advertising train or timed out while attempting to synchronize.
    pub fn le_periodic_advertising_sync_transfer_received() -> (r: LeEventMask)
        ensures
            r.spec_bits() == 1u64 << 23u64,
    {
        LeEventMask { bits: 1u64 << 23u64 }
    }

    /// Indicates that a CIS has been established, was considered lost before being established, or (on the Central) was rejected by the Peripheral.
    pub fn le_cis_established() -> (r: LeEventMask)
        ensures
            r.spec_bits() == 1u64 << 24u64,
    {
        LeEventMask { bits: 1u64 << 24u64 }
    }

    /// Indicates that a Controller has received a request to establish a CIS.
    pub fn le_cis_request() -> (r: LeEventMask)
        ensures
            r.spec_bits() == 1u64 << 25u64,
    {
        LeEventMask { bits: 1u64 << 25u64 }
    }

    /// Indicates that the HCI_LE_Create_BIG or HCI_LE_Create_BIG_Test command has completed and, if successful,
    /// the Link Layer has entered the Isochronous Broadcasting state.
    pub fn le_create_big_complete() -> (r: LeEventMask)
        ensures
            r.spec_bits() == 1u64 << 26u64,
    {
        LeEventMask { bits: 1u64 << 26u64 }
    }

    /// Indicates that the transmission of all the BISes in the BIG are terminated.
    pub fn le_terminate_big_complete() -> (r: LeEventMask)
        ensures
            r.spec_bits() == 1u64 << 27u64,
    {
        LeEventMask { bits: 1u64 << 27u64 }
    }

    /// Indicates that the HCI_LE_BIG_Create_Sync command has completed.
    pub fn le_big_sync_established() -> (r: LeEventMask)
        ensures
            r.spec_bits() == 1u64 << 28u64,
    {
        LeEventMask { bits: 1u64 << 28u64 }
    }

    /// Indicates that the Controller has not received any PDUs on a BIG within the timeout period
    /// or the BIG has been terminated by the remote device.
    pub fn le_big_sync_lost() -> (r: LeEventMask)
        ensures
            r.spec_bits() == 1u64 << 29u64,
    {
        LeEventMask { bits: 1u64 << 29u64 }
    }

    /// Indicates that the HCI_LE_Request_Peer_SCA command has been completed.
    pub fn le_request_peer_sca_complete() -> (r: LeEventMask)
        ensures
            r.spec_bits() == 1u64 << 30u64,
    {
        LeEventMask { bits: 1u64 << 30u64 }
    }

    /// Reports a path loss threshold crossing.
    pub fn le_path_lost_threshold() -> (r: LeEventMask)
        ensures
            r.spec_bits() == 1u64 << 31u64,
    {
        LeEventMask { bits: 1u64 << 31u64 }
    }

    /// Reports the transmit power level on the ACL connection.
    pub fn le_transmit_power_reporting() -> (r: LeEventMask)
        ensures
            r.spec_bits() == 1u64 << 32u64,
    {
        LeEventMask { bits: 1u64 << 32u64 }
    }

    /// Indicates that the Controller has received an Advertising PDU that contained a BIGInfo field.
    pub fn le_biginfo_advertising_report() -> (r: LeEventMask)
        ensures
            r.spec_bits() == 1u64 << 33u64,
    {
        LeEventMask { bits: 1u64 << 33u64 }
    }

    /// Indicate that a Connection Subrate Update procedure has completed and some parameters of the specified connection have changed.
    pub fn le_subrate_change() -> (r: LeEventMask)
        ensures
            r.spec_bits() == 1u64 << 34u64,
    {
        LeEventMask { bits: 1u64 << 34u64 }
    }

    /// Indicates that the Controller has received the first periodic advertising packet from an advertiser.
    pub fn le_periodic_advertising_sync_established_v2() -> (r: LeEventMask)
        ensures
            r.spec_bits() == 1u64 << 35u64,
    {
        LeEventMask { bits: 1u64 << 35u64 }
    }

    /// Indicates that the Controller has received a periodic advertisement or has failed to receive an AUX_SYNC_SUBEVENT_IND PDU.
    pub fn le_periodic_advertising_report_v2() -> (r: LeEventMask)
        ensures
            r.spec_bits() == 1u64 << 36u64,
    {
        LeEventMask { bits: 1u64 << 36u64 }
    }

    /// The Controller reports that it has received periodic advertising synchronization information from a device
    /// and either successfully synchronized to the periodic advertising train or timed out while attempting to synchronize.
    pub fn le_periodic_advertising_sync_transfer_received_v2() -> (r: LeEventMask)
        ensures
            r.spec_bits() == 1u64 << 37u64,
    {
        LeEventMask { bits: 1u64 << 37u64 }
    }

    /// The Controller indicates that it is ready to transmit one or more subevents and is requesting the advertising data for these subevents.
    pub fn le_periodic_advertising_subevent_data_request() -> (r: LeEventMask)
        ensures
            r.spec_bits() == 1u64 << 38u64,
    {
        LeEventMask { bits: 1u64 << 38u64 }
    }

    /// Indicates that one or more Bluetooth devices have responded to a periodic advertising subevent during a PAwR train.
    pub fn le_periodic_advertising_response_report() -> (r: LeEventMask)
        ensures
            r.spec_bits() == 1u64 << 39u64,
    {
        LeEventMask { bits: 1u64 << 39u64 }
    }

    /// Indicates to both of the Hosts forming the connection that a new connection has been created.
    pub fn le_enhanced_connection_complete_v2() -> (r: LeEventMask)
        ensures
            r.spec_bits() == 1u64 << 40u64,
    {
        LeEventMask { bits: 1u64 << 40u64 }
    }

    /// Indicates that a CIS has been established, was considered lost before being established, or (on the Central) was rejected by the Peripheral.
    pub fn le_cis_established_v2() -> (r: LeEventMask)
        ensures
            r.spec_bits() == 1u64 << 41u64,
    {
        LeEventMask { bits: 1u64 << 41u64 }
    }

    /// Indicates the completion of the process of the Controller obtaining the features supported by a remote Bluetooth device.
    pub fn le_read_all_remote_features_complete() -> (r: LeEventMask)
        ensures
            r.spec_bits() == 1u64 << 42u64,
    {
        LeEventMask { bits: 1u64 << 42u64 }
    }

    /// Generated when a locally initiated CS Capabilities Exchange procedure has completed or when the local Controller
    /// has received an LL_CS_CAPABILITIES_REQ from the remote Controller.
    pub fn le_cs_read_remote_supported_capabilities_complete() -> (r: LeEventMask)
        ensures
            r.spec_bits() == 1u64 << 43u64,
    {
        LeEventMask { bits: 1u64 << 43u64 }
    }

    /// Generated when a locally initiated CS Mode-0 Frequency Actuation Error Table Update procedure has completed.
    pub fn le_cs_read_remote_fae_table_complete() -> (r: LeEventMask)
        ensures
            r.spec_bits() == 1u64 << 44u64,
    {
        LeEventMask { bits: 1u64 << 44u64 }
    }

    /// Generated when a locally initiated CS Security Start procedure has completed or when the local Controller
    /// has responded to a CS security request from the remote Controller.
    pub fn le_cs_security_enable_complete() -> (r: LeEventMask)
        ensures
            r.spec_bits() == 1u64 << 45u64,
    {
        LeEventMask { bits: 1u64 << 45u64 }
    }

    /// Generated when a locally initiated Channel Sounding Configuration procedure has completed or when the local Controller has
    /// responded to a CS configuration request from the remote Controller or when a CS configuration is created only with local context.
    pub fn le_cs_config_complete() -> (r: LeEventMask)
        ensures
            r.spec_bits() == 1u64 << 46u64,
    {
        LeEventMask { bits: 1u64 << 46u64 }
    }

    /// Generated when the local or remote Controller has scheduled a new CS procedure measurement or disabled an ongoing CS procedure
    /// measurement as a result of an HCI_LE_CS_Procedure_Enable command.
    pub fn le_cs_procedure_enable_complete() -> (r: LeEventMask)
        ensures
            r.spec_bits() == 1u64 << 47u64,
    {
        LeEventMask { bits: 1u64 << 47u64 }
    }

    /// Generated when the local Controller has results to report for a CS subevent during the CS procedure.
    pub fn le_cs_subevent_result() -> (r: LeEventMask)
        ensures
            r.spec_bits() == 1u64 << 48u64,
    {
        LeEventMask { bits: 1u64 << 48u64 }
    }

    /// Generated after the local Controller has completed a new CS subevent measurement and has already sent an
    /// HCI_LE_CS_Subevent_Result event for the specified CS subevent.
    pub fn le_cs_subevent_result_continue() -> (r: LeEventMask)
        ensures
            r.spec_bits() == 1u64 << 49u64,
    {
        LeEventMask { bits: 1u64 << 49u64 }
    }

    /// Generated when the local Controller has stopped an ongoing CS test as a result of the HCI_LE_CS_Test_End command.
    pub fn le_cs_test_end_complete() -> (r: LeEventMask)
        ensures
            r.spec_bits() == 1u64 << 50u64,
    {
        LeEventMask { bits: 1u64 << 50u64 }
    }

    /// Indicates that an advertiser on the Monitored Advertisers List has met an RSSI threshold condition established
    /// by the HCI_LE_Add_Device_To_Monitored_Advertisers_List command.
    pub fn le_monitored_advertisers_report() -> (r: LeEventMask)
        ensures
            r.spec_bits() == 1u64 << 51u64,
    {
        LeEventMask { bits: 1u64 << 51u64 }
    }

    /// Indicates that the Frame Space Update procedure has completed and, if initiated autonomously by the local Controller
    /// or the peer device, that at least one frame space value has changed.
    pub fn le_frame_space_update_complete() -> (r: LeEventMask)
        ensures
            r.spec_bits() == 1u64 << 52u64,
    {
        LeEventMask { bits: 1u64 << 52u64 }
    }

    /// The bits of the set.
    pub closed spec fn spec_bits(self) -> u64 {
        self.bits
    }

    /// The set holding exactly `bits`.
    pub closed spec fn spec_from_bits_retain(bits: u64) -> LeEventMask {
        LeEventMask { bits }
    }

    /// The bits that name a flag.
    pub open spec fn spec_known_bits() -> u64 {
        0x001FFFFFFFFFFFFF
    }

    /// The empty set.
    pub fn empty() -> (r: LeEventMask)
        ensures
            r.spec_bits() == 0,
    {
        LeEventMask { bits: 0 }
    }

    /// The set of all the named flags.
    pub fn all() -> (r: LeEventMask)
        ensures
            r.spec_bits() == LeEventMask::spec_known_bits(),
    {
        LeEventMask { bits: 0x001FFFFFFFFFFFFF }
    }

    /// The bits of the set.
    pub fn bits(&self) -> (r: u64)
        ensures
            r == self.spec_bits(),
    {
        self.bits
    }

    /// The set holding exactly `bits`, unknown bits included.
    pub fn from_bits_retain(bits: u64) -> (r: LeEventMask)
        ensures
            r == LeEventMask::spec_from_bits_retain(bits),
            r.spec_bits() == bits,
    {
        LeEventMask { bits }
    }

    /// The set holding the known bits of `bits`, the others dropped.
    pub fn from_bits_truncate(bits: u64) -> (r: LeEventMask)
        ensures
            r.spec_bits() == bits & LeEventMask::spec_known_bits(),
    {
        LeEventMask { bits: bits & 0x001FFFFFFFFFFFFF }
    }

    /// The set holding `bits`, or `None` where an unknown bit is set.
    pub fn from_bits(bits: u64) -> (r: Option<LeEventMask>)
        ensures
            r is Some <==> bits & !LeEventMask::spec_known_bits() == 0,
            r matches Some(m) ==> m.spec_bits() == bits,
    {
        if bits & !0x001FFFFFFFFFFFFF == 0 {
            Some(LeEventMask { bits })
        } else {
            None
        }
    }

    /// Whether no flag is set.
    pub fn is_empty(&self) -> (r: bool)
        ensures
            r == (self.spec_bits() == 0),
    {
        self.bits == 0
    }

    /// Whether every flag of `other` is set.
    pub fn contains(&self, other: LeEventMask) -> (r: bool)
        ensures
            r == (self.spec_bits() & other.spec_bits() == other.spec_bits()),
    {
        self.bits & other.bits == other.bits
    }

    /// The flags set in either set.
    pub closed spec fn spec_union(a: LeEventMask, b: LeEventMask) -> LeEventMask {
        LeEventMask { bits: a.bits | b.bits }
    }

    /// The flags set in either set.
    pub fn union(self, other: LeEventMask) -> (r: LeEventMask)
        ensures
            r == LeEventMask::spec_union(self, other),
            r.spec_bits() == self.spec_bits() | other.spec_bits(),
    {
        LeEventMask { bits: self.bits | other.bits }
    }

    /// Sets the flags of `other`.
    pub fn insert(&mut self, other: LeEventMask)
        ensures
            final(self).spec_bits() == old(self).spec_bits() | other.spec_bits(),
    {
        self.bits = self.bits | other.bits;
    }

    /// Clears the flags of `other`.
    pub fn remove(&mut self, other: LeEventMask)
        ensures
            final(self).spec_bits() == old(self).spec_bits() & !other.spec_bits(),
    {
        self.bits = self.bits & !other.bits;
    }

    /// Sets are determined by their bits.
    pub proof fn lemma_spec_bits_injective(a: LeEventMask, b: LeEventMask)
        ensures
            a.spec_bits() == b.spec_bits() ==> a == b,
    {
    }

    /// The outcome of parsing exactly eight bytes: the little-endian bits, unknown bits dropped.
    pub open spec fn spec_parse(s: Seq<u8>) -> Option<LeEventMask> {
        if s.len() == 8 {
            Some(LeEventMask::spec_from_bits_retain(spec_u64_from_le(s) & LeEventMask::spec_known_bits()))
        } else {
            None
        }
    }

    /// Parses exactly eight bytes.
    pub fn parse(input: &[u8]) -> (r: Option<LeEventMask>)
        ensures
            r == LeEventMask::spec_parse(input@),
    {
        if input.len() != 8 {
            return None;
        }
        assert(input@.subrange(0, 8) =~= input@);
        let bits = read_u64_le(input, 0);
        Some(LeEventMask { bits: bits & 0x001FFFFFFFFFFFFF })
    }

    /// Parsing the encoding of a set of known flags gives it back.
    pub proof fn lemma_parse_encode(self)
        requires
            self.spec_bits() & !LeEventMask::spec_known_bits() == 0,
        ensures
            LeEventMask::spec_parse(self.spec_encode()) == Some(self),
    {
        lemma_u64_le_roundtrip(self.bits);
        let b = self.bits;
        assert(b & !0x001FFFFFFFFFFFFF == 0 ==> b & 0x001FFFFFFFFFFFFF == b) by (bit_vector);
    }

    /// The encoding of a parsed set is the bytes parsed where they hold only known flags.
    pub proof fn lemma_encode_parse(s: Seq<u8>)
        requires
            s.len() == 8 ==> spec_u64_from_le(s) & !LeEventMask::spec_known_bits() == 0,
        ensures
            LeEventMask::spec_parse(s) matches Some(p) ==> p.spec_encode() == s,
    {
        if s.len() == 8 {
            lemma_u64_le_bytes_roundtrip(s);
            let b = spec_u64_from_le(s);
            assert(b & !0x001FFFFFFFFFFFFF == 0 ==> b & 0x001FFFFFFFFFFFFF == b) by (bit_vector);
        }
    }
}

impl Default for LeEventMask {
    fn default() -> (r: LeEventMask)
        ensures
            r.spec_bits() == 0x0000_0000_0000_001Fu64,
    {
        LeEventMask { bits: 0x0000_0000_0000_001Fu64 }
    }
}

impl core::ops::BitOr for LeEventMask {
    type Output = LeEventMask;

    fn bitor(self, rhs: LeEventMask) -> LeEventMask {
        self.union(rhs)
    }
}

impl vstd::std_specs::ops::BitOrSpecImpl for LeEventMask {
    open spec fn obeys_bitor_spec() -> bool {
        true
    }

    open spec fn bitor_req(self, rhs: LeEventMask) -> bool {
        true
    }

    open spec fn bitor_spec(self, rhs: LeEventMask) -> LeEventMask {
        LeEventMask::spec_union(self, rhs)
    }
}

impl EncodeToBuffer for LeEventMask {
    open spec fn spec_encode(&self) -> Seq<u8> {
        spec_u64_le_bytes(self.spec_bits())
    }

    fn encode(&self, buffer: &mut Vec<u8>) -> (n: usize) {
        push_u64_le(buffer, self.bits);
        8
    }

    fn encoded_size(&self) -> (n: usize) {
        8
    }
}

} // verus!
