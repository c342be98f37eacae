//! LE features supported by a Controller.
use vstd::prelude::*;

use crate::bytes::{
    lemma_u64_le_bytes_roundtrip, lemma_u64_le_roundtrip, push_u64_le, read_u64_le,
    spec_u64_from_le, spec_u64_le_bytes,
};
use crate::encode::EncodeToBuffer;

verus! {

/// Features supported by the LE Controller.
///
/// See Core Specification 6.0, Vol. 6, Part B, 4.6.
#[derive(Debug, Clone, Copy, PartialEq, Eq, Structural)]
pub struct SupportedLeFeatures {
    bits: u64,
}

impl SupportedLeFeatures {
    /// The controller supports encryption on all the logical transports and:
    /// - LL_ENC_REQ
    /// - LL_ENC_RSP
    /// - LL_START_ENC_REQ
    /// - LL_START_ENC_RSP
    /// - LL_PAUSE_ENC_REQ
    /// - LL_PAUSE_ENC_RSP
    /// - Encryption start procedure
    /// - Encryption pause procedure
    pub fn le_encryption() -> (r: SupportedLeFeatures)
        ensures
            r.spec_bits() == 1u64 << 0u64,
    {
        SupportedLeFeatures { bits: 1u64 << 0u64 }
    }

    /// The controller supports the Extended Reject Indication feature and:
    /// - LL_CONNECTION_PARAM_REQ
    /// - LL_CONNECTION_PARAM_RSP
    /// - Connection Parameters Request Procedure
    pub fn connection_parameters_request_procedure() -> (r: SupportedLeFeatures)
        ensures
            r.spec_bits() == 1u64 << 1u64,
    {
        SupportedLeFeatures { bits: 1u64 << 1u64 }
    }

    /// The controller supports LL_REJECT_EXT_IND.
    pub fn extended_reject_indication() -> (r: SupportedLeFeatures)
        ensures
            r.spec_bits() == 1u64 << 2u64,
    {
        SupportedLeFeatures { bits: 1u64 << 2u64 }
    }

    /// The controller supports:
    /// - LL_PERIPHERAL_FEATURE_REQ
    /// - Receiving LL_FEATURE_RSP
    pub fn peripheral_initiated_features_exchange() -> (r: SupportedLeFeatures)
        ensures
            r.spec_bits() == 1u64 << 3u64,
    {
        SupportedLeFeatures { bits: 1u64 << 3u64 }
    }

    /// The controller supports:
    /// - LL_PING_REQ
    /// - LL_PING_RSP
    /// - LE Ping procedure
    /// - LE Authenticated Payload Timeout
    pub fn le_ping() -> (r: SupportedLeFeatures)
        ensures
            r.spec_bits() == 1u64 << 4u64,
    {
        SupportedLeFeatures { bits: 1u64 << 4u64 }
    }

    /// The controller supports:
    /// - LL_LENGTH_REQ and LL_LENGTH_RSP
    /// - Data Length Update procedure
    pub fn le_data_packet_length_extension() -> (r: SupportedLeFeatures)
        ensures
            r.spec_bits() == 1u64 << 5u64,
    {
        SupportedLeFeatures { bits: 1u64 << 5u64 }
    }

    /// The controller supports:
    /// - Resolving List
    /// - LL Privacy
    pub fn ll_privacy() -> (r: SupportedLeFeatures)
        ensures
            r.spec_bits() == 1u64 << 6u64,
    {
        SupportedLeFeatures { bits: 1u64 << 6u64 }
    }

    /// The controller supports Extended Scanning Filter Policies.
    pub fn extended_scanning_filter_policies() -> (r: SupportedLeFeatures)
        ensures
            r.spec_bits() == 1u64 << 7u64,
    {
        SupportedLeFeatures { bits: 1u64 << 7u64 }
    }

    /// The controller supports the Extended Reject Indication feature and:
    /// - Transmission and reception using the 2M modulation scheme
    /// - Longer preamble
    /// - LL_PHY_REQ
    /// - LL_PHY_RSP
    /// - LL_PHY_UPDATE_IND
    /// - PHY Update procedure
    pub fn le_2m_phy() -> (r: SupportedLeFeatures)
        ensures
            r.spec_bits() == 1u64 << 8u64,
    {
        SupportedLeFeatures { bits: 1u64 << 8u64 }
    }

    /// The controller transmitter supports Stable Modulation Index.
    pub fn stable_modulation_index_transmitter() -> (r: SupportedLeFeatures)
        ensures
            r.spec_bits() == 1u64 << 9u64,
    {
        SupportedLeFeatures { bits: 1u64 << 9u64 }
    }

    /// The controller receiver supports Stable Modulation Index.
    pub fn stable_modulation_index_receiver() -> (r: SupportedLeFeatures)
        ensures
            r.spec_bits() == 1u64 << 10u64,
    {
        SupportedLeFeatures { bits: 1u64 << 10u64 }
    }

    /// The controller supports the Extended Reject Indication feature and:
    /// - Transmission and reception using the Coded modulation scheme
    /// - LL_PHY_REQ
    /// - LL_PHY_RSP
    /// - LL_PHY_UPDATE_IND
    /// - PHY Update procedure
    /// - Packet format for the LE Coded PHY
    /// - Coding
    pub fn le_coded_phy() -> (r: SupportedLeFeatures)
        ensures
            r.spec_bits() == 1u64 << 11u64,
    {
        SupportedLeFeatures { bits: 1u64 << 11u64 }
    }

    /// The controller supports the reception of an Advertising Physical Channel PDU payload of 255 octets, and:
    /// - ADV_EXT_IND
    /// - AUX_ADV_IND
    /// - AUX_CHAIN_IND
    /// - AUX_SCAN_REQ
    /// - AUX_SCAN_RSP
    /// - AUX_CONNECT_REQ
    /// - AUX_CONNECT_RSP
    /// - Common Extended Advertising Payload Format
    /// - Advertising Sets
    /// - Using AdvDataInfo (ADI)
    /// - Advertising Sets
    /// - Connect Requests on the Secondary Advertising Physical Channel
    /// - Connectable Directed event type using ADV_EXT_IND
    /// - Scannable Undirected event type using ADV_EXT_IND
    /// - Connectable Undirected event type
    /// - Scannable Directed event type
    /// - Non-Connectable and Non-Scannable Directed event type
    /// If the controller supports connections it shall also support the Channel Selection Algorithm #2 feature
    pub fn le_extended_advertising() -> (r: SupportedLeFeatures)
        ensures
            r.spec_bits() == 1u64 << 12u64,
    {
        SupportedLeFeatures { bits: 1u64 << 12u64 }
    }

    /// The controller supports the LE Extended Advertising feature, Channel Selection Algorithm #2 feature, and:
    /// - AUX_SYNC_IND
    /// - Periodic Advertising
    /// A Controller that supports Scanning state shall also support:
    /// - Scanning for periodic advertisements
    /// - Synchronization state for periodic advertising trains
    pub fn le_periodic_advertising() -> (r: SupportedLeFeatures)
        ensures
            r.spec_bits() == 1u64 << 13u64,
    {
        SupportedLeFeatures { bits: 1u64 << 13u64 }
    }

    /// The controller supports:
    /// - ChSel bit set to 1
    /// - Channel Selection Algorithm #2
    pub fn channel_selection_algorithm_no2() -> (r: SupportedLeFeatures)
        ensures
            r.spec_bits() == 1u64 << 14u64,
    {
        SupportedLeFeatures { bits: 1u64 << 14u64 }
    }

    /// The controller supports LE Power Class 1: 100 mW (+20 dBm) ≥ Pmax > 10 mW (+10 dBm)
    pub fn le_power_class_1() -> (r: SupportedLeFeatures)
        ensures
            r.spec_bits() == 1u64 << 15u64,
    {
        SupportedLeFeatures { bits: 1u64 << 15u64 }
    }

    /// The controller supports:
    /// - LL_MIN_USED_CHANNELS_IND
    /// - Minimum Number Of Used Channels procedure
    pub fn minimum_number_of_used_channels_procedure() -> (r: SupportedLeFeatures)
        ensures
            r.spec_bits() == 1u64 << 16u64,
    {
        SupportedLeFeatures { bits: 1u64 << 16u64 }
    }

    /// The controller supports the Receiving Constant Tone Extensions feature, the Extended Reject Indication feature,
    /// and the following on all supported PHYs that allow Constant Tone Extensions:
    /// - LL_CTE_REQ
    /// - LL_CTE_RSP
    /// - Constant Tone Extension Request procedure, as initiator
    pub fn connection_cte_request() -> (r: SupportedLeFeatures)
        ensures
            r.spec_bits() == 1u64 << 17u64,
    {
        SupportedLeFeatures { bits: 1u64 << 17u64 }
    }

    /// The controller supports the Extended Reject Indication feature and the following on all supported PHYs that allow Constant Tone Extensions:
    /// - LL_CTE_REQ
    /// - LL_CTE_RSP
    /// - Transmitting Constant Tone Extensions
    /// - Constant Tone Extension Request procedure, as responder
    pub fn connection_cte_response() -> (r: SupportedLeFeatures)
        ensures
            r.spec_bits() == 1u64 << 18u64,
    {
        SupportedLeFeatures { bits: 1u64 << 18u64 }
    }

    /// The controller supports the LE Periodic Advertising feature in Advertising state and the
    /// Transmitting Constant Tone Extensions on all supported PHYs that allow Constant Tone Extensions.
    pub fn connectionless_cte_transmitter() -> (r: SupportedLeFeatures)
        ensures
            r.spec_bits() == 1u64 << 19u64,
    {
        SupportedLeFeatures { bits: 1u64 << 19u64 }
    }

    /// The controller supports the LE Periodic Advertising feature in Synchronization state and the following
    /// on all supported PHYs that allow Constant Tone Extensions:
    /// - Receiving Advertising Physical Channel PDUs containing a CTEInfo field in the Extended Header
    /// - IQ Sampling
    pub fn connectionless_cte_receiver() -> (r: SupportedLeFeatures)
        ensures
            r.spec_bits() == 1u64 << 20u64,
    {
        SupportedLeFeatures { bits: 1u64 << 20u64 }
    }

    /// The controller supports the following on all supported PHYs that allow Constant Tone Extensions:
    /// - Transmitting Constant Tone Extensions
    /// - Antenna Switching
    pub fn antenna_switching_during_cte_transmission() -> (r: SupportedLeFeatures)
        ensures
            r.spec_bits() == 1u64 << 21u64,
    {
        SupportedLeFeatures { bits: 1u64 << 21u64 }
    }

    /// The controller supports the Receiving Constant Tone Extensions feature and
    /// Antenna Switching on all supported PHYs that allow Constant Tone Extensions.
    pub fn antenna_switching_during_cte_reception() -> (r: SupportedLeFeatures)
        ensures
            r.spec_bits() == 1u64 << 22u64,
    {
        SupportedLeFeatures { bits: 1u64 << 22u64 }
    }

    /// The controller supports the following on all supported PHYs that allow Constant Tone Extensions:
    /// - Receiving Data Channel PDUs with the CP bit set to 1 and containing a CTEInfo field
    /// - IQ Sampling
    pub fn receiving_constant_tones_extensions() -> (r: SupportedLeFeatures)
        ensures
            r.spec_bits() == 1u64 << 23u64,
    {
        SupportedLeFeatures { bits: 1u64 << 23u64 }
    }

    /// The controller supports the LE Periodic Advertising feature and:
    /// - LL_PERIODIC_SYNC_IND
    /// - Periodic Advertising Sync Transfer procedure, as initiator
    pub fn periodic_advertising_sync_transfer_sender() -> (r: SupportedLeFeatures)
        ensures
            r.spec_bits() == 1u64 << 24u64,
    {
        SupportedLeFeatures { bits: 1u64 << 24u64 }
    }

    /// The controller supports the LE Periodic Advertising feature and:
    /// - LL_PERIODIC_SYNC_IND
    /// - Periodic Advertising Sync Transfer procedure, as recipient
    pub fn periodic_advertising_sync_transfer_recipient() -> (r: SupportedLeFeatures)
        ensures
            r.spec_bits() == 1u64 << 25u64,
    {
        SupportedLeFeatures { bits: 1u64 << 25u64 }
    }

    /// The controller supports:
    /// - LL_CLOCK_ACCURACY_REQ and LL_CLOCK_ACCURACY_RSP
    /// - Sleep Clock Accuracy Update procedure
    pub fn sleep_clock_accuracy_updates() -> (r: SupportedLeFeatures)
        ensures
            r.spec_bits() == 1u64 << 26u64,
    {
        SupportedLeFeatures { bits: 1u64 << 26u64 }
    }

    /// The controller validates the remote public key sent by the Host.
    pub fn remote_public_key_validation() -> (r: SupportedLeFeatures)
        ensures
            r.spec_bits() == 1u64 << 27u64,
    {
        SupportedLeFeatures { bits: 1u64 << 27u64 }
    }

    /// The controller supports the Channel Selection Algorithm #2 feature, the Sleep Clock Accuracy
    /// Updates feature, the Extended Reject Indication feature, and:
    /// - LL_CIS_REQ
    /// - LL_CIS_RSP
    /// - LL_CIS_IND
    /// - LL_CIS_TERMINATE_IND
    /// - Connected Isochronous PDU
    /// - Connected Isochronous Stream
    /// - Connected Isochronous Group
    /// - Connected Isochronous Stream Creation procedure
    /// - Connected Isochronous Stream Termination procedure
    /// - ISO Transmit Test Mode
    /// - ISO Receive Test Mode
    /// - Isochronous Adaptation Layer (ISOAL)
    pub fn connected_isochronous_stream_central() -> (r: SupportedLeFeatures)
        ensures
            r.spec_bits() == 1u64 << 28u64,
    {
        SupportedLeFeatures { bits: 1u64 << 28u64 }
    }

    /// The controller supports the Channel Selection Algorithm #2 feature, the Sleep Clock Accuracy
    /// Updates feature, the Extended Reject Indication feature, and:
    /// - LL_CIS_REQ
    /// - LL_CIS_RSP
    /// - LL_CIS_IND
    /// - LL_CIS_TERMINATE_IND
    /// - Connected Isochronous PDU
    /// - Connected Isochronous Stream
    /// - Connected Isochronous Group
    /// - Connected Isochronous Stream Creation procedure
    /// - Connected Isochronous Stream Termination procedure
    /// - ISO Transmit Test Mode
    /// - ISO Receive Test Mode
    /// - Isochronous Adaptation Layer (ISOAL)
    pub fn connected_isochronous_stream_peripheral() -> (r: SupportedLeFeatures)
        ensures
            r.spec_bits() == 1u64 << 29u64,
    {
        SupportedLeFeatures { bits: 1u64 << 29u64 }
    }

    /// The controller supports the LE Periodic Advertising feature and:
    /// - Broadcast Isochronous PDU
    /// - BIG Control PDU
    /// - Isochronous Broadcasting State
    /// - BIG control procedures
    /// - ISO Transmit Test Mode
    /// - Isochronous Adaptation Layer (ISOAL)
    pub fn isochronous_broadcaster() -> (r: SupportedLeFeatures)
        ensures
            r.spec_bits() == 1u64 << 30u64,
    {
        SupportedLeFeatures { bits: 1u64 << 30u64 }
    }

    /// The controller supports the LE Periodic Advertising feature and:
    /// - Broadcast Isochronous PDU
    /// - BIG Control PDU
    /// - Synchronization state
    /// - BIG control procedures
    /// - ISO Receive Test Mode
    /// - Isochronous Adaptation Layer (ISOAL)
    pub fn synchronized_receiver() -> (r: SupportedLeFeatures)
        ensures
            r.spec_bits() == 1u64 << 31u64,
    {
        SupportedLeFeatures { bits: 1u64 << 31u64 }
    }

    /// The host supports creating Connected Isochronous Stream.
    pub fn connected_isochronous_stream_host_support() -> (r: SupportedLeFeatures)
        ensures
            r.spec_bits() == 1u64 << 32u64,
    {
        SupportedLeFeatures { bits: 1u64 << 32u64 }
    }

    /// The controller supports the Extended Reject Indication feature and:
    /// - LL_POWER_CONTROL_REQ
    /// - LL_POWER_CONTROL_RSP
    /// - LL_POWER_CHANGE_IND
    /// - Power level management
    /// - Power Control Request procedure
    /// - Power Change Indication procedure
    pub fn le_power_control_request() -> (r: SupportedLeFeatures)
        ensures
            r.spec_bits() == 1u64 << 33u64,
    {
        SupportedLeFeatures { bits: 1u64 << 33u64 }
    }

    /// The controller supports the Extended Reject Indication feature and:
    /// - LL_POWER_CONTROL_REQ
    /// - LL_POWER_CONTROL_RSP
    /// - LL_POWER_CHANGE_IND
    /// - Power level management
    /// - Power Control Request procedure
    /// - Power Change Indication procedure
    pub fn le_power_control_request_bis() -> (r: SupportedLeFeatures)
        ensures
            r.spec_bits() == 1u64 << 34u64,
    {
        SupportedLeFeatures { bits: 1u64 << 34u64 }
    }

    /// The controller supports LE Path Loss Monitoring.
    pub fn le_path_loss_monitoring() -> (r: SupportedLeFeatures)
        ensures
            r.spec_bits() == 1u64 << 35u64,
    {
        SupportedLeFeatures { bits: 1u64 << 35u64 }
    }

    /// The controller supports the LE Periodic Advertising feature and:
    /// - AUX_SYNC_IND PDU
    /// - Periodic Advertising
    /// - Periodic Advertising Trains
    pub fn periodic_advertising_adi_support() -> (r: SupportedLeFeatures)
        ensures
            r.spec_bits() == 1u64 << 36u64,
    {
        SupportedLeFeatures { bits: 1u64 << 36u64 }
    }

    /// The controller supports all valid values for connSubrateFactor, and:
    /// - LL_SUBRATE_REQ
    /// - LL_SUBRATE_IND
    /// - Connection Subrate Update procedure
    /// - Connection Subrate Request procedure
    pub fn connection_subrating() -> (r: SupportedLeFeatures)
        ensures
            r.spec_bits() == 1u64 << 37u64,
    {
        SupportedLeFeatures { bits: 1u64 << 37u64 }
    }

    /// The Host supports Connection Subrating.
    pub fn connection_subrating_host_support() -> (r: SupportedLeFeatures)
        ensures
            r.spec_bits() == 1u64 << 38u64,
    {
        SupportedLeFeatures { bits: 1u64 << 38u64 }
    }

    /// The controller supports:
    /// - LL_CHANNEL_REPORTING_IND
    /// - LL_CHANNEL_STATUS_IND
    /// - Channel Classification Enable procedure
    /// - Channel Classification Reporting procedure
    pub fn channel_classification() -> (r: SupportedLeFeatures)
        ensures
            r.spec_bits() == 1u64 << 39u64,
    {
        SupportedLeFeatures { bits: 1u64 << 39u64 }
    }

    /// The controller supports the LE Extended Advertising and LE Coded PHY features and:
    /// - Host selection of the coding scheme used in advertising
    /// - Advertising reports specifying the coding scheme used
    pub fn advertising_coding_selection() -> (r: SupportedLeFeatures)
        ensures
            r.spec_bits() == 1u64 << 40u64,
    {
        SupportedLeFeatures { bits: 1u64 << 40u64 }
    }

    /// The Host supports Advertising Coding Selection.
    pub fn advertising_coding_selection_host_support() -> (r: SupportedLeFeatures)
        ensures
            r.spec_bits() == 1u64 << 41u64,
    {
        SupportedLeFeatures { bits: 1u64 << 41u64 }
    }

    /// The controller supports the LE Extended Advertising feature and:
    /// - ADV_DECISION_IND
    /// - Decision scanning filter policies
    /// - Decision PDU scanning
    pub fn decision_based_advertising_filtering() -> (r: SupportedLeFeatures)
        ensures
            r.spec_bits() == 1u64 << 42u64,
    {
        SupportedLeFeatures { bits: 1u64 << 42u64 }
    }

    /// The controller supports the LE Periodic Advertising feature in the Advertising state,
    /// the Periodic Advertising Sync Transfer - Sender feature, and:
    /// - AUX_SYNC_SUBEVENT_IND
    /// - AUX_SYNC_SUBEVENT_RSP
    /// - LL_PERIODIC_SYNC_WR_IND
    /// - Trains with responses
    pub fn periodic_advertising_with_responses_advertiser() -> (r: SupportedLeFeatures)
        ensures
            r.spec_bits() == 1u64 << 43u64,
    {
        SupportedLeFeatures { bits: 1u64 << 43u64 }
    }

    /// The controller supports the LE Periodic Advertising feature in the Scanning state,
    /// the Periodic Advertising Sync Transfer - Recipient feature, and:
    /// - AUX_SYNC_SUBEVENT_IND
    /// - AUX_SYNC_SUBEVENT_RSP
    /// - LL_PERIODIC_SYNC_WR_IND
    /// - Scanning for periodic advertisement
    /// - Trains with responses
    pub fn periodic_advertising_with_responses_scanner() -> (r: SupportedLeFeatures)
        ensures
            r.spec_bits() == 1u64 << 44u64,
    {
        SupportedLeFeatures { bits: 1u64 << 44u64 }
    }

    /// The controller supports at least one of the following features:
    /// - Connected Isochronous Stream - Central
    /// - Connected Isochronous Stream - Peripheral
    /// - Isochronous Broadcaster
    /// - Synchronized Receive
    /// And it supports:
    /// - Unsegmented mode for framed PDUs
    /// - Unsegmented mode in SDU synchronization reference and transport latency using framed PDUs
    pub fn unsegmented_framed_mode() -> (r: SupportedLeFeatures)
        ensures
            r.spec_bits() == 1u64 << 45u64,
    {
        SupportedLeFeatures { bits: 1u64 << 45u64 }
    }

    /// The controller supports the Extended Reject Indication feature, the Peripheral-initiated Features Exchange feature, and:
    /// - Frequency bands and channel arrangement
    /// - Modulation spectrum
    /// - Stable phase
    /// - Antenna switching for Channel Sounding
    /// - Phase measurements
    /// - LL_CS_SEC_REQ
    /// - LL_CS_SEC_RSP
    /// - LL_CS_CAPABILITIES_REQ
    /// - LL_CS_CAPABILITES_RSP
    /// - LL_CS_CONFIG_REQ
    /// - LL_CS_CONFIG_RSP
    /// - LL_CS_REQ
    /// - LL_CS_RSP
    /// - LL_CS_IND
    /// - LL_CS_TERMINATE_REQ
    /// - LL_CS_TERMINATE_RSP
    /// - LL_CS_FAE_REQ
    /// - LL_CS_FAE_RSP
    /// - LL_CS_CHANNEL_MAP_IND
    /// - Minimum Channel Sounding subevent space
    /// - Active clock accuracy
    /// - Window widening
    /// - Channel Sounding
    /// - Channel Sounding (Host Support)
    /// - Channel Sounding Security Start procedure
    /// - Channel Sounding Capabilities Exchange procedure
    /// - Channel Sounding Configuration procedure
    /// - Channel Sounding Start procedure
    /// - Channel Sounding Procedure Repeat Termination procedure
    /// - Channel Sounding Channel Map Update procedure
    /// - Channel Sounding Mode-0 FAE Table Request procedure
    pub fn channel_sounding() -> (r: SupportedLeFeatures)
        ensures
            r.spec_bits() == 1u64 << 46u64,
    {
        SupportedLeFeatures { bits: 1u64 << 46u64 }
    }

    /// The Host supports the Channel Sounding feature.
    pub fn chanell_sounding_host_support() -> (r: SupportedLeFeatures)
        ensures
            r.spec_bits() == 1u64 << 47u64,
    {
        SupportedLeFeatures { bits: 1u64 << 47u64 }
    }

    /// The controller supports the Channel Sounding feature and Phase measurements during T_PM.
    pub fn channel_sounding_tone_quality_indication() -> (r: SupportedLeFeatures)
        ensures
            r.spec_bits() == 1u64 << 48u64,
    {
        SupportedLeFeatures { bits: 1u64 << 48u64 }
    }

    /// The controller supports the Peripheral-initiated Features Exchange feature and:
    /// - LL_FEATURE_EXT_REQ and LL_FEATURE_EXT_RSP
    /// - Feature Page Exchange procedure
    pub fn ll_extended_feature_set() -> (r: SupportedLeFeatures)
        ensures
            r.spec_bits() == 1u64 << 63u64,
    {
        SupportedLeFeatures { bits: 1u64 << 63u64 }
    }

    /// The bits of the set.
    pub closed spec fn spec_bits(self) -> u64 {
        self.bits
    }

    /// The set holding exactly `bits`.
    pub closed spec fn spec_from_bits_retain(bits: u64) -> SupportedLeFeatures {
        SupportedLeFeatures { bits }
    }

    /// The bits that name a flag.
    pub open spec fn spec_known_bits() -> u64 {
        0x8001FFFFFFFFFFFF
    }

    /// The empty set.
    pub fn empty() -> (r: SupportedLeFeatures)
        ensures
            r.spec_bits() == 0,
    {
        SupportedLeFeatures { bits: 0 }
    }

    /// The set of all the named flags.
    pub fn all() -> (r: SupportedLeFeatures)
        ensures
            r.spec_bits() == SupportedLeFeatures::spec_known_bits(),
    {
        SupportedLeFeatures { bits: 0x8001FFFFFFFFFFFF }
    }

    /// The bits of the set.
    pub fn bits(&self) -> (r: u64)
        ensures
            r == self.spec_bits(),
    {
        self.bits
    }

    /// The set holding exactly `bits`, unknown bits included.
    pub fn from_bits_retain(bits: u64) -> (r: SupportedLeFeatures)
        ensures
            r == SupportedLeFeatures::spec_from_bits_retain(bits),
            r.spec_bits() == bits,
    {
        SupportedLeFeatures { bits }
    }

    /// The set holding the known bits of `bits`, the others dropped.
    pub fn from_bits_truncate(bits: u64) -> (r: SupportedLeFeatures)
        ensures
            r.spec_bits() == bits & SupportedLeFeatures::spec_known_bits(),
    {
        SupportedLeFeatures { bits: bits & 0x8001FFFFFFFFFFFF }
    }

    /// The set holding `bits`, or `None` where an unknown bit is set.
    pub fn from_bits(bits: u64) -> (r: Option<SupportedLeFeatures>)
        ensures
            r is Some <==> bits & !SupportedLeFeatures::spec_known_bits() == 0,
            r matches Some(m) ==> m.spec_bits() == bits,
    {
        if bits & !0x8001FFFFFFFFFFFF == 0 {
            Some(SupportedLeFeatures { bits })
        } else {
            None
        }
    }

    /// Whether no flag is set.
    pub fn is_empty(&self) -> (r: bool)
        ensures
            r == (self.spec_bits() == 0),
    {
        self.bits == 0
    }

    /// Whether every flag of `other` is set.
    pub fn contains(&self, other: SupportedLeFeatures) -> (r: bool)
        ensures
            r == (self.spec_bits() & other.spec_bits() == other.spec_bits()),
    {
        self.bits & other.bits == other.bits
    }

    /// The flags set in either set.
    pub closed spec fn spec_union(a: SupportedLeFeatures, b: SupportedLeFeatures) -> SupportedLeFeatures {
        SupportedLeFeatures { bits: a.bits | b.bits }
    }

    /// The flags set in either set.
    pub fn union(self, other: SupportedLeFeatures) -> (r: SupportedLeFeatures)
        ensures
            r == SupportedLeFeatures::spec_union(self, other),
            r.spec_bits() == self.spec_bits() | other.spec_bits(),
    {
        SupportedLeFeatures { bits: self.bits | other.bits }
    }

    /// Sets the flags of `other`.
    pub fn insert(&mut self, other: SupportedLeFeatures)
        ensures
            final(self).spec_bits() == old(self).spec_bits() | other.spec_bits(),
    {
        self.bits = self.bits | other.bits;
    }

    /// Clears the flags of `other`.
    pub fn remove(&mut self, other: SupportedLeFeatures)
        ensures
            final(self).spec_bits() == old(self).spec_bits() & !other.spec_bits(),
    {
        self.bits = self.bits & !other.bits;
    }

    /// Sets are determined by their bits.
    pub proof fn lemma_spec_bits_injective(a: SupportedLeFeatures, b: SupportedLeFeatures)
        ensures
            a.spec_bits() == b.spec_bits() ==> a == b,
    {
    }

    /// The outcome of parsing exactly eight bytes: the little-endian bits, unknown bits kept.
    pub open spec fn spec_parse(s: Seq<u8>) -> Option<SupportedLeFeatures> {
        if s.len() == 8 {
            Some(SupportedLeFeatures::spec_from_bits_retain(spec_u64_from_le(s)))
        } else {
            None
        }
    }

    /// Parses exactly eight bytes.
    pub fn parse(input: &[u8]) -> (r: Option<SupportedLeFeatures>)
        ensures
            r == SupportedLeFeatures::spec_parse(input@),
    {
        if input.len() != 8 {
            return None;
        }
        assert(input@.subrange(0, 8) =~= input@);
        let bits = read_u64_le(input, 0);
        Some(SupportedLeFeatures { bits: bits })
    }

    /// Parsing the encoding of a set gives it back.
    pub proof fn lemma_parse_encode(self)
        
            
        ensures
            SupportedLeFeatures::spec_parse(self.spec_encode()) == Some(self),
    {
        lemma_u64_le_roundtrip(self.bits);

    }

    /// The encoding of a parsed set is the bytes parsed.
    pub proof fn lemma_encode_parse(s: Seq<u8>)
        
            
        ensures
            SupportedLeFeatures::spec_parse(s) matches Some(p) ==> p.spec_encode() == s,
    {
        if s.len() == 8 {
            lemma_u64_le_bytes_roundtrip(s);

        }
    }
}

impl Default for SupportedLeFeatures {
    fn default() -> (r: SupportedLeFeatures)
        ensures
            r.spec_bits() == 0u64,
    {
        SupportedLeFeatures { bits: 0u64 }
    }
}

impl core::ops::BitOr for SupportedLeFeatures {
    type Output = SupportedLeFeatures;

    fn bitor(self, rhs: SupportedLeFeatures) -> SupportedLeFeatures {
        self.union(rhs)
    }
}

impl vstd::std_specs::ops::BitOrSpecImpl for SupportedLeFeatures {
    open spec fn obeys_bitor_spec() -> bool {
        true
    }

    open spec fn bitor_req(self, rhs: SupportedLeFeatures) -> bool {
        true
    }

    open spec fn bitor_spec(self, rhs: SupportedLeFeatures) -> SupportedLeFeatures {
        SupportedLeFeatures::spec_union(self, rhs)
    }
}

impl EncodeToBuffer for SupportedLeFeatures {
    open spec fn spec_encode(&self) -> Seq<u8> {
        spec_u64_le_bytes(self.spec_bits())
    }

    fn encode(&self, buffer: &mut Vec<u8>) -> (n: usize) {
        push_u64_le(buffer, self.bits);
        8
    }

    fn encoded_size(&self) -> (n: usize) {
        8
    }
}

} // verus!
