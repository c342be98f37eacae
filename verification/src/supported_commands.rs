//! Commands supported by a Controller.
use vstd::prelude::*;

verus! {

/// Commands supported by the Controller: one bit per command, in 64 octets.
///
/// See Core Specification 6.0, Vol. 4, Part E, 6.27.
#[derive(Debug, Clone, Copy, PartialEq, Eq)]
pub struct SupportedCommands {
    bytes: [u8; 64],
}

impl SupportedCommands {
    /// The command READ_BUFFER_SIZE.
    pub fn read_buffer_size() -> (r: SupportedCommands)
        ensures
            r == SupportedCommands::spec_single(14, 7),
    {
        SupportedCommands::from_bit(14, 7)
    }

    /// The command READ_BD_ADDR.
    pub fn read_bd_addr() -> (r: SupportedCommands)
        ensures
            r == SupportedCommands::spec_single(15, 1),
    {
        SupportedCommands::from_bit(15, 1)
    }

    /// The command LE_SET_EVENT_MASK.
    pub fn le_set_event_mask() -> (r: SupportedCommands)
        ensures
            r == SupportedCommands::spec_single(25, 0),
    {
        SupportedCommands::from_bit(25, 0)
    }

    /// The command LE_READ_BUFFER_SIZE.
    pub fn le_read_buffer_size() -> (r: SupportedCommands)
        ensures
            r == SupportedCommands::spec_single(25, 1),
    {
        SupportedCommands::from_bit(25, 1)
    }

    /// The command LE_READ_LOCAL_SUPPORTED_FEATURES_PAGE_0.
    pub fn le_read_local_supported_features_page_0() -> (r: SupportedCommands)
        ensures
            r == SupportedCommands::spec_single(25, 2),
    {
        SupportedCommands::from_bit(25, 2)
    }

    /// The command LE_SET_RANDOM_ADDRESS.
    pub fn le_set_random_address() -> (r: SupportedCommands)
        ensures
            r == SupportedCommands::spec_single(25, 4),
    {
        SupportedCommands::from_bit(25, 4)
    }

    /// The command LE_SET_ADVERTISING_PARAMETERS.
    pub fn le_set_advertising_parameters() -> (r: SupportedCommands)
        ensures
            r == SupportedCommands::spec_single(25, 5),
    {
        SupportedCommands::from_bit(25, 5)
    }

    /// The command LE_READ_ADVERTISING_PHYSICAL_CHANNEL_TX_POWER.
    pub fn le_read_advertising_physical_channel_tx_power() -> (r: SupportedCommands)
        ensures
            r == SupportedCommands::spec_single(25, 6),
    {
        SupportedCommands::from_bit(25, 6)
    }

    /// The command LE_SET_ADVERTISING_DATA.
    pub fn le_set_advertising_data() -> (r: SupportedCommands)
        ensures
            r == SupportedCommands::spec_single(25, 7),
    {
        SupportedCommands::from_bit(25, 7)
    }

    /// The command LE_SET_SCAN_RESPONSE_DATA.
    pub fn le_set_scan_response_data() -> (r: SupportedCommands)
        ensures
            r == SupportedCommands::spec_single(26, 0),
    {
        SupportedCommands::from_bit(26, 0)
    }

    /// The command LE_SET_ADVERTISING_ENABLE.
    pub fn le_set_advertising_enable() -> (r: SupportedCommands)
        ensures
            r == SupportedCommands::spec_single(26, 1),
    {
        SupportedCommands::from_bit(26, 1)
    }

    /// The command LE_SET_SCAN_PARAMETERS.
    pub fn le_set_scan_parameters() -> (r: SupportedCommands)
        ensures
            r == SupportedCommands::spec_single(26, 2),
    {
        SupportedCommands::from_bit(26, 2)
    }

    /// The command LE_SET_SCAN_ENABLE.
    pub fn le_set_scan_enable() -> (r: SupportedCommands)
        ensures
            r == SupportedCommands::spec_single(26, 3),
    {
        SupportedCommands::from_bit(26, 3)
    }

    /// The command LE_CREATE_CONNECTION.
    pub fn le_create_connection() -> (r: SupportedCommands)
        ensures
            r == SupportedCommands::spec_single(26, 4),
    {
        SupportedCommands::from_bit(26, 4)
    }

    /// The command LE_CREATE_CONNECTION_CANCEL.
    pub fn le_create_connection_cancel() -> (r: SupportedCommands)
        ensures
            r == SupportedCommands::spec_single(26, 5),
    {
        SupportedCommands::from_bit(26, 5)
    }

    /// The command LE_READ_FILTER_ACCEPT_LIST_SIZE.
    pub fn le_read_filter_accept_list_size() -> (r: SupportedCommands)
        ensures
            r == SupportedCommands::spec_single(26, 6),
    {
        SupportedCommands::from_bit(26, 6)
    }

    /// The command LE_CLEAR_FILTER_ACCEPT_LIST.
    pub fn le_clear_filter_accept_list() -> (r: SupportedCommands)
        ensures
            r == SupportedCommands::spec_single(26, 7),
    {
        SupportedCommands::from_bit(26, 7)
    }

    /// The command LE_ADD_DEVICE_TO_FILTER_ACCEPT_LIST.
    pub fn le_add_device_to_filter_accept_list() -> (r: SupportedCommands)
        ensures
            r == SupportedCommands::spec_single(27, 0),
    {
        SupportedCommands::from_bit(27, 0)
    }

    /// The command LE_REMOVE_DEVICE_FROM_FILTER_ACCEPT_LIST.
    pub fn le_remove_device_from_filter_accept_list() -> (r: SupportedCommands)
        ensures
            r == SupportedCommands::spec_single(27, 1),
    {
        SupportedCommands::from_bit(27, 1)
    }

    /// The command LE_CONNECTION_UPDATE.
    pub fn le_connection_update() -> (r: SupportedCommands)
        ensures
            r == SupportedCommands::spec_single(27, 2),
    {
        SupportedCommands::from_bit(27, 2)
    }

    /// The command LE_SET_HOST_CHANNEL_QUALIFICATION.
    pub fn le_set_host_channel_qualification() -> (r: SupportedCommands)
        ensures
            r == SupportedCommands::spec_single(27, 3),
    {
        SupportedCommands::from_bit(27, 3)
    }

    /// The command LE_READ_CHANNEL_MAP.
    pub fn le_read_channel_map() -> (r: SupportedCommands)
        ensures
            r == SupportedCommands::spec_single(27, 4),
    {
        SupportedCommands::from_bit(27, 4)
    }

    /// The command LE_READ_REMOTE_FEATURES_PAGE_0.
    pub fn le_read_remote_features_page_0() -> (r: SupportedCommands)
        ensures
            r == SupportedCommands::spec_single(27, 5),
    {
        SupportedCommands::from_bit(27, 5)
    }

    /// The command LE_ENCRYPT.
    pub fn le_encrypt() -> (r: SupportedCommands)
        ensures
            r == SupportedCommands::spec_single(27, 6),
    {
        SupportedCommands::from_bit(27, 6)
    }

    /// The command LE_RAND.
    pub fn le_rand() -> (r: SupportedCommands)
        ensures
            r == SupportedCommands::spec_single(27, 7),
    {
        SupportedCommands::from_bit(27, 7)
    }

    /// The command LE_ENABLE_ENCRYPTION.
    pub fn le_enable_encryption() -> (r: SupportedCommands)
        ensures
            r == SupportedCommands::spec_single(28, 0),
    {
        SupportedCommands::from_bit(28, 0)
    }

    /// The command LE_LONG_TERM_KEY_REQUEST_REPLY.
    pub fn le_long_term_key_request_reply() -> (r: SupportedCommands)
        ensures
            r == SupportedCommands::spec_single(28, 1),
    {
        SupportedCommands::from_bit(28, 1)
    }

    /// The command LE_LONG_TERM_KEY_REQUEST_NEGATIVE_REPLY.
    pub fn le_long_term_key_request_negative_reply() -> (r: SupportedCommands)
        ensures
            r == SupportedCommands::spec_single(28, 2),
    {
        SupportedCommands::from_bit(28, 2)
    }

    /// The command LE_READ_SUPPORTED_STATES.
    pub fn le_read_supported_states() -> (r: SupportedCommands)
        ensures
            r == SupportedCommands::spec_single(28, 3),
    {
        SupportedCommands::from_bit(28, 3)
    }

    /// The command LE_RECEIVER_TEST.
    pub fn le_receiver_test() -> (r: SupportedCommands)
        ensures
            r == SupportedCommands::spec_single(28, 4),
    {
        SupportedCommands::from_bit(28, 4)
    }

    /// The command LE_TRANSMITTER_TEST.
    pub fn le_transmitter_test() -> (r: SupportedCommands)
        ensures
            r == SupportedCommands::spec_single(28, 5),
    {
        SupportedCommands::from_bit(28, 5)
    }

    /// The command LE_TEST_END.
    pub fn le_test_end() -> (r: SupportedCommands)
        ensures
            r == SupportedCommands::spec_single(28, 6),
    {
        SupportedCommands::from_bit(28, 6)
    }

    /// The command LE_ENABLE_MONITORING_ADVERTISERS.
    pub fn le_enable_monitoring_advertisers() -> (r: SupportedCommands)
        ensures
            r == SupportedCommands::spec_single(28, 7),
    {
        SupportedCommands::from_bit(28, 7)
    }

    /// The command LE_REMOTE_CONNECTION_PARAMETER_REQUEST_REPLY.
    pub fn le_remote_connection_parameter_request_reply() -> (r: SupportedCommands)
        ensures
            r == SupportedCommands::spec_single(33, 4),
    {
        SupportedCommands::from_bit(33, 4)
    }

    /// The command LE_REMOTE_CONNECTION_PARAMETER_REQUEST_NEGATIVE_REPLY.
    pub fn le_remote_connection_parameter_request_negative_reply() -> (r: SupportedCommands)
        ensures
            r == SupportedCommands::spec_single(33, 5),
    {
        SupportedCommands::from_bit(33, 5)
    }

    /// The command LE_SET_DATA_LENGTH.
    pub fn le_set_data_length() -> (r: SupportedCommands)
        ensures
            r == SupportedCommands::spec_single(33, 6),
    {
        SupportedCommands::from_bit(33, 6)
    }

    /// The command LE_READ_SUGGESTED_DEFAULT_DATA_LENGTH.
    pub fn le_read_suggested_default_data_length() -> (r: SupportedCommands)
        ensures
            r == SupportedCommands::spec_single(33, 7),
    {
        SupportedCommands::from_bit(33, 7)
    }

    /// The command LE_WRITE_SUGGESTED_DEFAULT_DATA_LENGTH.
    pub fn le_write_suggested_default_data_length() -> (r: SupportedCommands)
        ensures
            r == SupportedCommands::spec_single(34, 0),
    {
        SupportedCommands::from_bit(34, 0)
    }

    /// The command LE_READ_LOCAL_P256_PUBLIC_KEY.
    pub fn le_read_local_p256_public_key() -> (r: SupportedCommands)
        ensures
            r == SupportedCommands::spec_single(34, 1),
    {
        SupportedCommands::from_bit(34, 1)
    }

    /// The command LE_GENERATE_DHKEY.
    pub fn le_generate_dhkey() -> (r: SupportedCommands)
        ensures
            r == SupportedCommands::spec_single(34, 2),
    {
        SupportedCommands::from_bit(34, 2)
    }

    /// The command LE_ADD_DEVICE_TO_RESOLVING_LIST.
    pub fn le_add_device_to_resolving_list() -> (r: SupportedCommands)
        ensures
            r == SupportedCommands::spec_single(34, 3),
    {
        SupportedCommands::from_bit(34, 3)
    }

    /// The command LE_REMOVE_DEVICE_FROM_RESOLVING_LIST.
    pub fn le_remove_device_from_resolving_list() -> (r: SupportedCommands)
        ensures
            r == SupportedCommands::spec_single(34, 4),
    {
        SupportedCommands::from_bit(34, 4)
    }

    /// The command LE_CLEAR_RESOLVING_LIST.
    pub fn le_clear_resolving_list() -> (r: SupportedCommands)
        ensures
            r == SupportedCommands::spec_single(34, 5),
    {
        SupportedCommands::from_bit(34, 5)
    }

    /// The command LE_READ_RESOLVING_LIST_SIZE.
    pub fn le_read_resolving_list_size() -> (r: SupportedCommands)
        ensures
            r == SupportedCommands::spec_single(34, 6),
    {
        SupportedCommands::from_bit(34, 6)
    }

    /// The command LE_READ_PEER_RESOLVABLE_ADDRESS.
    pub fn le_read_peer_resolvable_address() -> (r: SupportedCommands)
        ensures
            r == SupportedCommands::spec_single(34, 7),
    {
        SupportedCommands::from_bit(34, 7)
    }

    /// The command LE_READ_LOCAL_RESOLVABLE_ADDRESS.
    pub fn le_read_local_resolvable_address() -> (r: SupportedCommands)
        ensures
            r == SupportedCommands::spec_single(35, 0),
    {
        SupportedCommands::from_bit(35, 0)
    }

    /// The command LE_SET_ADDRESS_RESOLUTION_ENABLE.
    pub fn le_set_address_resolution_enable() -> (r: SupportedCommands)
        ensures
            r == SupportedCommands::spec_single(35, 1),
    {
        SupportedCommands::from_bit(35, 1)
    }

    /// The command LE_SET_RESOLVABLE_PRIVATE_ADDRESS_TIMEOUT.
    pub fn le_set_resolvable_private_address_timeout() -> (r: SupportedCommands)
        ensures
            r == SupportedCommands::spec_single(35, 2),
    {
        SupportedCommands::from_bit(35, 2)
    }

    /// The command LE_READ_MAXIMUM_DATA_LENGTH.
    pub fn le_read_maximum_data_length() -> (r: SupportedCommands)
        ensures
            r == SupportedCommands::spec_single(35, 3),
    {
        SupportedCommands::from_bit(35, 3)
    }

    /// The command LE_READ_PH.
    pub fn le_read_ph() -> (r: SupportedCommands)
        ensures
            r == SupportedCommands::spec_single(35, 4),
    {
        SupportedCommands::from_bit(35, 4)
    }

    /// The command LE_SET_DEFAULT_PHY.
    pub fn le_set_default_phy() -> (r: SupportedCommands)
        ensures
            r == SupportedCommands::spec_single(35, 5),
    {
        SupportedCommands::from_bit(35, 5)
    }

    /// The command LE_SET_PHY.
    pub fn le_set_phy() -> (r: SupportedCommands)
        ensures
            r == SupportedCommands::spec_single(35, 6),
    {
        SupportedCommands::from_bit(35, 6)
    }

    /// The command LE_RECEIVER_TEST_V2.
    pub fn le_receiver_test_v2() -> (r: SupportedCommands)
        ensures
            r == SupportedCommands::spec_single(35, 7),
    {
        SupportedCommands::from_bit(35, 7)
    }

    /// The command LE_TRANSMITTER_TEST_V2.
    pub fn le_transmitter_test_v2() -> (r: SupportedCommands)
        ensures
            r == SupportedCommands::spec_single(36, 0),
    {
        SupportedCommands::from_bit(36, 0)
    }

    /// The command LE_SET_ADVERTISING_SET_RANDOM_ADDRESS.
    pub fn le_set_advertising_set_random_address() -> (r: SupportedCommands)
        ensures
            r == SupportedCommands::spec_single(36, 1),
    {
        SupportedCommands::from_bit(36, 1)
    }

    /// The command LE_SET_EXTENDED_ADVERTISING_PARAMETERS.
    pub fn le_set_extended_advertising_parameters() -> (r: SupportedCommands)
        ensures
            r == SupportedCommands::spec_single(36, 2),
    {
        SupportedCommands::from_bit(36, 2)
    }

    /// The command LE_SET_EXTENDED_ADVERTISING_DATA.
    pub fn le_set_extended_advertising_data() -> (r: SupportedCommands)
        ensures
            r == SupportedCommands::spec_single(36, 3),
    {
        SupportedCommands::from_bit(36, 3)
    }

    /// The command LE_SET_EXTENDED_SCAN_RESPONSE_DATA.
    pub fn le_set_extended_scan_response_data() -> (r: SupportedCommands)
        ensures
            r == SupportedCommands::spec_single(36, 4),
    {
        SupportedCommands::from_bit(36, 4)
    }

    /// The command LE_SET_EXTENDED_ADVERTISING_ENABLE.
    pub fn le_set_extended_advertising_enable() -> (r: SupportedCommands)
        ensures
            r == SupportedCommands::spec_single(36, 5),
    {
        SupportedCommands::from_bit(36, 5)
    }

    /// The command LE_READ_MAXIMUM_ADVERTISING_DATA_LENGTH.
    pub fn le_read_maximum_advertising_data_length() -> (r: SupportedCommands)
        ensures
            r == SupportedCommands::spec_single(36, 6),
    {
        SupportedCommands::from_bit(36, 6)
    }

    /// The command LE_READ_NUMBER_OF_SUPPORTED_ADVERTISING_SETS.
    pub fn le_read_number_of_supported_advertising_sets() -> (r: SupportedCommands)
        ensures
            r == SupportedCommands::spec_single(36, 7),
    {
        SupportedCommands::from_bit(36, 7)
    }

    /// The command LE_REMOVE_ADVERTISING_SET.
    pub fn le_remove_advertising_set() -> (r: SupportedCommands)
        ensures
            r == SupportedCommands::spec_single(37, 0),
    {
        SupportedCommands::from_bit(37, 0)
    }

    /// The command LE_CLEAR_ADVERTISING_SETS.
    pub fn le_clear_advertising_sets() -> (r: SupportedCommands)
        ensures
            r == SupportedCommands::spec_single(37, 1),
    {
        SupportedCommands::from_bit(37, 1)
    }

    /// The command LE_SET_PERIODIC_ADVERTISING_PARAMETERS.
    pub fn le_set_periodic_advertising_parameters() -> (r: SupportedCommands)
        ensures
            r == SupportedCommands::spec_single(37, 2),
    {
        SupportedCommands::from_bit(37, 2)
    }

    /// The command LE_SET_PERIODIC_ADVERTISING_DATA.
    pub fn le_set_periodic_advertising_data() -> (r: SupportedCommands)
        ensures
            r == SupportedCommands::spec_single(37, 3),
    {
        SupportedCommands::from_bit(37, 3)
    }

    /// The command LE_SET_PERIODIC_ADVERTISING_ENABLE.
    pub fn le_set_periodic_advertising_enable() -> (r: SupportedCommands)
        ensures
            r == SupportedCommands::spec_single(37, 4),
    {
        SupportedCommands::from_bit(37, 4)
    }

    /// The command LE_SET_EXTENDED_SCAN_PARAMETERS.
    pub fn le_set_extended_scan_parameters() -> (r: SupportedCommands)
        ensures
            r == SupportedCommands::spec_single(37, 5),
    {
        SupportedCommands::from_bit(37, 5)
    }

    /// The command LE_SET_EXTENDED_SCAN_ENABLE.
    pub fn le_set_extended_scan_enable() -> (r: SupportedCommands)
        ensures
            r == SupportedCommands::spec_single(37, 6),
    {
        SupportedCommands::from_bit(37, 6)
    }

    /// The command LE_EXTENDED_CREATE_CONNECTION.
    pub fn le_extended_create_connection() -> (r: SupportedCommands)
        ensures
            r == SupportedCommands::spec_single(37, 7),
    {
        SupportedCommands::from_bit(37, 7)
    }

    /// The command LE_PERIODIC_ADVERTISING_CREATE_SYNC.
    pub fn le_periodic_advertising_create_sync() -> (r: SupportedCommands)
        ensures
            r == SupportedCommands::spec_single(38, 0),
    {
        SupportedCommands::from_bit(38, 0)
    }

    /// The command LE_PERIODIC_ADVERTISING_CREATE_SYNC_CANCEL.
    pub fn le_periodic_advertising_create_sync_cancel() -> (r: SupportedCommands)
        ensures
            r == SupportedCommands::spec_single(38, 1),
    {
        SupportedCommands::from_bit(38, 1)
    }

    /// The command LE_PERIODIC_ADVERTISING_TERMINATE_SYNC.
    pub fn le_periodic_advertising_terminate_sync() -> (r: SupportedCommands)
        ensures
            r == SupportedCommands::spec_single(38, 2),
    {
        SupportedCommands::from_bit(38, 2)
    }

    /// The command LE_ADD_DEVICE_TO_PERIODIC_ADVERTISER_LIST.
    pub fn le_add_device_to_periodic_advertiser_list() -> (r: SupportedCommands)
        ensures
            r == SupportedCommands::spec_single(38, 3),
    {
        SupportedCommands::from_bit(38, 3)
    }

    /// The command LE_REMOVE_DEVICE_FROM_PERIODIC_ADVERTISER_LIST.
    pub fn le_remove_device_from_periodic_advertiser_list() -> (r: SupportedCommands)
        ensures
            r == SupportedCommands::spec_single(38, 4),
    {
        SupportedCommands::from_bit(38, 4)
    }

    /// The command LE_CLEAR_PERIODIC_ADVERTISER_LIST.
    pub fn le_clear_periodic_advertiser_list() -> (r: SupportedCommands)
        ensures
            r == SupportedCommands::spec_single(38, 5),
    {
        SupportedCommands::from_bit(38, 5)
    }

    /// The command LE_READ_PERIODIC_ADVERTISER_LIST_SIZE.
    pub fn le_read_periodic_advertiser_list_size() -> (r: SupportedCommands)
        ensures
            r == SupportedCommands::spec_single(38, 6),
    {
        SupportedCommands::from_bit(38, 6)
    }

    /// The command LE_READ_TRANSMIT_POWER.
    pub fn le_read_transmit_power() -> (r: SupportedCommands)
        ensures
            r == SupportedCommands::spec_single(38, 7),
    {
        SupportedCommands::from_bit(38, 7)
    }

    /// The command LE_READ_RF_PATH_COMPENSATION.
    pub fn le_read_rf_path_compensation() -> (r: SupportedCommands)
        ensures
            r == SupportedCommands::spec_single(39, 0),
    {
        SupportedCommands::from_bit(39, 0)
    }

    /// The command LE_WRITE_RF_PATH_COMPENSATION.
    pub fn le_write_rf_path_compensation() -> (r: SupportedCommands)
        ensures
            r == SupportedCommands::spec_single(39, 1),
    {
        SupportedCommands::from_bit(39, 1)
    }

    /// The command LE_SET_PRIVACY_MODE.
    pub fn le_set_privacy_mode() -> (r: SupportedCommands)
        ensures
            r == SupportedCommands::spec_single(39, 2),
    {
        SupportedCommands::from_bit(39, 2)
    }

    /// The command LE_RECEIVER_TEST_V3.
    pub fn le_receiver_test_v3() -> (r: SupportedCommands)
        ensures
            r == SupportedCommands::spec_single(39, 3),
    {
        SupportedCommands::from_bit(39, 3)
    }

    /// The command LE_TRANSMITTER_TEST_V3.
    pub fn le_transmitter_test_v3() -> (r: SupportedCommands)
        ensures
            r == SupportedCommands::spec_single(39, 4),
    {
        SupportedCommands::from_bit(39, 4)
    }

    /// The command LE_SET_CONNECTIONLESS_CTE_TRANSMIT_PARAMETERS.
    pub fn le_set_connectionless_cte_transmit_parameters() -> (r: SupportedCommands)
        ensures
            r == SupportedCommands::spec_single(39, 5),
    {
        SupportedCommands::from_bit(39, 5)
    }

    /// The command LE_SET_CONNECTIONLESS_CTE_TRANSMIT_ENABLE.
    pub fn le_set_connectionless_cte_transmit_enable() -> (r: SupportedCommands)
        ensures
            r == SupportedCommands::spec_single(39, 6),
    {
        SupportedCommands::from_bit(39, 6)
    }

    /// The command LE_SET_CONNECTIONLESS_IQ_SAMPLING_ENABLE.
    pub fn le_set_connectionless_iq_sampling_enable() -> (r: SupportedCommands)
        ensures
            r == SupportedCommands::spec_single(39, 7),
    {
        SupportedCommands::from_bit(39, 7)
    }

    /// The command LE_SET_CONNECTION_CTE_RECEIVE_PARAMETERS.
    pub fn le_set_connection_cte_receive_parameters() -> (r: SupportedCommands)
        ensures
            r == SupportedCommands::spec_single(40, 0),
    {
        SupportedCommands::from_bit(40, 0)
    }

    /// The command LE_SET_CONNECTION_CTE_TRANSMIT_PARAMETERS.
    pub fn le_set_connection_cte_transmit_parameters() -> (r: SupportedCommands)
        ensures
            r == SupportedCommands::spec_single(40, 1),
    {
        SupportedCommands::from_bit(40, 1)
    }

    /// The command LE_CONNECTION_CTE_REQUEST_ENABLE.
    pub fn le_connection_cte_request_enable() -> (r: SupportedCommands)
        ensures
            r == SupportedCommands::spec_single(40, 2),
    {
        SupportedCommands::from_bit(40, 2)
    }

    /// The command LE_CONNECTION_CTE_RESPONSE_ENABLE.
    pub fn le_connection_cte_response_enable() -> (r: SupportedCommands)
        ensures
            r == SupportedCommands::spec_single(40, 3),
    {
        SupportedCommands::from_bit(40, 3)
    }

    /// The command LE_READ_ANTENNA_INFORMATION.
    pub fn le_read_antenna_information() -> (r: SupportedCommands)
        ensures
            r == SupportedCommands::spec_single(40, 4),
    {
        SupportedCommands::from_bit(40, 4)
    }

    /// The command LE_SET_PERIODIC_ADVERTISING_RECEIVE_ENABLE.
    pub fn le_set_periodic_advertising_receive_enable() -> (r: SupportedCommands)
        ensures
            r == SupportedCommands::spec_single(40, 5),
    {
        SupportedCommands::from_bit(40, 5)
    }

    /// The command LE_PERIODIC_ADVERTISING_SYNC_TRANSFER.
    pub fn le_periodic_advertising_sync_transfer() -> (r: SupportedCommands)
        ensures
            r == SupportedCommands::spec_single(40, 6),
    {
        SupportedCommands::from_bit(40, 6)
    }

    /// The command LE_PERIODIC_ADVERTISING_SET_INFO_TRANSFER.
    pub fn le_periodic_advertising_set_info_transfer() -> (r: SupportedCommands)
        ensures
            r == SupportedCommands::spec_single(40, 7),
    {
        SupportedCommands::from_bit(40, 7)
    }

    /// The command LE_SET_PERIODIC_ADVERTISING_SYNC_TRANSFER_PARAMETERS.
    pub fn le_set_periodic_advertising_sync_transfer_parameters() -> (r: SupportedCommands)
        ensures
            r == SupportedCommands::spec_single(41, 0),
    {
        SupportedCommands::from_bit(41, 0)
    }

    /// The command LE_SET_DEFAULT_PERIODIC_ADVERTISING_SYNC_TRANSFER_PARAMETERS.
    pub fn le_set_default_periodic_advertising_sync_transfer_parameters() -> (r: SupportedCommands)
        ensures
            r == SupportedCommands::spec_single(41, 1),
    {
        SupportedCommands::from_bit(41, 1)
    }

    /// The command LE_GENERATE_DHKEY_V2.
    pub fn le_generate_dhkey_v2() -> (r: SupportedCommands)
        ensures
            r == SupportedCommands::spec_single(41, 2),
    {
        SupportedCommands::from_bit(41, 2)
    }

    /// The command LE_MODIFY_SLEEP_CLOCK_ACCURACY.
    pub fn le_modify_sleep_clock_accuracy() -> (r: SupportedCommands)
        ensures
            r == SupportedCommands::spec_single(41, 4),
    {
        SupportedCommands::from_bit(41, 4)
    }

    /// The command LE_READ_BUFFER_SIZE_V2.
    pub fn le_read_buffer_size_v2() -> (r: SupportedCommands)
        ensures
            r == SupportedCommands::spec_single(41, 5),
    {
        SupportedCommands::from_bit(41, 5)
    }

    /// The command LE_READ_ISO_TX_SYNC.
    pub fn le_read_iso_tx_sync() -> (r: SupportedCommands)
        ensures
            r == SupportedCommands::spec_single(41, 6),
    {
        SupportedCommands::from_bit(41, 6)
    }

    /// The command LE_SET_CIG_PARAMETERS.
    pub fn le_set_cig_parameters() -> (r: SupportedCommands)
        ensures
            r == SupportedCommands::spec_single(41, 7),
    {
        SupportedCommands::from_bit(41, 7)
    }

    /// The command LE_SET_CIG_PARAMETERS_TEST.
    pub fn le_set_cig_parameters_test() -> (r: SupportedCommands)
        ensures
            r == SupportedCommands::spec_single(42, 0),
    {
        SupportedCommands::from_bit(42, 0)
    }

    /// The command LE_CREATE_CIS.
    pub fn le_create_cis() -> (r: SupportedCommands)
        ensures
            r == SupportedCommands::spec_single(42, 1),
    {
        SupportedCommands::from_bit(42, 1)
    }

    /// The command LE_REMOVE_CIG.
    pub fn le_remove_cig() -> (r: SupportedCommands)
        ensures
            r == SupportedCommands::spec_single(42, 2),
    {
        SupportedCommands::from_bit(42, 2)
    }

    /// The command LE_ACCEPT_CIS_REQUEST.
    pub fn le_accept_cis_request() -> (r: SupportedCommands)
        ensures
            r == SupportedCommands::spec_single(42, 3),
    {
        SupportedCommands::from_bit(42, 3)
    }

    /// The command LE_REJECT_CIS_REQUEST.
    pub fn le_reject_cis_request() -> (r: SupportedCommands)
        ensures
            r == SupportedCommands::spec_single(42, 4),
    {
        SupportedCommands::from_bit(42, 4)
    }

    /// The command LE_CREATE_BIG.
    pub fn le_create_big() -> (r: SupportedCommands)
        ensures
            r == SupportedCommands::spec_single(42, 5),
    {
        SupportedCommands::from_bit(42, 5)
    }

    /// The command LE_CREATE_BIG_TEST.
    pub fn le_create_big_test() -> (r: SupportedCommands)
        ensures
            r == SupportedCommands::spec_single(42, 6),
    {
        SupportedCommands::from_bit(42, 6)
    }

    /// The command LE_TERMINATE_BIG.
    pub fn le_terminate_big() -> (r: SupportedCommands)
        ensures
            r == SupportedCommands::spec_single(42, 7),
    {
        SupportedCommands::from_bit(42, 7)
    }

    /// The command LE_BIG_CREATE_SYNC.
    pub fn le_big_create_sync() -> (r: SupportedCommands)
        ensures
            r == SupportedCommands::spec_single(43, 0),
    {
        SupportedCommands::from_bit(43, 0)
    }

    /// The command LE_BIG_TERMINATE_SYNC.
    pub fn le_big_terminate_sync() -> (r: SupportedCommands)
        ensures
            r == SupportedCommands::spec_single(43, 1),
    {
        SupportedCommands::from_bit(43, 1)
    }

    /// The command LE_REQUEST_PEER_SCA.
    pub fn le_request_peer_sca() -> (r: SupportedCommands)
        ensures
            r == SupportedCommands::spec_single(43, 2),
    {
        SupportedCommands::from_bit(43, 2)
    }

    /// The command LE_SETUP_ISO_DATA_PATH.
    pub fn le_setup_iso_data_path() -> (r: SupportedCommands)
        ensures
            r == SupportedCommands::spec_single(43, 3),
    {
        SupportedCommands::from_bit(43, 3)
    }

    /// The command LE_REMOVE_ISO_DATA_PATH.
    pub fn le_remove_iso_data_path() -> (r: SupportedCommands)
        ensures
            r == SupportedCommands::spec_single(43, 4),
    {
        SupportedCommands::from_bit(43, 4)
    }

    /// The command LE_ISO_TRANSMIT_TEST.
    pub fn le_iso_transmit_test() -> (r: SupportedCommands)
        ensures
            r == SupportedCommands::spec_single(43, 5),
    {
        SupportedCommands::from_bit(43, 5)
    }

    /// The command LE_ISO_RECEIVE_TEST.
    pub fn le_iso_receive_test() -> (r: SupportedCommands)
        ensures
            r == SupportedCommands::spec_single(43, 6),
    {
        SupportedCommands::from_bit(43, 6)
    }

    /// The command LE_ISO_READ_TEST_COUNTERS.
    pub fn le_iso_read_test_counters() -> (r: SupportedCommands)
        ensures
            r == SupportedCommands::spec_single(43, 7),
    {
        SupportedCommands::from_bit(43, 7)
    }

    /// The command LE_ISO_TEST_END.
    pub fn le_iso_test_end() -> (r: SupportedCommands)
        ensures
            r == SupportedCommands::spec_single(44, 0),
    {
        SupportedCommands::from_bit(44, 0)
    }

    /// The command LE_SET_HOST_FEATURE.
    pub fn le_set_host_feature() -> (r: SupportedCommands)
        ensures
            r == SupportedCommands::spec_single(44, 1),
    {
        SupportedCommands::from_bit(44, 1)
    }

    /// The command LE_READ_ISO_LINK_QUALITY.
    pub fn le_read_iso_link_quality() -> (r: SupportedCommands)
        ensures
            r == SupportedCommands::spec_single(44, 2),
    {
        SupportedCommands::from_bit(44, 2)
    }

    /// The command LE_ENHANCED_READ_TRANSMIT_POWER_LEVEL.
    pub fn le_enhanced_read_transmit_power_level() -> (r: SupportedCommands)
        ensures
            r == SupportedCommands::spec_single(44, 3),
    {
        SupportedCommands::from_bit(44, 3)
    }

    /// The command LE_READ_REMOTE_TRANSMIT_POWER_LEVEL.
    pub fn le_read_remote_transmit_power_level() -> (r: SupportedCommands)
        ensures
            r == SupportedCommands::spec_single(44, 4),
    {
        SupportedCommands::from_bit(44, 4)
    }

    /// The command LE_SET_PATH_LOSS_REPORTING_PARAMETERS.
    pub fn le_set_path_loss_reporting_parameters() -> (r: SupportedCommands)
        ensures
            r == SupportedCommands::spec_single(44, 5),
    {
        SupportedCommands::from_bit(44, 5)
    }

    /// The command LE_SET_PATH_LOSS_REPORTING_ENABLE.
    pub fn le_set_path_loss_reporting_enable() -> (r: SupportedCommands)
        ensures
            r == SupportedCommands::spec_single(44, 6),
    {
        SupportedCommands::from_bit(44, 6)
    }

    /// The command LE_SET_TRANSMIT_POWER_REPORTING_ENABLE.
    pub fn le_set_transmit_power_reporting_enable() -> (r: SupportedCommands)
        ensures
            r == SupportedCommands::spec_single(44, 7),
    {
        SupportedCommands::from_bit(44, 7)
    }

    /// The command LE_TRANSMITTER_TEST_V4.
    pub fn le_transmitter_test_v4() -> (r: SupportedCommands)
        ensures
            r == SupportedCommands::spec_single(45, 0),
    {
        SupportedCommands::from_bit(45, 0)
    }

    /// The command LE_SET_DATA_RELATED_ADDRESS_CHANGES.
    pub fn le_set_data_related_address_changes() -> (r: SupportedCommands)
        ensures
            r == SupportedCommands::spec_single(45, 6),
    {
        SupportedCommands::from_bit(45, 6)
    }

    /// The command LE_SET_DEFAULT_SUBRATE.
    pub fn le_set_default_subrate() -> (r: SupportedCommands)
        ensures
            r == SupportedCommands::spec_single(46, 0),
    {
        SupportedCommands::from_bit(46, 0)
    }

    /// The command LE_SUBRATE_REQUEST.
    pub fn le_subrate_request() -> (r: SupportedCommands)
        ensures
            r == SupportedCommands::spec_single(46, 1),
    {
        SupportedCommands::from_bit(46, 1)
    }

    /// The command LE_SET_EXTENDED_ADVERTISING_PARAMETERS_V2.
    pub fn le_set_extended_advertising_parameters_v2() -> (r: SupportedCommands)
        ensures
            r == SupportedCommands::spec_single(46, 2),
    {
        SupportedCommands::from_bit(46, 2)
    }

    /// The command LE_SET_DECISION_DATA.
    pub fn le_set_decision_data() -> (r: SupportedCommands)
        ensures
            r == SupportedCommands::spec_single(46, 3),
    {
        SupportedCommands::from_bit(46, 3)
    }

    /// The command LE_SET_DECISION_INSTRUCTIONS.
    pub fn le_set_decision_instructions() -> (r: SupportedCommands)
        ensures
            r == SupportedCommands::spec_single(46, 4),
    {
        SupportedCommands::from_bit(46, 4)
    }

    /// The command LE_SET_PERIODIC_ADVERTISING_SUBEVENT_DATA.
    pub fn le_set_periodic_advertising_subevent_data() -> (r: SupportedCommands)
        ensures
            r == SupportedCommands::spec_single(46, 5),
    {
        SupportedCommands::from_bit(46, 5)
    }

    /// The command LE_SET_PERIODIC_ADVERTISING_RESPONSE_DATA.
    pub fn le_set_periodic_advertising_response_data() -> (r: SupportedCommands)
        ensures
            r == SupportedCommands::spec_single(46, 6),
    {
        SupportedCommands::from_bit(46, 6)
    }

    /// The command LE_SET_PERIODIC_SYNC_SUBEVENT.
    pub fn le_set_periodic_sync_subevent() -> (r: SupportedCommands)
        ensures
            r == SupportedCommands::spec_single(46, 7),
    {
        SupportedCommands::from_bit(46, 7)
    }

    /// The command LE_EXTENDED_CREATE_CONNECTION_V2.
    pub fn le_extended_create_connection_v2() -> (r: SupportedCommands)
        ensures
            r == SupportedCommands::spec_single(47, 0),
    {
        SupportedCommands::from_bit(47, 0)
    }

    /// The command LE_SET_PERIODIC_ADVERTISING_PARAMETERS_V2.
    pub fn le_set_periodic_advertising_parameters_v2() -> (r: SupportedCommands)
        ensures
            r == SupportedCommands::spec_single(47, 1),
    {
        SupportedCommands::from_bit(47, 1)
    }

    /// The command LE_READ_ALL_LOCAL_SUPPORTED_FEATURES.
    pub fn le_read_all_local_supported_features() -> (r: SupportedCommands)
        ensures
            r == SupportedCommands::spec_single(47, 2),
    {
        SupportedCommands::from_bit(47, 2)
    }

    /// The command LE_READ_ALL_REMOTE_FEATURES.
    pub fn le_read_all_remote_features() -> (r: SupportedCommands)
        ensures
            r == SupportedCommands::spec_single(47, 3),
    {
        SupportedCommands::from_bit(47, 3)
    }

    /// The command LE_SET_HOST_FEATURE_V2.
    pub fn le_set_host_feature_v2() -> (r: SupportedCommands)
        ensures
            r == SupportedCommands::spec_single(47, 4),
    {
        SupportedCommands::from_bit(47, 4)
    }

    /// The command LE_ADD_DEVICE_TO_MONITORED_ADVERTISERS_LIST.
    pub fn le_add_device_to_monitored_advertisers_list() -> (r: SupportedCommands)
        ensures
            r == SupportedCommands::spec_single(47, 5),
    {
        SupportedCommands::from_bit(47, 5)
    }

    /// The command LE_REMOVE_DEVICE_FROM_MONITORED_ADVERTISERS_LIST.
    pub fn le_remove_device_from_monitored_advertisers_list() -> (r: SupportedCommands)
        ensures
            r == SupportedCommands::spec_single(47, 6),
    {
        SupportedCommands::from_bit(47, 6)
    }

    /// The command LE_CLEAR_MONITORED_ADVERTISERS_LIST.
    pub fn le_clear_monitored_advertisers_list() -> (r: SupportedCommands)
        ensures
            r == SupportedCommands::spec_single(47, 7),
    {
        SupportedCommands::from_bit(47, 7)
    }

    /// The command LE_READ_MONITORED_ADVERTISERS_LIST_SIZE.
    pub fn le_read_monitored_advertisers_list_size() -> (r: SupportedCommands)
        ensures
            r == SupportedCommands::spec_single(48, 0),
    {
        SupportedCommands::from_bit(48, 0)
    }

    /// The command LE_FRAME_SPACE_UPDATE.
    pub fn le_frame_space_update() -> (r: SupportedCommands)
        ensures
            r == SupportedCommands::spec_single(48, 1),
    {
        SupportedCommands::from_bit(48, 1)
    }

    /// The 64 octets of the set.
    pub closed spec fn spec_bytes(self) -> Seq<u8> {
        self.bytes@
    }

    /// The set of one command, bit `bit` of octet `octet`.
    pub open spec fn spec_single(octet: int, bit: u8) -> SupportedCommands {
        SupportedCommands::spec_from_bytes(SupportedCommands::spec_single_bytes(octet, bit))
    }

    /// The octets of the set of one command, bit `bit` of octet `octet`.
    pub open spec fn spec_single_bytes(octet: int, bit: u8) -> Seq<u8> {
        Seq::new(64, |i: int| if i == octet { 1u8 << bit } else { 0u8 })
    }

    /// The set holding the given 64 octets.
    pub closed spec fn spec_from_bytes(s: Seq<u8>) -> SupportedCommands {
        SupportedCommands { bytes: crate::bytes::spec_array64(s) }
    }

    /// The set of one command, bit `bit` of octet `octet`.
    pub fn from_bit(octet: usize, bit: u8) -> (r: SupportedCommands)
        requires
            octet < 64,
            bit < 8,
        ensures
            r == SupportedCommands::spec_single(octet as int, bit),
            r.spec_bytes() == SupportedCommands::spec_single_bytes(octet as int, bit),
    {
        let mut bytes = [0u8; 64];
        bytes[octet] = 1u8 << bit;
        let r = SupportedCommands { bytes };
        proof {
            assert(bytes@ =~= SupportedCommands::spec_single_bytes(octet as int, bit));
            crate::bytes::lemma_array64_of_bytes(bytes);
        }
        r
    }

    /// The set holding the given 64 octets.
    pub fn from_bytes(bytes: [u8; 64]) -> (r: SupportedCommands)
        ensures
            r.spec_bytes() == bytes@,
            r == SupportedCommands::spec_from_bytes(bytes@),
    {
        proof {
            crate::bytes::lemma_array64_of_bytes(bytes);
        }
        SupportedCommands { bytes }
    }

    /// The empty set.
    pub fn empty() -> (r: SupportedCommands)
        ensures
            r.spec_bytes() == Seq::new(64, |i: int| 0u8),
    {
        let r = SupportedCommands { bytes: [0u8; 64] };
        assert(r.bytes@ =~= Seq::new(64, |i: int| 0u8));
        r
    }

    /// The 64 octets of the set.
    pub fn bits(&self) -> (r: [u8; 64])
        ensures
            r@ == self.spec_bytes(),
    {
        self.bytes
    }

    /// Whether no command is set.
    pub fn is_empty(&self) -> (r: bool)
        ensures
            r == (forall|i: int| 0 <= i < 64 ==> self.spec_bytes()[i] == 0),
    {
        let mut i: usize = 0;
        while i < 64
            invariant
                i <= 64,
                self.bytes@.len() == 64,
                forall|j: int| 0 <= j < i ==> self.bytes@[j] == 0,
            decreases 64 - i,
        {
            if self.bytes[i] != 0 {
                assert(self.spec_bytes()[i as int] != 0);
                return false;
            }
            i += 1;
        }
        true
    }

    /// Whether every command of `other` is set.
    pub fn contains(&self, other: &SupportedCommands) -> (r: bool)
        ensures
            r == (forall|i: int|
                0 <= i < 64 ==> self.spec_bytes()[i] & other.spec_bytes()[i] == other.spec_bytes()[i]),
    {
        let mut i: usize = 0;
        while i < 64
            invariant
                i <= 64,
                self.bytes@.len() == 64,
                other.bytes@.len() == 64,
                forall|j: int|
                    0 <= j < i ==> self.bytes@[j] & other.bytes@[j] == other.bytes@[j],
            decreases 64 - i,
        {
            if self.bytes[i] & other.bytes[i] != other.bytes[i] {
                assert(self.spec_bytes()[i as int] & other.spec_bytes()[i as int] != other.spec_bytes()[i as int]);
                return false;
            }
            i += 1;
        }
        true
    }

    /// The commands set in either set.
    pub open spec fn spec_union(a: SupportedCommands, b: SupportedCommands) -> SupportedCommands {
        SupportedCommands::spec_from_bytes(
            Seq::new(64, |i: int| a.spec_bytes()[i] | b.spec_bytes()[i]),
        )
    }

    /// The commands set in either set.
    pub fn union(self, other: SupportedCommands) -> (r: SupportedCommands)
        ensures
            r == SupportedCommands::spec_union(self, other),
            r.spec_bytes() == Seq::new(64, |i: int| self.spec_bytes()[i] | other.spec_bytes()[i]),
    {
        let mut bytes = self.bytes;
        let mut i: usize = 0;
        while i < 64
            invariant
                i <= 64,
                bytes@.len() == 64,
                self.bytes@.len() == 64,
                other.bytes@.len() == 64,
                forall|j: int| 0 <= j < i ==> bytes@[j] == self.bytes@[j] | other.bytes@[j],
                forall|j: int| i <= j < 64 ==> bytes@[j] == self.bytes@[j],
            decreases 64 - i,
        {
            bytes[i] = bytes[i] | other.bytes[i];
            i += 1;
        }
        proof {
            assert(bytes@ =~= Seq::new(64, |i: int| self.bytes@[i] | other.bytes@[i]));
            crate::bytes::lemma_array64_of_bytes(bytes);
        }
        SupportedCommands { bytes }
    }

    /// Sets are determined by their octets.
    pub proof fn lemma_spec_bytes_injective(a: SupportedCommands, b: SupportedCommands)
        ensures
            a.spec_bytes() == b.spec_bytes() ==> a == b,
    {
        if a.spec_bytes() == b.spec_bytes() {
            assert(a.bytes =~= b.bytes);
        }
    }
}

impl Default for SupportedCommands {
    fn default() -> (r: SupportedCommands)
        ensures
            r.spec_bytes() == Seq::new(64, |i: int| 0u8),
    {
        SupportedCommands::empty()
    }
}

impl From<[u8; 64]> for SupportedCommands {
    fn from(value: [u8; 64]) -> SupportedCommands {
        SupportedCommands::from_bytes(value)
    }
}

impl vstd::std_specs::convert::FromSpecImpl<[u8; 64]> for SupportedCommands {
    open spec fn obeys_from_spec() -> bool {
        true
    }

    open spec fn from_spec(v: [u8; 64]) -> SupportedCommands {
        SupportedCommands::spec_from_bytes(v@)
    }
}

impl core::ops::BitOr for SupportedCommands {
    type Output = SupportedCommands;

    fn bitor(self, rhs: SupportedCommands) -> SupportedCommands {
        self.union(rhs)
    }
}

impl vstd::std_specs::ops::BitOrSpecImpl for SupportedCommands {
    open spec fn obeys_bitor_spec() -> bool {
        true
    }

    open spec fn bitor_req(self, rhs: SupportedCommands) -> bool {
        true
    }

    open spec fn bitor_spec(self, rhs: SupportedCommands) -> SupportedCommands {
        SupportedCommands::spec_union(self, rhs)
    }
}

} // verus!
