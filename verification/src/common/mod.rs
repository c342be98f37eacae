pub mod own_address_type;
pub mod tx_power_level;
pub mod peer_address_type;
pub mod le_event_mask;
pub mod le_filter_accept_list_address;
