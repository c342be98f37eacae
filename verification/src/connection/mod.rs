pub mod connection_handle;
pub mod latency;
pub mod reason;
pub mod supervision_timeout;
pub mod connection_event_length;
pub mod connection_interval;
pub mod connection_peer_address;
pub mod connection_parameters;
pub mod connection_update_parameters;
