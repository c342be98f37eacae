//! Host Controller Interface (HCI) of a Bluetooth Low Energy host, with its behaviour stated and
//! proved: the values carried by HCI commands and events, their encodings and parsers, and the
//! decisions the host takes on what it reads from the Controller.
use vstd::prelude::*;

pub mod acl_data;
pub mod advertising;
pub mod advertising_data;
pub mod advertising_parameters;
pub mod bytes;
pub mod command;
pub mod common;
pub mod device_address;
pub mod connection;
pub mod connection_interval;
pub mod encode;
pub mod error;
pub mod error_code;
pub mod hci;
pub mod event;
pub mod event_mask;
pub mod hci_buffer;
pub mod le_states;
pub mod packet;
pub mod rssi;
pub mod scan_interval;
pub mod scan_parameters;
pub mod scanning;
pub mod supported_commands;
pub mod supported_features;
pub mod supported_le_features;
pub mod supported_le_states;
pub mod traits;

pub use acl_data::{AclData, BroadcastFlag, PacketBoundaryFlag};
pub use advertising::advertising_enable::AdvertisingEnable;
pub use advertising_data::{AdvertisingData, ScanResponseData};
pub use advertising_parameters::{
    AdvertisingChannelMap, AdvertisingFilterPolicy, AdvertisingInterval, AdvertisingIntervalRange,
    AdvertisingParameters, AdvertisingType,
};
pub use command::{Command, CommandOpCode, CommandPacket};
pub use common::le_event_mask::LeEventMask;
pub use common::le_filter_accept_list_address::LeFilterAcceptListAddress;
pub use common::own_address_type::OwnAddressType;
pub use common::tx_power_level::TxPowerLevel;
pub use connection_interval::ConnectionInterval;
pub use device_address::{
    DeviceAddress, PublicDeviceAddress, RandomAddress, RandomNonResolvablePrivateAddress,
    RandomResolvablePrivateAddress, RandomStaticDeviceAddress,
};
pub use error::Error;
pub use error_code::ErrorCode;
pub use event::command_complete::CommandCompleteEvent;
pub use event::event_list::EventList;
pub use event::le_advertising_report::{
    LeAdvertisingReport, LeAdvertisingReportAddress, LeAdvertisingReportData,
    LeAdvertisingReportEventType, LeAdvertisingReportList,
};
pub use event::le_meta::LeMetaEvent;
pub use event::Event;
pub use event_mask::EventMask;
pub use hci::HciState;
pub use le_states::{LeCombinedState, LeSingleState, LeState};
pub use packet::{Packet, PacketType};
pub use rssi::Rssi;
pub use scan_parameters::{ScanInterval, ScanParameters, ScanType, ScanWindow, ScanningFilterPolicy};
pub use scanning::scan_enable::{FilterDuplicates, ScanEnable};
pub use supported_commands::SupportedCommands;
pub use supported_features::SupportedFeatures;
pub use supported_le_features::SupportedLeFeatures;
pub use supported_le_states::SupportedLeStates;
pub use traits::HciDriverError;

verus! {
} // verus!
