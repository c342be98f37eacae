pub mod advertising_enable;
