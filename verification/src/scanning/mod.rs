pub mod scan_enable;
pub mod scan_window;
pub mod scan_parameters;
