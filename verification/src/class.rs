//! USB class definitions: CDC, DFU, HID and Mass Storage.
pub mod cdc;
pub mod dfu;
pub mod hid;
pub mod msc;
