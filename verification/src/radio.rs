//! The radio co-processor: its interface as this core sees it, and the BLE
//! advertising path built on it.

pub mod rfc;
pub mod ble;
