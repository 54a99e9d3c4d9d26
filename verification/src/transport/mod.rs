//! Transport-side logic: the raw capture format, the scripted mock transport
//! and adapter-name matching for BLE scanning.

pub mod logging;
pub mod mock;
pub mod ble;
