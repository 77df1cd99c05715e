//! Decision logic for a Bluetooth Low Energy toggling utility.
//!
//! The utility scans for a peripheral that advertises one GATT service,
//! connects to it, waits for its services to appear, walks its attribute
//! tree and then writes two fixed payloads to one characteristic, in turn,
//! until a write fails. Every Bluetooth call is made by the caller; this
//! library decides what to do with the answers.

pub mod fallback;
pub mod scan;
pub mod toggle;
pub mod driver;
pub mod laws;
