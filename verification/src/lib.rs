//! Discovery of USB-attached serial and debugger peripherals.
//!
//! The library identifies a device by its stable topological address
//! (`"<busnum>-<devpath>"`), reads its identity attributes from a snapshot of
//! the sysfs device tree, classifies it against a known-device table and, for
//! serial-capable devices, resolves the `/dev/` node to open.  All decisions
//! are made over plain values handed in by the caller, so the search logic is
//! independent of the live filesystem.

pub mod address;
pub mod error;
pub mod resolve;
pub mod sysfs;
pub mod text;
pub mod uart;
pub mod usb;
