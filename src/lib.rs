//! Enumeration of attached Human Interface Devices as plain descriptive records.
//!
//! `device` holds the record and descriptor types and the projection of one
//! descriptor into a record; `listing` turns a whole host snapshot into the
//! all-or-nothing result; `host` asks the HID subsystem for that snapshot.

pub mod device;
pub mod host;
pub mod listing;

pub use device::{to_record, Descriptor, DeviceInfo, Field};
pub use host::get_hid_devices;
pub use listing::{list_devices, records_from, EnumerationError};

