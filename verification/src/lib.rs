//! Discovery and transport binding for USB devices in firmware-update (DFU) mode.
//!
//! The crate decides; the caller performs the USB traffic. It decodes request-type
//! bytes, finds the DFU functional descriptor in a configuration's descriptor bytes,
//! picks the configuration, interface and alternate setting to bind to, derives the
//! protocol variant from the alternate setting's string, and lays out every control
//! transfer that a bound device sends.

pub mod request;
pub mod descriptor;
pub mod error;
pub mod outside;
pub mod protocol;
pub mod device;

pub use crate::device::{AltSetting, Configuration, DeviceId, DfuNusb, InterfaceGroup, Target};
pub use crate::descriptor::{DescriptorError, FunctionalDescriptor};
pub use crate::error::TransportError;
pub use crate::protocol::ProtocolVariant;
pub use crate::request::{explode_request_type, ControlRequest, ControlType, Direction, Recipient};
