//! The reasons for which discovery, binding or a transfer fails.

use vstd::prelude::*;
use vstd::string::StringExecFns;
use crate::descriptor::DescriptorError;

verus! {

/// Every way in which finding, binding or driving a device fails.
#[derive(Debug)]
pub enum TransportError {
    /// No attached device has the vendor and product id, or it could not be opened.
    CouldNotOpenDevice,
    /// The protocol variant could not be made from the interface string and version.
    Dfu(dfu_core::Error),
    /// The operating system refused a claim, a setting, a reset or a string.
    Io(std::io::Error),
    /// A control transfer failed or ran out of time.
    Transfer(nusb::transfer::TransferError),
    /// The device has no table of string languages.
    MissingLanguage,
    /// The configuration with the functional descriptor lacks the interface asked for.
    InvalidInterface,
    /// The interface lacks the alternate setting asked for.
    InvalidAlt,
    /// Bytes that carry the functional descriptor's type are no functional descriptor.
    FunctionalDescriptor(DescriptorError),
    /// No configuration has both a functional descriptor and an interface string.
    NoDfuCapableDeviceFound,
}

/// Writes a `dfu_core::Error` out with its own `Display`. Nothing is claimed of the text.
#[verifier::external_body]
fn dfu_error_text(e: &dfu_core::Error) -> String {
    format!("{}", e)
}

/// Writes a `std::io::Error` out with its own `Display`. Nothing is claimed of the text.
#[verifier::external_body]
fn io_error_text(e: &std::io::Error) -> String {
    format!("{}", e)
}

/// Writes a `nusb::transfer::TransferError` out with its own `Display`. Nothing is
/// claimed of the text.
#[verifier::external_body]
fn transfer_error_text(e: &nusb::transfer::TransferError) -> String {
    format!("{}", e)
}

/// Writes a descriptor error out as `dfu_core::functional_descriptor::Error` does with
/// its `Display`. Nothing is claimed of the text.
#[verifier::external_body]
fn descriptor_error_text(e: &DescriptorError) -> String {
    match e {
        DescriptorError::DataTooShort(n) => format!(
            "{}",
            dfu_core::functional_descriptor::Error::DataTooShort(*n)
        ),
    }
}

impl TransportError {
    /// What went wrong, in words. The five kinds that carry nothing have a fixed
    /// sentence each; the others speak through what they carry.
    pub fn description(&self) -> (r: String)
        ensures
            self is CouldNotOpenDevice ==> r@ == "Could not find device or an error occurred."@,
            self is MissingLanguage ==> r@ == "The device has no languages."@,
            self is InvalidInterface ==> r@ == "Could not find interface."@,
            self is InvalidAlt ==> r@ == "Could not find alt interface."@,
            self is NoDfuCapableDeviceFound ==> r@ == "No DFU capable device found."@,
            self is FunctionalDescriptor ==> "Could not parse functional descriptor: "@.is_prefix_of(
                r@,
            ),
    {
        match self {
            TransportError::CouldNotOpenDevice => {
                "Could not find device or an error occurred.".to_owned()
            },
            TransportError::Dfu(e) => dfu_error_text(e),
            TransportError::Io(e) => io_error_text(e),
            TransportError::Transfer(e) => transfer_error_text(e),
            TransportError::MissingLanguage => "The device has no languages.".to_owned(),
            TransportError::InvalidInterface => "Could not find interface.".to_owned(),
            TransportError::InvalidAlt => "Could not find alt interface.".to_owned(),
            TransportError::FunctionalDescriptor(e) => {
                let reason = descriptor_error_text(e);
                "Could not parse functional descriptor: ".to_owned().concat(reason.as_str())
            },
            TransportError::NoDfuCapableDeviceFound => "No DFU capable device found.".to_owned(),
        }
    }
}

} // verus!
