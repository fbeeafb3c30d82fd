//! Types of other crates that the library carries through without reading them.

use vstd::prelude::*;

verus! {

/// `dfu_core::Error`, carried through unread.
#[verifier::external_type_specification]
#[verifier::external_body]
pub struct ExDfuCoreError(dfu_core::Error);

/// `std::io::Error`, carried through unread.
#[verifier::external_type_specification]
#[verifier::external_body]
pub struct ExIoError(std::io::Error);

/// `nusb::transfer::TransferError`, carried through unread.
#[verifier::external_type_specification]
#[verifier::external_body]
pub struct ExTransferError(nusb::transfer::TransferError);

} // verus!
