//! The byte transport that the driver writes through: commands and pixel data
//! go over two distinct channels of a `WriteOnlyDataCommand` interface.
use display_interface::{DataFormat, DisplayError, WriteOnlyDataCommand};
use vstd::prelude::*;

verus! {

/// The transport's error, carried through unchanged.
#[verifier::external_type_specification]
#[verifier::external_body]
pub struct ExDisplayError(DisplayError);

/// Relies on `WriteOnlyDataCommand::send_commands`: hands `bytes` to the
/// interface as one batch of command bytes. Whether it succeeds is up to the
/// interface, so nothing is promised of the result.
#[verifier::external_body]
pub(crate) fn transmit_commands<DI: WriteOnlyDataCommand>(iface: &mut DI, bytes: &[u8]) -> (r: Result<(), DisplayError>)
{
    iface.send_commands(DataFormat::U8(bytes))
}

/// Relies on `WriteOnlyDataCommand::send_data`: hands `bytes` to the
/// interface as one batch of display data. Whether it succeeds is up to the
/// interface, so nothing is promised of the result.
#[verifier::external_body]
pub(crate) fn transmit_data<DI: WriteOnlyDataCommand>(iface: &mut DI, bytes: &[u8]) -> (r: Result<(), DisplayError>)
{
    iface.send_data(DataFormat::U8(bytes))
}

} // verus!
