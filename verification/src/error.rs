//! What can go wrong in a DMA transfer.

use vstd::prelude::*;

verus! {

/// `std::io::Error`, the error of a socket. Nothing is known of what it
/// holds: it is carried from the transport to the caller.
#[verifier::external_type_specification]
#[verifier::external_body]
pub struct ExIoError(std::io::Error);

#[derive(Debug)]
#[non_exhaustive]
pub enum Error {
    /// The transport failed.
    Io(std::io::Error),
    /// No completion came in time.
    Timeout,
    /// A completion was malformed; the text says how.
    InvalidData(String),
    /// The remote side has nothing to read at this address.
    InvalidAddress(u64),
    /// The text is not a bus:device.function triple.
    InvalidBDF(String),
}

} // verus!
