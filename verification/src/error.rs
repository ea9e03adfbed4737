//! Errors reported by MBR parsing.

use vstd::prelude::*;

verus! {

/// The standard I/O error, carried through unchanged.
#[verifier::external_type_specification]
#[verifier::external_body]
pub struct ExIoError(std::io::Error);

/// Why an MBR could not be parsed or read.
#[derive(Debug)]
pub enum Error {
    /// The buffer holds fewer than 512 bytes; carries the length found.
    TooShort(usize),
    /// Bytes 510–511 are not `0x55 0xAA`; carries the little-endian value found.
    BadSignature(u16),
    /// Reading or seeking the image failed.
    Io(std::io::Error),
}

} // verus!
