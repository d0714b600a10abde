//! The ways in which building or naming a header can fail.

use vstd::prelude::*;

verus! {

/// Why an operation on a header failed.
#[derive(Clone, Copy, Debug, PartialEq, Eq, Hash)]
pub enum Error {
    /// The metadata handed to the constructor is longer than the cap.
    MetadataTooLarge,
    /// The codec refused to encode a value.
    SerializationFailed,
    /// The cryptographic backend could not be initialised.
    CryptoInitFailed,
}

impl Error {
    /// A short description of the error.
    pub fn description(&self) -> (text: &'static str)
        ensures
            text@ == (match *self {
                Error::MetadataTooLarge => "metadata exceeds the size limit"@,
                Error::SerializationFailed => "serialisation failed"@,
                Error::CryptoInitFailed => "cryptographic backend failed to initialise"@,
            }),
    {
        match self {
            Error::MetadataTooLarge => "metadata exceeds the size limit",
            Error::SerializationFailed => "serialisation failed",
            Error::CryptoInitFailed => "cryptographic backend failed to initialise",
        }
    }
}

} // verus!
