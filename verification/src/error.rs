use vstd::prelude::*;

verus! {

/// The error kinds of the library.
///
/// A well-formed signature that merely does not match is *not* an error: the
/// verify operations report that as `Ok(false)`, so that "checked and
/// rejected" stays distinct from "could not check".
#[derive(Clone, Copy, Debug, PartialEq, Eq, Structural)]
pub enum Error {
    /// An input source could not be read.  Only the caller's I/O layer
    /// constructs this kind; nothing in this library performs I/O.
    IoError,
    /// Key bytes do not match the scheme's required length.
    InvalidKeyLength,
    /// Key bytes have the right length but do not form a valid key.
    InvalidKey,
    /// A text-encoded signature is malformed.
    DecodeError,
    /// A scheme tag was not recognized at the boundary.
    UnsupportedScheme,
    /// A conversion format tag was not recognized at the boundary.
    UnsupportedFormat,
}

impl Error {
    /// The fixed description of this error kind.
    pub open spec fn spec_message(self) -> Seq<char> {
        match self {
            Error::IoError => "input source unreadable or missing"@,
            Error::InvalidKeyLength => "key length does not match the scheme"@,
            Error::InvalidKey => "key bytes do not form a valid key"@,
            Error::DecodeError => "malformed text-encoded signature"@,
            Error::UnsupportedScheme => "unsupported scheme. Supported schemes: blake3, ed25519"@,
            Error::UnsupportedFormat => "unsupported format"@,
        }
    }

    /// A short description of the error, for the caller's reporting layer.
    pub fn message(&self) -> (r: &'static str)
        ensures
            r@ == self.spec_message(),
    {
        match self {
            Error::IoError => "input source unreadable or missing",
            Error::InvalidKeyLength => "key length does not match the scheme",
            Error::InvalidKey => "key bytes do not form a valid key",
            Error::DecodeError => "malformed text-encoded signature",
            Error::UnsupportedScheme => "unsupported scheme. Supported schemes: blake3, ed25519",
            Error::UnsupportedFormat => "unsupported format",
        }
    }
}

} // verus!
