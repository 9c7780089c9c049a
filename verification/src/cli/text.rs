use vstd::prelude::*;

verus! {

use crate::error::Error;
use crate::utils::str_eq;

/// The signing scheme: a keyed hash or an asymmetric signature.  Chosen by
/// the caller, never inferred from key bytes.
#[derive(Debug, Clone, Copy, PartialEq, Eq, Structural)]
pub enum TextSignFormat {
    Blake3,
    Ed25519,
}

impl TextSignFormat {
    /// The scheme's tag, as the command line spells it.
    pub fn as_str(&self) -> (r: &'static str)
        ensures
            *self is Blake3 ==> r@ == "blake3"@,
            *self is Ed25519 ==> r@ == "ed25519"@,
    {
        match self {
            TextSignFormat::Blake3 => "blake3",
            TextSignFormat::Ed25519 => "ed25519",
        }
    }
}

/// Parses a scheme tag: exactly `blake3` or `ed25519`; anything else is an
/// unsupported scheme, rejected before any work.
pub fn parse_format(format: &str) -> (r: Result<TextSignFormat, Error>)
    ensures
        r == (if format@ == "blake3"@ {
            Ok::<TextSignFormat, Error>(TextSignFormat::Blake3)
        } else if format@ == "ed25519"@ {
            Ok::<TextSignFormat, Error>(TextSignFormat::Ed25519)
        } else {
            Err::<TextSignFormat, Error>(Error::UnsupportedScheme)
        }),
{
    if str_eq(format, "blake3") {
        Ok(TextSignFormat::Blake3)
    } else if str_eq(format, "ed25519") {
        Ok(TextSignFormat::Ed25519)
    } else {
        Err(Error::UnsupportedScheme)
    }
}

/// Options of the sign operation.
pub struct TextSignOpts {
    pub input: String,
    pub key: String,
    pub format: TextSignFormat,
}

/// Options of the verify operation.
pub struct TextVerifyOpts {
    pub input: String,
    pub key: String,
    pub sig: String,
    pub format: TextSignFormat,
}

/// Options of the key generation operation; `output` names the directory
/// the caller persists the bundle into.
pub struct TextKeyGenerateOpts {
    pub format: TextSignFormat,
    pub output: String,
}

/// The three operations of the signing utility.
pub enum TextSubCommand {
    Sign(TextSignOpts),
    Verify(TextVerifyOpts),
    Generate(TextKeyGenerateOpts),
}

} // verus!
