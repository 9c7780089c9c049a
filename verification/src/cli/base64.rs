use vstd::prelude::*;

verus! {

use crate::error::Error;
use crate::utils::str_eq;

/// The base-64 rendering family of the transcoding utility.
#[derive(Debug, Clone, Copy, PartialEq, Eq, Structural)]
pub enum Base64Format {
    Standard,
    UrlSafe,
}

impl Base64Format {
    /// Whether this format uses the URL-safe alphabet.
    pub open spec fn spec_url(self) -> bool {
        self is UrlSafe
    }

    /// Whether this format carries `=` padding.
    pub open spec fn spec_pad(self) -> bool {
        self is Standard
    }

    /// The format's tag, as the command line spells it.
    pub fn as_str(&self) -> (r: &'static str)
        ensures
            *self is Standard ==> r@ == "standard"@,
            *self is UrlSafe ==> r@ == "urlsafe"@,
    {
        match self {
            Base64Format::Standard => "standard",
            Base64Format::UrlSafe => "urlsafe",
        }
    }
}

/// Parses a format tag: exactly `standard` or `urlsafe`.
pub fn parser_base64_format(format: &str) -> (r: Result<Base64Format, Error>)
    ensures
        r == (if format@ == "standard"@ {
            Ok::<Base64Format, Error>(Base64Format::Standard)
        } else if format@ == "urlsafe"@ {
            Ok::<Base64Format, Error>(Base64Format::UrlSafe)
        } else {
            Err::<Base64Format, Error>(Error::UnsupportedFormat)
        }),
{
    if str_eq(format, "standard") {
        Ok(Base64Format::Standard)
    } else if str_eq(format, "urlsafe") {
        Ok(Base64Format::UrlSafe)
    } else {
        Err(Error::UnsupportedFormat)
    }
}

/// Options of the encoding direction of the transcoding utility.
pub struct Base64EncodeOpts {
    pub input: String,
    pub format: Base64Format,
}

/// Options of the decoding direction of the transcoding utility.
pub struct Base64DecodeOpts {
    pub input: String,
    pub format: Base64Format,
}

/// The two directions of the transcoding utility.
pub enum Base64SubCommand {
    Encode(Base64EncodeOpts),
    Decode(Base64DecodeOpts),
}

} // verus!
