use vstd::prelude::*;

verus! {

use crate::error::Error;
use crate::utils::{bytes_eq, lower_ascii, lower_ascii_spec};
use vstd::utf8::encode_utf8;

/// The target format of the CSV conversion utility.
#[derive(Debug, Clone, Copy, PartialEq, Eq, Structural)]
pub enum OutputFormat {
    Json,
    Yaml,
}

impl OutputFormat {
    /// The format's tag, which is also the output file extension.
    pub fn as_str(&self) -> (r: &'static str)
        ensures
            *self is Json ==> r@ == "json"@,
            *self is Yaml ==> r@ == "yaml"@,
    {
        match self {
            OutputFormat::Json => "json",
            OutputFormat::Yaml => "yaml",
        }
    }
}

/// Parses a format tag: `json` or `yaml`, letter case ignored.
pub fn parser_format(format: &str) -> (r: Result<OutputFormat, Error>)
    ensures
        r == (if lower_ascii_spec(encode_utf8(format@)) == encode_utf8("json"@) {
            Ok::<OutputFormat, Error>(OutputFormat::Json)
        } else if lower_ascii_spec(encode_utf8(format@)) == encode_utf8("yaml"@) {
            Ok::<OutputFormat, Error>(OutputFormat::Yaml)
        } else {
            Err::<OutputFormat, Error>(Error::UnsupportedFormat)
        }),
{
    let low = lower_ascii(format.as_bytes());
    if bytes_eq(low.as_slice(), "json".as_bytes()) {
        Ok(OutputFormat::Json)
    } else if bytes_eq(low.as_slice(), "yaml".as_bytes()) {
        Ok(OutputFormat::Yaml)
    } else {
        Err(Error::UnsupportedFormat)
    }
}

/// Options of the CSV conversion utility.
pub struct CsvOpts {
    pub input: String,
    pub output: Option<String>,
    pub format: OutputFormat,
    pub delimiter: char,
    pub header: bool,
}

} // verus!
