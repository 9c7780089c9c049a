//! The option types of the command-line surface, and the validators that the
//! argument layer applies.  The types here are plain data: the argument
//! parsing itself and all I/O stay with the caller.

mod base64;
mod csv;
mod genpass;
mod text;

pub use self::base64::{
    Base64DecodeOpts, Base64EncodeOpts, Base64Format, Base64SubCommand, parser_base64_format,
};
pub use self::csv::{CsvOpts, OutputFormat, parser_format};
pub use self::genpass::GenPassOpt;
pub use self::text::{
    TextKeyGenerateOpts, TextSignFormat, TextSignOpts, TextSubCommand, TextVerifyOpts,
    parse_format,
};

use vstd::prelude::*;

verus! {

use crate::utils::str_eq;

/// The whole command line: one subcommand per utility.
pub struct Opts {
    pub cmd: SubCommand,
}

/// The utilities that the command line offers.
pub enum SubCommand {
    Csv(CsvOpts),
    GenPass(GenPassOpt),
    Base64(Base64SubCommand),
    Text(TextSubCommand),
}

/// Relies on `std::path::Path::exists`: whether the name points at an
/// existing filesystem entity; the answer depends on the machine's state.
#[verifier::external_body]
fn path_exists(name: &str) -> bool {
    std::path::Path::new(name).exists()
}

/// Relies on `std::path::Path::is_dir`: whether the name points at an
/// existing directory; the answer depends on the machine's state.
#[verifier::external_body]
fn path_is_dir(name: &str) -> bool {
    std::path::Path::new(name).is_dir()
}

/// Accepts the standard-input sentinel `-` and names of existing files.
pub fn verify_file(filename: &str) -> (r: Result<String, String>)
    ensures
        filename@ == "-"@ ==> r is Ok,
        r is Ok ==> r->Ok_0@ == filename@,
        r is Err ==> filename@ != "-"@ && r->Err_0@ == "File does not exist."@,
{
    if str_eq(filename, "-") || path_exists(filename) {
        Ok(filename.to_owned())
    } else {
        Err("File does not exist.".to_owned())
    }
}

/// Accepts names of existing directories.
pub fn verify_path(filename: &str) -> (r: Result<String, String>)
    ensures
        r is Ok ==> r->Ok_0@ == filename@,
        r is Err ==> r->Err_0@ == "Path does not exist or is not a directory."@,
{
    if path_is_dir(filename) {
        Ok(filename.to_owned())
    } else {
        Err("Path does not exist or is not a directory.".to_owned())
    }
}

} // verus!
