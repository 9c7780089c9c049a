//! Small text/data utilities around a pluggable text-signing engine.
//!
//! The core is the signing engine in `process::text`: two signature schemes
//! (a keyed hash and an asymmetric signature) behind one uniform interface,
//! with key loading and generation, and a base-64 family encoding layer that
//! carries binary signatures as text.  The surrounding modules hold the
//! smaller utilities: base-64 transcoding, CSV column pairing, and password
//! generation.  All input/output stays with the caller: every function here
//! works on plain values.

mod cli;
mod encoding;
mod error;
mod process;
mod utils;

pub use cli::{
    Base64DecodeOpts, Base64EncodeOpts, Base64Format, Base64SubCommand, CsvOpts, GenPassOpt, Opts,
    OutputFormat, SubCommand, TextKeyGenerateOpts, TextSignFormat, TextSignOpts, TextSubCommand,
    TextVerifyOpts, parse_format, parser_base64_format, parser_format, verify_file, verify_path,
};
pub use encoding::{
    decode64_spec, decode_std, decode_url, encode64_spec, encode_std, encode_url,
    lemma_decode_then_encode, lemma_encode_then_decode,
};
pub use error::Error;
pub use process::{
    Blake3, Ed25519Signer, Ed25519Verifier, KeyGenerator, allowed_byte, blake3_keyed, has_class,
    blake3_verify_spec, ed25519_pk_ok, ed25519_pub_of, ed25519_sig_of, ed25519_verifies,
    enabled_count, file_response_status, lemma_keyed_hash_round_trip, lemma_text_round_trip_asym,
    lemma_text_round_trip_keyed, lower_bytes, number_bytes, pair_columns, process_decode,
    process_encode, process_genpass, process_text_generate, process_text_sign, process_text_verify,
    symbol_bytes, text_sign_spec, text_verify_spec, trim_key_spec, trim_spec, upper_bytes,
};
pub use utils::{bytes_eq, lower_ascii, str_eq};
