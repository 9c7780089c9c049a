//! The working parts of each utility, on plain values: the signing engine,
//! password generation, base-64 transcoding, CSV column pairing, and the
//! status decision of the file server.

mod base64_convert;
mod csv_convert;
mod gen_pass;
mod http_serve;
mod text;

pub use self::base64_convert::{process_decode, process_encode, trim_spec};
pub use self::csv_convert::pair_columns;
pub use self::gen_pass::{
    allowed_byte, enabled_count, has_class, lower_bytes, number_bytes, process_genpass, symbol_bytes,
    upper_bytes,
};
pub use self::http_serve::file_response_status;
pub use self::text::{
    Blake3, Ed25519Signer, Ed25519Verifier, KeyGenerator, blake3_keyed, blake3_verify_spec,
    ed25519_pk_ok, ed25519_pub_of, ed25519_sig_of, ed25519_verifies, lemma_keyed_hash_round_trip,
    lemma_text_round_trip_asym, lemma_text_round_trip_keyed, process_text_generate,
    process_text_sign, process_text_verify, text_sign_spec, text_verify_spec, trim_key_spec,
};
