//! The signing engine: two signature schemes behind one uniform interface.
//!
//! The keyed-hash scheme holds a 32-byte symmetric key and signs with a
//! 32-byte keyed digest; the asymmetric scheme holds a 32-byte private or
//! public key half and signs with a 64-byte detached signature.  The signing
//! and verifying halves of the asymmetric scheme are distinct types, so a
//! verifier can never stand where a signer is required.  The top-level
//! operations dispatch on the scheme tag and carry signatures across the
//! text boundary in the URL-safe, unpadded base-64 form.
//!
//! Every operation takes the whole payload as one in-memory byte slice;
//! there is no incremental hashing, which bounds this engine to inputs that
//! fit in memory.

use vstd::prelude::*;

verus! {

use crate::cli::TextSignFormat;
use crate::encoding::{decode64_spec, decode_url, encode64_spec, encode_url};
use crate::encoding::lemma_encode_then_decode;
use crate::error::Error;
use crate::process::base64_convert::is_ws_byte;
use crate::process::gen_pass::{allowed_byte, process_genpass};
use crate::utils::bytes_eq;
use vstd::slice::{slice_subrange, slice_to_vec};
use vstd::utf8::encode_utf8;

/// A byte sequence with trailing ASCII whitespace removed.
pub open spec fn trim_key_spec(k: Seq<u8>) -> Seq<u8>
    decreases k.len(),
{
    if k.len() > 0 && is_ws_byte(k.last()) {
        trim_key_spec(k.drop_last())
    } else {
        k
    }
}

/// What loading makes of raw asymmetric key material.  Exactly 32 raw bytes
/// are the key unchanged — a generated key is raw bytes and may well end in
/// a whitespace-valued byte.  Any other length has the trailing whitespace
/// that key *files* may carry trimmed off, so a 33-byte file ending in a
/// newline still loads while short files still fail.  (The keyed-hash
/// scheme has its own policy instead: the first 32 bytes of the file.)
pub open spec fn load_key_spec(k: Seq<u8>) -> Seq<u8> {
    if k.len() == 32 {
        k
    } else {
        trim_key_spec(k)
    }
}

/// Removes trailing ASCII whitespace from key material.
fn trim_key(key: &[u8]) -> (r: &[u8])
    ensures
        r@ == trim_key_spec(key@),
{
    let mut hi: usize = key.len();
    proof {
        assert(key@.take(key@.len() as int) =~= key@);
    }
    while hi > 0 && (key[hi - 1] == 32 || key[hi - 1] == 9 || key[hi - 1] == 10 || key[hi - 1]
        == 13)
        invariant
            0 <= hi <= key@.len(),
            trim_key_spec(key@) == trim_key_spec(key@.take(hi as int)),
        decreases hi,
    {
        proof {
            let s = key@.take(hi as int);
            assert(s.drop_last() =~= key@.take(hi as int - 1));
        }
        hi = hi - 1;
    }
    let r = slice_subrange(key, 0, hi);
    proof {
        let s = key@.take(hi as int);
        assert(key@.subrange(0, hi as int) =~= s);
        assert(trim_key_spec(s) == s);
    }
    r
}

/// The 32-byte keyed blake3 digest of a message, a function of the key and
/// the message alone.
pub uninterp spec fn blake3_keyed(key: Seq<u8>, msg: Seq<u8>) -> Seq<u8>;

/// The 64-byte Ed25519 signature over a message, a function of the secret
/// key and the message alone (RFC 8032 signing is deterministic).
pub uninterp spec fn ed25519_sig_of(sk: Seq<u8>, msg: Seq<u8>) -> Seq<u8>;

/// The Ed25519 public key derived from a secret key.
pub uninterp spec fn ed25519_pub_of(sk: Seq<u8>) -> Seq<u8>;

/// Whether 32 bytes form a valid Ed25519 public key (a decompressible
/// curve point).
pub uninterp spec fn ed25519_pk_ok(pk: Seq<u8>) -> bool;

/// Whether Ed25519 verification accepts a signature over a message under a
/// public key; a function of those three values alone.
pub uninterp spec fn ed25519_verifies(pk: Seq<u8>, msg: Seq<u8>, sig: Seq<u8>) -> bool;

/// Relies on `blake3::keyed_hash`: a 32-byte digest that is a function of
/// the 32-byte key and the input alone.
#[verifier::external_body]
fn blake3_keyed_hash(key: &[u8], msg: &[u8]) -> (r: Vec<u8>)
    requires
        key@.len() == 32,
    ensures
        r@ == blake3_keyed(key@, msg@),
        r@.len() == 32,
{
    let k: [u8; 32] = key.try_into().unwrap();
    blake3::keyed_hash(&k, msg).as_bytes().to_vec()
}

/// Relies on `ed25519_dalek::Signer::sign` for `SigningKey`: deterministic
/// RFC 8032 signing — a 64-byte signature that is a function of the secret
/// key and the message alone, and that verifies under the derived public
/// key.
#[verifier::external_body]
fn ed25519_sign_raw(sk: &[u8], msg: &[u8]) -> (r: Vec<u8>)
    requires
        sk@.len() == 32,
    ensures
        r@ == ed25519_sig_of(sk@, msg@),
        r@.len() == 64,
        ed25519_verifies(ed25519_pub_of(sk@), msg@, r@),
{
    let key = ed25519_dalek::SigningKey::from_bytes(&sk.try_into().unwrap());
    ed25519_dalek::Signer::sign(&key, msg).to_bytes().to_vec()
}

/// Relies on `ed25519_dalek::SigningKey::verifying_key`: the public key is
/// derived deterministically from the secret key, and is itself a valid
/// public key.
#[verifier::external_body]
fn ed25519_pubkey_raw(sk: &[u8]) -> (r: Vec<u8>)
    requires
        sk@.len() == 32,
    ensures
        r@ == ed25519_pub_of(sk@),
        r@.len() == 32,
        ed25519_pk_ok(r@),
{
    let key = ed25519_dalek::SigningKey::from_bytes(&sk.try_into().unwrap());
    key.verifying_key().to_bytes().to_vec()
}

/// Relies on `ed25519_dalek::VerifyingKey::from_bytes`: whether 32 bytes
/// decompress to a curve point is a function of the bytes alone.
#[verifier::external_body]
fn ed25519_parse_pk(pk: &[u8]) -> (r: bool)
    requires
        pk@.len() == 32,
    ensures
        r == ed25519_pk_ok(pk@),
{
    ed25519_dalek::VerifyingKey::from_bytes(&pk.try_into().unwrap()).is_ok()
}

/// Relies on `ed25519_dalek::Verifier::verify` for `VerifyingKey`: a
/// deterministic accept/reject that is a function of the public key, the
/// message and the signature alone.
#[verifier::external_body]
fn ed25519_verify_raw(pk: &[u8], msg: &[u8], sig: &[u8]) -> (r: bool)
    requires
        pk@.len() == 32,
        ed25519_pk_ok(pk@),
        sig@.len() == 64,
    ensures
        r == ed25519_verifies(pk@, msg@, sig@),
{
    let key = ed25519_dalek::VerifyingKey::from_bytes(&pk.try_into().unwrap()).unwrap();
    let signature = ed25519_dalek::Signature::from_bytes(&sig.try_into().unwrap());
    ed25519_dalek::Verifier::verify(&key, msg, &signature).is_ok()
}

/// Relies on `ed25519_dalek::SigningKey::generate` with `OsRng`: a fresh
/// 32-byte secret key drawn from the operating system's randomness source.
#[verifier::external_body]
fn ed25519_fresh_sk() -> (r: Vec<u8>)
    ensures
        r@.len() == 32,
{
    let mut csprng = rand::rngs::OsRng;
    ed25519_dalek::SigningKey::generate(&mut csprng).to_bytes().to_vec()
}

/// The keyed-hash scheme: a 32-byte symmetric key, 32-byte digests.
pub struct Blake3 {
    key: Vec<u8>,
}

/// The signing half of the asymmetric scheme: a 32-byte secret key.
pub struct Ed25519Signer {
    key: Vec<u8>,
}

/// The verifying half of the asymmetric scheme: a 32-byte public key that
/// parses as a curve point.
pub struct Ed25519Verifier {
    key: Vec<u8>,
}

/// What verification means for the keyed-hash scheme: the signature is
/// byte-for-byte the recomputed digest; no partial or prefix matching.
pub open spec fn blake3_verify_spec(key: Seq<u8>, msg: Seq<u8>, sig: Seq<u8>) -> bool {
    sig == blake3_keyed(key, msg)
}

/// Law (round-trip correctness of the keyed-hash scheme): a digest produced
/// over a payload with a key verifies against that same key and payload.
pub proof fn lemma_keyed_hash_round_trip(key: Seq<u8>, msg: Seq<u8>)
    ensures
        blake3_verify_spec(key, msg, blake3_keyed(key, msg)),
{
}

impl Blake3 {
    /// The key bytes match the scheme's required length.
    pub closed spec fn wf(self) -> bool {
        self.key@.len() == 32
    }

    /// The loaded key bytes.
    pub closed spec fn key_bytes(self) -> Seq<u8> {
        self.key@
    }

    /// Wraps a 32-byte key.
    pub fn new(key: [u8; 32]) -> (r: Self)
        ensures
            r.wf(),
            r.key_bytes() == key@,
    {
        Blake3 { key: slice_to_vec(key.as_slice()) }
    }

    /// Takes the first 32 bytes of loaded key material as the key; longer
    /// material is deliberately accepted and the tail ignored, shorter
    /// material is an `InvalidKeyLength` error.
    pub fn try_new(key: &[u8]) -> (r: Result<Self, Error>)
        ensures
            key@.len() >= 32 ==> r is Ok && r->Ok_0.wf() && r->Ok_0.key_bytes() == key@.take(32),
            key@.len() < 32 ==> r == Err::<Blake3, Error>(Error::InvalidKeyLength),
    {
        if key.len() < 32 {
            return Err(Error::InvalidKeyLength);
        }
        let k = slice_to_vec(slice_subrange(key, 0, 32));
        proof {
            assert(k@ =~= key@.take(32));
        }
        Ok(Blake3 { key: k })
    }

    /// Signs the whole payload: the keyed digest over its bytes.
    pub fn sign(&self, msg: &[u8]) -> (r: Vec<u8>)
        requires
            self.wf(),
        ensures
            r@ == blake3_keyed(self.key_bytes(), msg@),
            r@.len() == 32,
    {
        blake3_keyed_hash(self.key.as_slice(), msg)
    }

    /// Recomputes the digest over the payload and compares byte for byte.
    pub fn verify(&self, msg: &[u8], sig: &[u8]) -> (r: bool)
        requires
            self.wf(),
        ensures
            r == blake3_verify_spec(self.key_bytes(), msg@, sig@),
    {
        let digest = blake3_keyed_hash(self.key.as_slice(), msg);
        bytes_eq(digest.as_slice(), sig)
    }
}

impl Ed25519Signer {
    /// The key bytes match the scheme's required length.
    pub closed spec fn wf(self) -> bool {
        self.key@.len() == 32
    }

    /// The loaded secret-key bytes.
    pub closed spec fn key_bytes(self) -> Seq<u8> {
        self.key@
    }

    /// Wraps a 32-byte secret key.
    pub fn new(key: [u8; 32]) -> (r: Self)
        ensures
            r.wf(),
            r.key_bytes() == key@,
    {
        Ed25519Signer { key: slice_to_vec(key.as_slice()) }
    }

    /// Requires exactly 32 bytes of key material, with `load_key_spec`'s
    /// trim applied first; anything else is an `InvalidKeyLength` error.
    pub fn try_new(key: &[u8]) -> (r: Result<Self, Error>)
        ensures
            load_key_spec(key@).len() == 32 ==> r is Ok && r->Ok_0.wf() && r->Ok_0.key_bytes()
                == load_key_spec(key@),
            load_key_spec(key@).len() != 32 ==> r == Err::<Ed25519Signer, Error>(
                Error::InvalidKeyLength,
            ),
    {
        let k: &[u8] = if key.len() == 32 {
            key
        } else {
            trim_key(key)
        };
        if k.len() != 32 {
            return Err(Error::InvalidKeyLength);
        }
        Ok(Ed25519Signer { key: slice_to_vec(k) })
    }

    /// Signs the whole payload: a detached 64-byte signature that verifies
    /// under the public key derived from this secret key.
    pub fn sign(&self, msg: &[u8]) -> (r: Vec<u8>)
        requires
            self.wf(),
        ensures
            r@ == ed25519_sig_of(self.key_bytes(), msg@),
            r@.len() == 64,
            ed25519_verifies(ed25519_pub_of(self.key_bytes()), msg@, r@),
    {
        ed25519_sign_raw(self.key.as_slice(), msg)
    }
}

impl Ed25519Verifier {
    /// The key bytes match the scheme's required length and parse as a
    /// public key.
    pub closed spec fn wf(self) -> bool {
        self.key@.len() == 32 && ed25519_pk_ok(self.key@)
    }

    /// The loaded public-key bytes.
    pub closed spec fn key_bytes(self) -> Seq<u8> {
        self.key@
    }

    /// Wraps 32 bytes already known to parse as a public key; `try_new`
    /// establishes that from raw key material.
    pub fn new(key: [u8; 32]) -> (r: Self)
        requires
            ed25519_pk_ok(key@),
        ensures
            r.wf(),
            r.key_bytes() == key@,
    {
        Ed25519Verifier { key: slice_to_vec(key.as_slice()) }
    }

    /// Requires exactly 32 bytes of key material, with `load_key_spec`'s
    /// trim applied first, that parse as a public key; a wrong length is an
    /// `InvalidKeyLength` error, an invalid point an `InvalidKey` error.
    pub fn try_new(key: &[u8]) -> (r: Result<Self, Error>)
        ensures
            load_key_spec(key@).len() != 32 ==> r == Err::<Ed25519Verifier, Error>(
                Error::InvalidKeyLength,
            ),
            load_key_spec(key@).len() == 32 && !ed25519_pk_ok(load_key_spec(key@)) ==> r == Err::<
                Ed25519Verifier,
                Error,
            >(Error::InvalidKey),
            load_key_spec(key@).len() == 32 && ed25519_pk_ok(load_key_spec(key@)) ==> r is Ok
                && r->Ok_0.wf() && r->Ok_0.key_bytes() == load_key_spec(key@),
    {
        let k: &[u8] = if key.len() == 32 {
            key
        } else {
            trim_key(key)
        };
        if k.len() != 32 {
            return Err(Error::InvalidKeyLength);
        }
        if !ed25519_parse_pk(k) {
            return Err(Error::InvalidKey);
        }
        Ok(Ed25519Verifier { key: slice_to_vec(k) })
    }

    /// Checks a detached signature over the whole payload.  A signature of
    /// any length other than 64 bytes is a `DecodeError`, kept distinct
    /// from the verification-false result.
    pub fn verify(&self, msg: &[u8], sig: &[u8]) -> (r: Result<bool, Error>)
        requires
            self.wf(),
        ensures
            sig@.len() == 64 ==> r == Ok::<bool, Error>(
                ed25519_verifies(self.key_bytes(), msg@, sig@),
            ),
            sig@.len() != 64 ==> r == Err::<bool, Error>(Error::DecodeError),
    {
        if sig.len() != 64 {
            return Err(Error::DecodeError);
        }
        Ok(ed25519_verify_raw(self.key.as_slice(), msg, sig))
    }
}

/// The key-generation capability: each scheme produces its own bundle of
/// 32-byte blobs, ready for the caller to persist.
pub trait KeyGenerator {
    /// What the scheme's generated bundle satisfies.
    spec fn bundle_ok(bundle: Seq<Vec<u8>>) -> bool;

    /// Produces the scheme's key bundle.
    fn generate() -> (r: Result<Vec<Vec<u8>>, Error>)
        ensures
            r is Ok && Self::bundle_ok(r->Ok_0@),
    ;
}

impl KeyGenerator for Blake3 {
    /// One blob: a 32-byte key drawn through the password generator with
    /// every character class enabled.
    open spec fn bundle_ok(bundle: Seq<Vec<u8>>) -> bool {
        &&& bundle.len() == 1
        &&& bundle[0]@.len() == 32
        &&& forall|i: int|
            0 <= i < 32 ==> allowed_byte(#[trigger] bundle[0]@[i], true, true, true, true)
    }

    fn generate() -> (r: Result<Vec<Vec<u8>>, Error>) {
        let pass = match process_genpass(32, true, true, true, true) {
            Ok(p) => p,
            Err(e) => { return Err(e) },
        };
        let key = slice_to_vec(pass.as_str().as_bytes());
        proof {
            vstd::utf8::is_ascii_chars_encode_utf8(pass@);
        }
        let mut bundle: Vec<Vec<u8>> = Vec::new();
        bundle.push(key);
        Ok(bundle)
    }
}

impl KeyGenerator for Ed25519Signer {
    /// Two blobs, private key then public key, each 32 bytes; the public
    /// key is the one derived from the private key.
    open spec fn bundle_ok(bundle: Seq<Vec<u8>>) -> bool {
        &&& bundle.len() == 2
        &&& bundle[0]@.len() == 32
        &&& bundle[1]@.len() == 32
        &&& bundle[1]@ == ed25519_pub_of(bundle[0]@)
        &&& ed25519_pk_ok(bundle[1]@)
    }

    fn generate() -> (r: Result<Vec<Vec<u8>>, Error>) {
        let sk = ed25519_fresh_sk();
        let pk = ed25519_pubkey_raw(sk.as_slice());
        let mut bundle: Vec<Vec<u8>> = Vec::new();
        bundle.push(sk);
        bundle.push(pk);
        Ok(bundle)
    }
}

/// What the sign operation returns: the URL-safe, unpadded rendering of the
/// scheme's signature over the payload, or the error its key loading gives.
/// Asymmetric key material is trimmed of trailing whitespace before the
/// exact-length check; keyed-hash key material gives its first 32 bytes.
pub open spec fn text_sign_spec(data: Seq<u8>, key: Seq<u8>, format: TextSignFormat) -> Result<
    Seq<u8>,
    Error,
> {
    match format {
        TextSignFormat::Blake3 => {
            if key.len() < 32 {
                Err(Error::InvalidKeyLength)
            } else {
                Ok(encode64_spec(blake3_keyed(key.take(32), data), true, false))
            }
        },
        TextSignFormat::Ed25519 => {
            let k = load_key_spec(key);
            if k.len() != 32 {
                Err(Error::InvalidKeyLength)
            } else {
                Ok(encode64_spec(ed25519_sig_of(k, data), true, false))
            }
        },
    }
}

/// What the verify operation returns, decoding the signature text first,
/// then loading the key, then checking.
pub open spec fn text_verify_spec(
    data: Seq<u8>,
    key: Seq<u8>,
    format: TextSignFormat,
    sig_text: Seq<u8>,
) -> Result<bool, Error> {
    match decode64_spec(sig_text, true, false) {
        Option::None => Err(Error::DecodeError),
        Option::Some(sig) => match format {
            TextSignFormat::Blake3 => {
                if key.len() < 32 {
                    Err(Error::InvalidKeyLength)
                } else {
                    Ok(blake3_verify_spec(key.take(32), data, sig))
                }
            },
            TextSignFormat::Ed25519 => {
                let k = load_key_spec(key);
                if k.len() != 32 {
                    Err(Error::InvalidKeyLength)
                } else if !ed25519_pk_ok(k) {
                    Err(Error::InvalidKey)
                } else if sig.len() != 64 {
                    Err(Error::DecodeError)
                } else {
                    Ok(ed25519_verifies(k, data, sig))
                }
            },
        },
    }
}

/// Signs a payload with key material for the chosen scheme and renders the
/// signature as URL-safe, unpadded base-64 text.
pub fn process_text_sign(data: &[u8], key: &[u8], format: TextSignFormat) -> (r: Result<
    String,
    Error,
>)
    ensures
        r is Ok <==> text_sign_spec(data@, key@, format) is Ok,
        r is Ok ==> encode_utf8(r->Ok_0@) == text_sign_spec(data@, key@, format)->Ok_0,
        r is Err ==> r->Err_0 == text_sign_spec(data@, key@, format)->Err_0,
        r is Ok && format is Ed25519 ==> ed25519_verifies(
            ed25519_pub_of(load_key_spec(key@)),
            data@,
            ed25519_sig_of(load_key_spec(key@), data@),
        ),
{
    let signed: Vec<u8> = match format {
        TextSignFormat::Blake3 => {
            let signer = match Blake3::try_new(key) {
                Ok(s) => s,
                Err(e) => { return Err(e) },
            };
            signer.sign(data)
        },
        TextSignFormat::Ed25519 => {
            let signer = match Ed25519Signer::try_new(key) {
                Ok(s) => s,
                Err(e) => { return Err(e) },
            };
            signer.sign(data)
        },
    };
    Ok(encode_url(signed.as_slice()))
}

/// Decodes a text-carried signature and checks it over a payload with key
/// material for the chosen scheme.  `Ok(false)` means checked and rejected;
/// every error means the check could not be made.
pub fn process_text_verify(data: &[u8], key: &[u8], format: TextSignFormat, sig: &str) -> (r:
    Result<bool, Error>)
    ensures
        r == text_verify_spec(data@, key@, format, encode_utf8(sig@)),
{
    let decoded = match decode_url(sig.as_bytes()) {
        Ok(d) => d,
        Err(e) => { return Err(e) },
    };
    match format {
        TextSignFormat::Blake3 => {
            let verifier = match Blake3::try_new(key) {
                Ok(v) => v,
                Err(e) => { return Err(e) },
            };
            Ok(verifier.verify(data, decoded.as_slice()))
        },
        TextSignFormat::Ed25519 => {
            let verifier = match Ed25519Verifier::try_new(key) {
                Ok(v) => v,
                Err(e) => { return Err(e) },
            };
            verifier.verify(data, decoded.as_slice())
        },
    }
}

/// Generates the chosen scheme's key bundle: one 32-byte key blob for the
/// keyed-hash scheme; a 32-byte private key and its derived 32-byte public
/// key, in that order, for the asymmetric scheme.
pub fn process_text_generate(format: TextSignFormat) -> (r: Result<Vec<Vec<u8>>, Error>)
    ensures
        r is Ok,
        format is Blake3 ==> <Blake3 as KeyGenerator>::bundle_ok(r->Ok_0@),
        format is Ed25519 ==> <Ed25519Signer as KeyGenerator>::bundle_ok(r->Ok_0@),
{
    match format {
        TextSignFormat::Blake3 => Blake3::generate(),
        TextSignFormat::Ed25519 => Ed25519Signer::generate(),
    }
}

/// Law (round-trip correctness of the keyed-hash scheme, end to end): the
/// text rendered by the sign operation decodes and verifies as `Ok(true)`
/// under the same key material.
pub proof fn lemma_text_round_trip_keyed(data: Seq<u8>, key: Seq<u8>)
    requires
        key.len() >= 32,
    ensures
        text_verify_spec(data, key, TextSignFormat::Blake3, text_sign_spec(data, key, TextSignFormat::Blake3)->Ok_0)
            == Ok::<bool, Error>(true),
{
    lemma_encode_then_decode(blake3_keyed(key.take(32), data), true, false);
}

/// Law (round-trip correctness of the asymmetric scheme, end to end): the
/// text rendered by signing with a secret key decodes and verifies as
/// `Ok(true)` under the derived public key.  The last two hypotheses are
/// the scheme's standard-algorithm guarantees, which the sign operation
/// establishes at every call.
pub proof fn lemma_text_round_trip_asym(data: Seq<u8>, sk: Seq<u8>)
    requires
        sk.len() == 32,
        ed25519_pub_of(sk).len() == 32,
        ed25519_sig_of(sk, data).len() == 64,
        ed25519_pk_ok(ed25519_pub_of(sk)),
        ed25519_verifies(ed25519_pub_of(sk), data, ed25519_sig_of(sk, data)),
    ensures
        text_verify_spec(data, ed25519_pub_of(sk), TextSignFormat::Ed25519, text_sign_spec(data, sk, TextSignFormat::Ed25519)->Ok_0)
            == Ok::<bool, Error>(true),
{
    lemma_encode_then_decode(ed25519_sig_of(sk, data), true, false);
}

} // verus!
