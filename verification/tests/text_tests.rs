use rcli::{
    process_text_generate, process_text_sign, process_text_verify, Blake3, Ed25519Signer,
    Ed25519Verifier, Error, KeyGenerator, TextSignFormat,
};

#[test]
fn test_blake3_sign_verify() {
    let key: [u8; 32] = *b"0123456789abcdef0123456789abcdef";
    let signer = Blake3::new(key);
    let verifier = Blake3::new(key);
    let data = b"hello world";
    let sig = signer.sign(&data[..]);
    assert!(verifier.verify(&data[..], &sig));
}

#[test]
fn test_ed25519_sign_verify() {
    let bundle = process_text_generate(TextSignFormat::Ed25519).unwrap();
    let signer = Ed25519Signer::try_new(&bundle[0]).unwrap();
    let verifier = Ed25519Verifier::try_new(&bundle[1]).unwrap();
    let data = b"hello world";
    let sig = signer.sign(&data[..]);
    assert!(verifier.verify(&data[..], &sig).unwrap());
}

#[test]
fn keyed_hash_scenario_fixed_key() {
    let key = [11u8; 32];
    let other_key = [12u8; 32];
    let sig = process_text_sign(b"hello world", &key, TextSignFormat::Blake3).unwrap();
    assert_eq!(
        process_text_verify(b"hello world", &key, TextSignFormat::Blake3, &sig),
        Ok(true)
    );
    assert_eq!(
        process_text_verify(b"hello world", &other_key, TextSignFormat::Blake3, &sig),
        Ok(false)
    );
}

#[test]
fn keyed_hash_rejects_tampered_payload() {
    let key = [3u8; 32];
    let sig = process_text_sign(b"hello world", &key, TextSignFormat::Blake3).unwrap();
    assert_eq!(
        process_text_verify(b"hello world!", &key, TextSignFormat::Blake3, &sig),
        Ok(false)
    );
}

#[test]
fn asymmetric_scenario_generate_sign_flip() {
    let bundle = process_text_generate(TextSignFormat::Ed25519).unwrap();
    let signer = Ed25519Signer::try_new(&bundle[0]).unwrap();
    let verifier = Ed25519Verifier::try_new(&bundle[1]).unwrap();
    let data = b"hello world";
    let mut sig = signer.sign(&data[..]);
    assert_eq!(verifier.verify(&data[..], &sig), Ok(true));
    sig[0] ^= 1;
    assert_eq!(verifier.verify(&data[..], &sig), Ok(false));
}

#[test]
fn asymmetric_end_to_end_through_text() {
    let bundle = process_text_generate(TextSignFormat::Ed25519).unwrap();
    let sig = process_text_sign(b"hello world", &bundle[0], TextSignFormat::Ed25519).unwrap();
    assert_eq!(
        process_text_verify(b"hello world", &bundle[1], TextSignFormat::Ed25519, &sig),
        Ok(true)
    );
    assert_eq!(
        process_text_verify(b"hello there", &bundle[1], TextSignFormat::Ed25519, &sig),
        Ok(false)
    );
}

#[test]
fn generate_returns_the_scheme_bundle() {
    let keyed = process_text_generate(TextSignFormat::Blake3).unwrap();
    assert_eq!(keyed.len(), 1);
    assert_eq!(keyed[0].len(), 32);

    let pair = process_text_generate(TextSignFormat::Ed25519).unwrap();
    assert_eq!(pair.len(), 2);
    assert_eq!(pair[0].len(), 32);
    assert_eq!(pair[1].len(), 32);
}

#[test]
fn key_generator_trait_matches_dispatch() {
    let keyed = <Blake3 as KeyGenerator>::generate().unwrap();
    assert_eq!(keyed.len(), 1);
    let pair = <Ed25519Signer as KeyGenerator>::generate().unwrap();
    assert_eq!(pair.len(), 2);
}

#[test]
fn short_key_files_fail_with_invalid_key_length() {
    let short = [0u8; 16];
    assert!(matches!(
        Ed25519Signer::try_new(&short),
        Err(Error::InvalidKeyLength)
    ));
    assert!(matches!(
        Ed25519Verifier::try_new(&short),
        Err(Error::InvalidKeyLength)
    ));
    assert!(matches!(
        Blake3::try_new(&short),
        Err(Error::InvalidKeyLength)
    ));
    assert!(matches!(
        process_text_sign(b"x", &short, TextSignFormat::Ed25519),
        Err(Error::InvalidKeyLength)
    ));
    assert!(matches!(
        process_text_sign(b"x", &short, TextSignFormat::Blake3),
        Err(Error::InvalidKeyLength)
    ));
}

#[test]
fn oversized_keyed_hash_key_uses_first_32_bytes() {
    let mut long = Vec::new();
    long.extend_from_slice(b"0123456789abcdef0123456789abcdef");
    long.extend_from_slice(b"\ntrailing junk the loader must ignore");
    let from_file = Blake3::try_new(&long).unwrap();
    let exact = Blake3::new(*b"0123456789abcdef0123456789abcdef");
    let data = b"hello world";
    assert_eq!(from_file.sign(&data[..]), exact.sign(&data[..]));
}

#[test]
fn cross_scheme_misuse_fails_deterministically() {
    let key = [5u8; 32];
    let bundle = process_text_generate(TextSignFormat::Ed25519).unwrap();

    // a keyed-hash signature is 32 bytes: too short for the asymmetric check
    let keyed_sig = process_text_sign(b"hello world", &key, TextSignFormat::Blake3).unwrap();
    assert_eq!(
        process_text_verify(b"hello world", &bundle[1], TextSignFormat::Ed25519, &keyed_sig),
        Err(Error::DecodeError)
    );

    // an asymmetric signature is 64 bytes: never equal to a 32-byte digest
    let asym_sig = process_text_sign(b"hello world", &bundle[0], TextSignFormat::Ed25519).unwrap();
    assert_eq!(
        process_text_verify(b"hello world", &key, TextSignFormat::Blake3, &asym_sig),
        Ok(false)
    );
}

#[test]
fn trailing_whitespace_is_trimmed_from_asymmetric_key_files() {
    let data = b"hello world";

    // 32 key bytes plus a trailing newline load as the same signing key
    let sk = [7u8; 32];
    let mut sk_file = sk.to_vec();
    sk_file.push(b'\n');
    let from_file = Ed25519Signer::try_new(&sk_file).unwrap();
    let plain = Ed25519Signer::try_new(&sk).unwrap();
    assert_eq!(from_file.sign(&data[..]), plain.sign(&data[..]));

    // likewise for a public-key file; the key itself must not end in a
    // whitespace byte, else the trim would eat into it, so draw until it
    // does not
    let is_ws = |b: u8| b == b' ' || b == b'\t' || b == b'\n' || b == b'\r';
    let bundle = loop {
        let bundle = process_text_generate(TextSignFormat::Ed25519).unwrap();
        if !is_ws(bundle[1][31]) {
            break bundle;
        }
    };
    let signer = Ed25519Signer::try_new(&bundle[0]).unwrap();
    let mut pk_file = bundle[1].clone();
    pk_file.extend_from_slice(b" \r\n");
    let verifier = Ed25519Verifier::try_new(&pk_file).unwrap();
    assert_eq!(verifier.verify(&data[..], &signer.sign(&data[..])), Ok(true));

    // the dispatch level trims the same way
    let sig = process_text_sign(&data[..], &bundle[0], TextSignFormat::Ed25519).unwrap();
    assert_eq!(
        process_text_verify(&data[..], &pk_file, TextSignFormat::Ed25519, &sig),
        Ok(true)
    );
}

#[test]
fn exactly_32_raw_bytes_are_never_trimmed() {
    // a generated key is raw bytes: even one ending in newlines must load
    let key = [b'\n'; 32];
    let loaded = Ed25519Signer::try_new(&key).unwrap();
    let direct = Ed25519Signer::new(key);
    let data = b"hello world";
    assert_eq!(loaded.sign(&data[..]), direct.sign(&data[..]));
}

#[test]
fn asymmetric_key_short_after_trimming_is_rejected() {
    // raw length 31: trimming the newline leaves 30 key bytes
    let mut file = vec![7u8; 30];
    file.push(b'\n');
    assert!(matches!(
        Ed25519Signer::try_new(&file),
        Err(Error::InvalidKeyLength)
    ));
    assert!(matches!(
        Ed25519Verifier::try_new(&file),
        Err(Error::InvalidKeyLength)
    ));
}

#[test]
fn invalid_public_key_point_is_rejected() {
    // about half of all 32-byte strings decompress to no curve point; one
    // turns up among the small values, and it must give `InvalidKey`
    let mut found = false;
    for b in 0u8..=255 {
        let mut candidate = [0u8; 32];
        candidate[0] = b;
        match Ed25519Verifier::try_new(&candidate) {
            Err(Error::InvalidKey) => {
                found = true;
                break;
            }
            Err(other) => panic!("wrong error kind: {}", other.message()),
            Ok(_) => {}
        }
    }
    assert!(found);
}
