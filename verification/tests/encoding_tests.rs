use rcli::{decode_std, decode_url, encode_std, encode_url, process_decode, process_encode};
use rcli::{Base64Format, Error, TextSignFormat};

#[test]
fn test_process_encode() {
    assert_eq!(
        process_encode(b"hello world", Base64Format::Standard),
        "aGVsbG8gd29ybGQ="
    );
    assert_eq!(
        process_encode(b"hello world", Base64Format::UrlSafe),
        "aGVsbG8gd29ybGQ"
    );
}

#[test]
fn test_process_decode() {
    assert_eq!(
        process_decode("aGVsbG8gd29ybGQ=", Base64Format::Standard),
        Ok(b"hello world".to_vec())
    );
    assert_eq!(
        process_decode("aGVsbG8gd29ybGQ", Base64Format::UrlSafe),
        Ok(b"hello world".to_vec())
    );
}

#[test]
fn decode_ignores_surrounding_whitespace() {
    assert_eq!(
        process_decode("  aGVsbG8gd29ybGQ=\n", Base64Format::Standard),
        Ok(b"hello world".to_vec())
    );
    assert_eq!(
        process_decode("\t aGk \r\n", Base64Format::UrlSafe),
        Ok(b"hi".to_vec())
    );
}

#[test]
fn url_safe_uses_its_own_alphabet() {
    // 0xfb 0xff renders with '-' and '_' in the URL-safe alphabet
    let bytes = [0xfbu8, 0xffu8];
    assert_eq!(encode_url(&bytes), "-_8");
    assert_eq!(encode_std(&bytes), "+/8=");
    assert_eq!(decode_url(b"-_8"), Ok(bytes.to_vec()));
    assert_eq!(decode_std(b"+/8="), Ok(bytes.to_vec()));
}

#[test]
fn every_byte_value_round_trips() {
    let mut all: Vec<u8> = Vec::new();
    for b in 0..=255u8 {
        all.push(b);
    }
    let url = encode_url(&all);
    assert_eq!(decode_url(url.as_bytes()), Ok(all.clone()));
    let std_text = encode_std(&all);
    assert_eq!(decode_std(std_text.as_bytes()), Ok(all.clone()));
}

#[test]
fn empty_input_round_trips() {
    assert_eq!(encode_url(b""), "");
    assert_eq!(encode_std(b""), "");
    assert_eq!(decode_url(b""), Ok(Vec::new()));
    assert_eq!(decode_std(b""), Ok(Vec::new()));
}

#[test]
fn invalid_character_is_a_decode_error() {
    assert_eq!(decode_url(b"aG Vs"), Err(Error::DecodeError));
    assert_eq!(decode_std(b"aG!s"), Err(Error::DecodeError));
    // the scheme dispatch surfaces the same error, not a crash
    let key = [9u8; 32];
    assert_eq!(
        rcli::process_text_verify(b"hello world", &key, TextSignFormat::Blake3, "bad sig"),
        Err(Error::DecodeError)
    );
}

#[test]
fn malformed_shape_is_a_decode_error() {
    // a length of one modulo four can encode nothing
    assert_eq!(decode_url(b"a"), Err(Error::DecodeError));
    // the padded rendering demands its padding...
    assert_eq!(decode_std(b"aGk"), Err(Error::DecodeError));
    assert_eq!(decode_std(b"===="), Err(Error::DecodeError));
    // ...and the unpadded rendering forbids it
    assert_eq!(decode_url(b"aGk="), Err(Error::DecodeError));
    // non-zero trailing bits are not a canonical encoding
    assert_eq!(decode_url(b"aGl"), Err(Error::DecodeError));
}
