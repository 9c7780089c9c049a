use rcli::{parse_format, parser_base64_format, parser_format, verify_file, verify_path};
use rcli::{Base64Format, Error, OutputFormat, TextSignFormat};

#[test]
fn test_verify_input_file() {
    assert_eq!(verify_file("-"), Ok("-".into()));
    assert_eq!(verify_file("src/lib.rs"), Ok("src/lib.rs".into()));
    assert_eq!(
        verify_file("non_existent_file"),
        Err("File does not exist.".into())
    );
}

#[test]
fn verify_path_accepts_directories_only() {
    assert_eq!(verify_path("src"), Ok("src".into()));
    assert_eq!(
        verify_path("Cargo.toml"),
        Err("Path does not exist or is not a directory.".into())
    );
    assert_eq!(
        verify_path("no_such_directory"),
        Err("Path does not exist or is not a directory.".into())
    );
}

#[test]
fn parse_format_recognizes_the_two_schemes() {
    assert_eq!(parse_format("blake3"), Ok(TextSignFormat::Blake3));
    assert_eq!(parse_format("ed25519"), Ok(TextSignFormat::Ed25519));
    assert_eq!(parse_format("hmac"), Err(Error::UnsupportedScheme));
    assert_eq!(parse_format("Blake3"), Err(Error::UnsupportedScheme));
}

#[test]
fn parser_base64_format_recognizes_the_two_renderings() {
    assert_eq!(parser_base64_format("standard"), Ok(Base64Format::Standard));
    assert_eq!(parser_base64_format("urlsafe"), Ok(Base64Format::UrlSafe));
    assert_eq!(parser_base64_format("mime"), Err(Error::UnsupportedFormat));
}

#[test]
fn parser_format_ignores_letter_case() {
    assert_eq!(parser_format("json"), Ok(OutputFormat::Json));
    assert_eq!(parser_format("JSON"), Ok(OutputFormat::Json));
    assert_eq!(parser_format("YaMl"), Ok(OutputFormat::Yaml));
    assert_eq!(parser_format("toml"), Err(Error::UnsupportedFormat));
}

#[test]
fn format_tags_render_back() {
    assert_eq!(TextSignFormat::Blake3.as_str(), "blake3");
    assert_eq!(TextSignFormat::Ed25519.as_str(), "ed25519");
    assert_eq!(Base64Format::Standard.as_str(), "standard");
    assert_eq!(Base64Format::UrlSafe.as_str(), "urlsafe");
    assert_eq!(OutputFormat::Json.as_str(), "json");
    assert_eq!(OutputFormat::Yaml.as_str(), "yaml");
}

#[test]
fn error_messages_name_the_kind() {
    assert_eq!(
        Error::UnsupportedScheme.message(),
        "unsupported scheme. Supported schemes: blake3, ed25519"
    );
    assert_eq!(
        Error::InvalidKeyLength.message(),
        "key length does not match the scheme"
    );
}
