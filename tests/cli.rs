use rcli::{
    accept_dir, accept_input, key_files, parse_base64_format, parse_format, verify_file,
    verify_input_file, verify_path, Base64Format, TextError, TextSignFormat,
};

#[test]
fn test_verify_file() {
    assert_eq!(verify_file("-"), Ok("-".into()));
    assert_eq!(verify_file("*"), Err("Input file does not exist"));
    assert_eq!(verify_file("src/lib.rs"), Ok("src/lib.rs".into()));
    assert_eq!(verify_file("nonexistent"), Err("Input file does not exist"));
}

#[test]
fn accept_input_uses_the_probe_only_for_files() {
    assert_eq!(accept_input("-", false), Ok("-".to_string()));
    assert_eq!(accept_input("a.txt", true), Ok("a.txt".to_string()));
    assert_eq!(accept_input("a.txt", false), Err("Input file does not exist"));
}

#[test]
fn csv_input_must_exist() {
    assert_eq!(verify_input_file("src/lib.rs"), Ok("src/lib.rs".to_string()));
    assert_eq!(verify_input_file("-"), Err("Input file does not exist"));
}

#[test]
fn output_path_must_be_a_directory() {
    assert_eq!(verify_path("tests"), Ok("tests".to_string()));
    assert_eq!(verify_path("src/lib.rs"), Err("Path does not exist or is not a directory"));
    assert_eq!(accept_dir("x", true, false), Err("Path does not exist or is not a directory"));
    assert_eq!(accept_dir("x", true, true), Ok("x".to_string()));
}

#[test]
fn sign_format_tokens() {
    assert_eq!(parse_format("blake3"), Ok(TextSignFormat::Blake3));
    assert_eq!(parse_format("ed25519"), Ok(TextSignFormat::Ed25519));
    assert_eq!(parse_format("rsa"), Err(TextError::ConfigError));
    assert_eq!(parse_format("Blake3"), Err(TextError::ConfigError));
    assert_eq!(parse_format(""), Err(TextError::ConfigError));
    assert_eq!(TextSignFormat::Blake3.as_str(), "blake3");
    assert_eq!(TextSignFormat::Ed25519.as_str(), "ed25519");
}

#[test]
fn other_format_tokens() {
    assert_eq!(parse_base64_format("standard"), Ok(Base64Format::Standard));
    assert_eq!(parse_base64_format("urlsafe"), Ok(Base64Format::UrlSafe));
    assert_eq!(parse_base64_format("url"), Err(TextError::Base64FormatError));
    assert_eq!(rcli::cli::csv::parse_format("json"), Ok(rcli::OutputFormat::Json));
    assert_eq!(rcli::cli::csv::parse_format("yaml"), Ok(rcli::OutputFormat::Yaml));
    assert_eq!(rcli::cli::csv::parse_format("toml"), Err(TextError::OutputFormatError));
    assert_eq!(rcli::OutputFormat::Json.as_str(), "json");
    assert_eq!(rcli::OutputFormat::Yaml.as_str(), "yaml");
    assert_eq!(Base64Format::Standard.as_str(), "standard");
    assert_eq!(Base64Format::UrlSafe.as_str(), "urlsafe");
}

#[test]
fn key_file_names() {
    let one = key_files(TextSignFormat::Blake3, vec![vec![1u8; 32]]);
    assert_eq!(one, vec![("blake3.txt", vec![1u8; 32])]);
    let two = key_files(TextSignFormat::Ed25519, vec![vec![1u8; 32], vec![2u8; 32]]);
    assert_eq!(two, vec![("ed25519.sk", vec![1u8; 32]), ("ed25519.pk", vec![2u8; 32])]);
}

#[test]
fn claims_keep_their_fields() {
    let c = rcli::Claims::new("me".to_string(), "you".to_string(), 42);
    assert_eq!(c.sub, "me");
    assert_eq!(c.aud, "you");
    assert_eq!(c.exp, 42);
}

#[test]
fn format_refusals_keep_their_messages() {
    assert_eq!(parse_format("rsa").unwrap_err().message(), "Unsupported sign format");
    assert_eq!(parse_base64_format("hex").unwrap_err().message(), "Unsupported base64 format");
    assert_eq!(
        rcli::cli::csv::parse_format("xml").unwrap_err().message(),
        "Unsupported output format"
    );
}
