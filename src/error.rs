use vstd::prelude::*;

verus! {

/// The failures that the text engines report.
#[derive(Debug, Clone, Copy, PartialEq, Eq, Structural)]
pub enum TextError {
    /// The key bytes are too short or do not form a valid key.
    KeyError,
    /// The input is not URL-safe base64 without padding.
    EncodingError,
    /// The signature bytes do not have the scheme's fixed length.
    VerificationError,
    /// The authentication tag did not verify, or the cipher refused the input.
    CryptoError,
    /// The algorithm format token is not one that the engines know.
    ConfigError,
    /// The base64 alphabet token is not one that the codec knows.
    Base64FormatError,
    /// The CSV output format token is not one that the converter knows.
    OutputFormatError,
    /// The decrypted plaintext is not valid UTF-8.
    Utf8Error,
}

/// The description of each failure.
pub open spec fn error_message(e: TextError) -> Seq<char> {
    match e {
        TextError::KeyError => "invalid key material"@,
        TextError::EncodingError => "invalid base64 input"@,
        TextError::VerificationError => "malformed signature"@,
        TextError::CryptoError => "authentication failed"@,
        TextError::ConfigError => "Unsupported sign format"@,
        TextError::Base64FormatError => "Unsupported base64 format"@,
        TextError::OutputFormatError => "Unsupported output format"@,
        TextError::Utf8Error => "plaintext is not valid UTF-8"@,
    }
}

impl TextError {
    /// A short human-readable description of the failure.
    pub fn message(&self) -> (r: &'static str)
        ensures
            r@ == error_message(*self),
    {
        match self {
            TextError::KeyError => "invalid key material",
            TextError::EncodingError => "invalid base64 input",
            TextError::VerificationError => "malformed signature",
            TextError::CryptoError => "authentication failed",
            TextError::ConfigError => "Unsupported sign format",
            TextError::Base64FormatError => "Unsupported base64 format",
            TextError::OutputFormatError => "Unsupported output format",
            TextError::Utf8Error => "plaintext is not valid UTF-8",
        }
    }
}

} // verus!
