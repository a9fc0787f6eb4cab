use super::str_eq;
use crate::error::{error_message, TextError};
use vstd::prelude::*;

verus! {

/// The base64 alphabet of the encode and decode commands.
#[derive(Debug, Clone, Copy, PartialEq, Eq, Structural)]
pub enum Base64Format {
    /// The standard alphabet, with padding.
    Standard,
    /// The URL-safe alphabet, without padding.
    UrlSafe,
}

/// The alphabet that a token names, if any.
pub open spec fn base64_format_of(token: Seq<char>) -> Option<Base64Format> {
    if token == "standard"@ {
        Some(Base64Format::Standard)
    } else if token == "urlsafe"@ {
        Some(Base64Format::UrlSafe)
    } else {
        None
    }
}

impl Base64Format {
    /// The token that names this format.
    pub fn as_str(&self) -> (r: &'static str)
        ensures
            base64_format_of(r@) == Some(*self),
    {
        proof {
            reveal_strlit("standard");
            reveal_strlit("urlsafe");
        }
        match self {
            Base64Format::Standard => {
                let name = "standard";
                assert(name@ == "standard"@);
                name
            },
            Base64Format::UrlSafe => {
                let name = "urlsafe";
                assert(name@ == "urlsafe"@);
                assert(name@ != "standard"@) by {
                    assert(name@[0] != "standard"@[0]);
                }
                name
            },
        }
    }
}

/// Reads an alphabet token; any token but `standard` and `urlsafe` is
/// refused with `Base64FormatError`, whose message is "Unsupported base64
/// format".
pub fn parse_base64_format(format: &str) -> (r: Result<Base64Format, TextError>)
    ensures
        match base64_format_of(format@) {
            Some(f) => r == Ok::<Base64Format, TextError>(f),
            None => r == Err::<Base64Format, TextError>(TextError::Base64FormatError),
        },
        r matches Err(e) ==> error_message(e) == "Unsupported base64 format"@,
{
    if str_eq(format, "standard") {
        Ok(Base64Format::Standard)
    } else if str_eq(format, "urlsafe") {
        Ok(Base64Format::UrlSafe)
    } else {
        Err(TextError::Base64FormatError)
    }
}

/// Options of the base64 encode command.
pub struct Base64EncodeOpts {
    pub input: String,
    pub format: Base64Format,
}

/// Options of the base64 decode command.
pub struct Base64DecodeOpts {
    pub input: String,
    pub format: Base64Format,
}

/// The base64 commands.
pub enum Base64SubCommand {
    Encode(Base64EncodeOpts),
    Decode(Base64DecodeOpts),
}

} // verus!
