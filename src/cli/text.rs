use super::str_eq;
use crate::error::{error_message, TextError};
use vstd::prelude::*;

verus! {

/// The signature scheme that the sign, verify and generate commands use.
#[derive(Debug, Clone, Copy, PartialEq, Eq, Structural)]
pub enum TextSignFormat {
    /// Keyed BLAKE3 hash, a MAC over a shared 32-byte key.
    Blake3,
    /// Ed25519 signatures with a secret seed and a public key.
    Ed25519,
}

/// The format that a token names, if any.
pub open spec fn sign_format_of(token: Seq<char>) -> Option<TextSignFormat> {
    if token == "blake3"@ {
        Some(TextSignFormat::Blake3)
    } else if token == "ed25519"@ {
        Some(TextSignFormat::Ed25519)
    } else {
        None
    }
}

/// Reads a format token; any token but `blake3` and `ed25519` is refused
/// with `ConfigError`, whose message is "Unsupported sign format".
pub fn parse_format(format: &str) -> (r: Result<TextSignFormat, TextError>)
    ensures
        match sign_format_of(format@) {
            Some(f) => r == Ok::<TextSignFormat, TextError>(f),
            None => r == Err::<TextSignFormat, TextError>(TextError::ConfigError),
        },
        r matches Err(e) ==> error_message(e) == "Unsupported sign format"@,
{
    if str_eq(format, "blake3") {
        Ok(TextSignFormat::Blake3)
    } else if str_eq(format, "ed25519") {
        Ok(TextSignFormat::Ed25519)
    } else {
        Err(TextError::ConfigError)
    }
}

impl TextSignFormat {
    /// The token that names this format.
    pub fn as_str(&self) -> (r: &'static str)
        ensures
            sign_format_of(r@) == Some(*self),
    {
        proof {
            reveal_strlit("blake3");
            reveal_strlit("ed25519");
        }
        match self {
            TextSignFormat::Blake3 => {
                let name = "blake3";
                assert(name@ == "blake3"@);
                name
            },
            TextSignFormat::Ed25519 => {
                let name = "ed25519";
                assert(name@ == "ed25519"@);
                assert(name@ != "blake3"@) by {
                    assert(name@.len() != "blake3"@.len());
                }
                name
            },
        }
    }
}


/// How many key files generation writes for a format.
pub open spec fn key_file_count(format: TextSignFormat) -> nat {
    match format {
        TextSignFormat::Blake3 => 1,
        TextSignFormat::Ed25519 => 2,
    }
}

/// The name of the `i`-th key file of a format: `blake3.txt` for the keyed
/// hash, `ed25519.sk` then `ed25519.pk` for Ed25519.
pub open spec fn key_file_name(format: TextSignFormat, i: int) -> Seq<char> {
    match format {
        TextSignFormat::Blake3 => "blake3.txt"@,
        TextSignFormat::Ed25519 => if i == 0 {
            "ed25519.sk"@
        } else {
            "ed25519.pk"@
        },
    }
}

/// Pairs each generated key with the name of the file that holds it, in
/// the order of generation: secret key first.
pub fn key_files(format: TextSignFormat, keys: Vec<Vec<u8>>) -> (r: Vec<(&'static str, Vec<u8>)>)
    requires
        keys@.len() == key_file_count(format),
    ensures
        r@.len() == keys@.len(),
        forall|i: int|
            0 <= i < r@.len() ==> (#[trigger] r@[i]).0@ == key_file_name(format, i) && r@[i].1@
                == keys@[i]@,
{
    let mut keys = keys;
    match format {
        TextSignFormat::Blake3 => {
            let key = keys.pop().unwrap();
            vec![("blake3.txt", key)]
        },
        TextSignFormat::Ed25519 => {
            let pk = keys.pop().unwrap();
            let sk = keys.pop().unwrap();
            vec![("ed25519.sk", sk), ("ed25519.pk", pk)]
        },
    }
}

/// Options of the sign command.
pub struct TextSignOpts {
    pub input: String,
    pub key: String,
    pub format: TextSignFormat,
}

/// Options of the verify command.
pub struct TextVerifyOpts {
    pub input: String,
    pub key: String,
    pub format: TextSignFormat,
    pub sig: String,
}

/// Options of the key generation command: the directory to write into.
pub struct TextKeyGenerateOpts {
    pub format: TextSignFormat,
    pub output: String,
}

/// Options of the encrypt command.
pub struct TextEncryptOpts {
    pub input: String,
    pub key: String,
}

/// Options of the decrypt command.
pub struct TextDecryptOpts {
    pub input: String,
    pub key: String,
}

/// The text commands.
pub enum TextSubCommand {
    Sign(TextSignOpts),
    Verify(TextVerifyOpts),
    Generate(TextKeyGenerateOpts),
    Encrypt(TextEncryptOpts),
    Decrypt(TextDecryptOpts),
}

} // verus!
