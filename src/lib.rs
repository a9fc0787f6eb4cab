//! Text signing, verification, authenticated encryption and key generation
//! over byte messages, with every engine, key loader and dispatch step
//! stated and proved against its contract.

pub mod cli;
mod codec;
mod error;
mod gen_pass;
mod http;
mod jwt;
pub mod laws;
mod primitives;
mod text;

pub use cli::base64::{parse_base64_format, Base64DecodeOpts, Base64EncodeOpts, Base64Format, Base64SubCommand};
pub use cli::csv::{pair_record, verify_input_file, CsvOpts, OutputFormat};
pub use cli::text::{
    key_files, parse_format, TextDecryptOpts, TextEncryptOpts, TextKeyGenerateOpts, TextSignFormat,
    TextSignOpts, TextSubCommand, TextVerifyOpts,
};
pub use cli::jwt::{expiry_from, parse_duration, parse_exp};
pub use cli::{accept_dir, accept_input, verify_file, verify_path};
pub use codec::{
    b64_decoded, b64_encoded, b64_standard_decoded, b64_standard_encoded, encodable_len,
    unpadded_len,
    process_decode, process_encode,
};
pub use error::TextError;
pub use gen_pass::process_genpass;
pub use http::{dir_listing, reply_for, Reply};
pub use jwt::Claims;
pub use primitives::{
    blake3_keyed_hash, chacha_opened, chacha_sealed, ed25519_accepts, ed25519_point, ed25519_public,
    ed25519_signature, CHACHA_MAX_BLOCKS,
};
pub use text::{
    process_generate_key, process_text_decrypt, process_text_encrypt, process_text_sign,
    process_text_verify, Blake3, ChaCha20Poly1305Engine, Ed25519Signer, Ed25519Verifier,
    KeyGenerator, KeyLoader, TextSign, TextVerify,
};
