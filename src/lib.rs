//! Locating and reading a user's secp256k1 signing key.
//!
//! The key of a user lives at `$HOME/.sawtooth/keys/<name>.priv`, and the first
//! line of that file holds the private key as hex digits. This library decides
//! which name and path to use, and turns the contents of the file into key
//! bytes; reading the environment and the file is left to the caller.

mod error;
mod identity;
mod keyfile;

pub use error::KeyError;
pub use identity::{key_file_path, locate_key_file, resolve_identity, resolve_key_path};
pub use keyfile::{first_line, lemma_trailing_lines_ignored, parse_key_file, parse_private_key};
