use vstd::prelude::*;

verus! {

/// Why a signing key could not be loaded.
#[derive(Debug, PartialEq, Eq)]
pub enum KeyError {
    /// No explicit name was given, `USER` is unset and the operating system
    /// does not know the current user.
    IdentityUnresolved,
    /// The home directory could not be determined.
    HomeDirectoryUnresolved,
    /// There is no file at the key's path.
    KeyFileNotFound { path: String },
    /// The key file exists but could not be read.
    KeyFileUnreadable { path: String, reason: String },
    /// The key file holds no lines.
    EmptyKeyFile { path: String },
    /// The first line of the key file is not a valid secp256k1 private key in hex.
    KeyParseError { path: String, reason: String },
}

/// The text shown to a user for an error.
pub open spec fn message_of(e: KeyError) -> Seq<char> {
    match e {
        KeyError::IdentityUnresolved =>
            "Could not load signing key: unable to determine username"@,
        KeyError::HomeDirectoryUnresolved =>
            "Could not load signing key: unable to determine home directory"@,
        KeyError::KeyFileNotFound { path } => "No such key file: "@ + path@,
        KeyError::KeyFileUnreadable { path, reason } =>
            "Unable to read key file "@ + path@ + ": "@ + reason@,
        KeyError::EmptyKeyFile { path } => "Empty key file: "@ + path@,
        KeyError::KeyParseError { path, reason } =>
            "Unable to parse private key file "@ + path@ + ": "@ + reason@,
    }
}

impl KeyError {
    /// A human-readable description of the error.
    pub fn message(&self) -> (r: String)
        ensures
            r@ == message_of(*self),
    {
        match self {
            KeyError::IdentityUnresolved => String::from_str(
                "Could not load signing key: unable to determine username",
            ),
            KeyError::HomeDirectoryUnresolved => String::from_str(
                "Could not load signing key: unable to determine home directory",
            ),
            KeyError::KeyFileNotFound { path } => {
                String::from_str("No such key file: ").concat(path.as_str())
            },
            KeyError::KeyFileUnreadable { path, reason } => {
                String::from_str("Unable to read key file ").concat(path.as_str()).concat(
                    ": ",
                ).concat(reason.as_str())
            },
            KeyError::EmptyKeyFile { path } => {
                String::from_str("Empty key file: ").concat(path.as_str())
            },
            KeyError::KeyParseError { path, reason } => {
                String::from_str("Unable to parse private key file ").concat(
                    path.as_str(),
                ).concat(": ").concat(reason.as_str())
            },
        }
    }
}

} // verus!
