use cylinder::secp256k1::Secp256k1Context;
use cylinder::{Context, PrivateKey};
use sawtooth_keys::{
    first_line, key_file_path, locate_key_file, parse_key_file, parse_private_key,
    resolve_identity, resolve_key_path, KeyError,
};

const KEY_HEX: &str = "2f1e7b7a130d7ba9da0068b3bb0ba1d79e7e77110302c9f746c3c2a63fe40088";
const PATH: &str = "/home/alice/.sawtooth/keys/alice.priv";

fn key_bytes() -> Vec<u8> {
    vec![
        0x2f, 0x1e, 0x7b, 0x7a, 0x13, 0x0d, 0x7b, 0xa9, 0xda, 0x00, 0x68, 0xb3, 0xbb, 0x0b, 0xa1,
        0xd7, 0x9e, 0x7e, 0x77, 0x11, 0x03, 0x02, 0xc9, 0xf7, 0x46, 0xc3, 0xc2, 0xa6, 0x3f, 0xe4,
        0x00, 0x88,
    ]
}

#[test]
fn loaded_key_signs_verifiably() {
    let path = resolve_key_path(Some("alice"), None, None, Some("/home/alice")).unwrap();
    assert_eq!(path, PATH);
    let contents = format!("{}\n", KEY_HEX);
    let bytes = parse_key_file(&path, Some(&contents)).unwrap();
    assert_eq!(bytes, key_bytes());

    let context = Secp256k1Context::new();
    let signer = context.new_signer(PrivateKey::new(bytes));
    let message = b"hello, world";
    let signature = signer.sign(message).unwrap();
    let public_key = signer.public_key().unwrap();
    let verifier = context.new_verifier();
    assert!(verifier.verify(message, &signature, &public_key).unwrap());
    assert!(!verifier.verify(b"another message", &signature, &public_key).unwrap());
}

#[test]
fn identity_unresolved_without_any_source() {
    assert_eq!(resolve_identity(None, None, None), Err(KeyError::IdentityUnresolved));
    assert_eq!(
        resolve_key_path(None, None, None, Some("/home/alice")),
        Err(KeyError::IdentityUnresolved)
    );
    assert_eq!(resolve_key_path(None, None, None, None), Err(KeyError::IdentityUnresolved));
}

#[test]
fn identity_sources_in_priority_order() {
    assert_eq!(resolve_identity(Some("a"), Some("b"), Some("c")), Ok(String::from("a")));
    assert_eq!(resolve_identity(None, Some("b"), Some("c")), Ok(String::from("b")));
    assert_eq!(resolve_identity(None, None, Some("c")), Ok(String::from("c")));
}

#[test]
fn home_directory_unresolved() {
    assert_eq!(
        resolve_key_path(Some("alice"), None, None, None),
        Err(KeyError::HomeDirectoryUnresolved)
    );
}

#[test]
fn key_path_layout() {
    assert_eq!(key_file_path("/home/alice", "alice"), PATH);
    assert_eq!(key_file_path("/home/alice/", "alice"), PATH);
    assert_eq!(key_file_path("/", "bob"), "/.sawtooth/keys/bob.priv");
    assert_eq!(key_file_path("", "bob"), ".sawtooth/keys/bob.priv");
    assert_eq!(
        resolve_key_path(None, Some("bob"), Some("root"), Some("/home/bob")),
        Ok(String::from("/home/bob/.sawtooth/keys/bob.priv"))
    );
}

#[test]
fn locate_with_explicit_name() {
    match locate_key_file(Some("alice"), Some("bob")) {
        Ok(path) => assert!(path.ends_with(".sawtooth/keys/alice.priv")),
        Err(e) => assert_eq!(e, KeyError::HomeDirectoryUnresolved),
    }
}

#[test]
fn missing_key_file_names_path() {
    let err = parse_key_file(PATH, None).unwrap_err();
    assert_eq!(err, KeyError::KeyFileNotFound { path: String::from(PATH) });
    assert_eq!(err.message(), format!("No such key file: {}", PATH));
}

#[test]
fn empty_key_file() {
    let err = parse_key_file(PATH, Some("")).unwrap_err();
    assert_eq!(err, KeyError::EmptyKeyFile { path: String::from(PATH) });
    assert_eq!(err.message(), format!("Empty key file: {}", PATH));
}

#[test]
fn first_line_not_hex() {
    let err = parse_key_file(PATH, Some("zz\n")).unwrap_err();
    assert_eq!(
        err,
        KeyError::KeyParseError {
            path: String::from(PATH),
            reason: String::from("invalid character position 0"),
        }
    );
    assert_eq!(
        err.message(),
        format!("Unable to parse private key file {}: invalid character position 0", PATH)
    );
    assert_eq!(
        parse_private_key("0123456789abcdef0123g"),
        Err(String::from("invalid character position 20"))
    );
}

#[test]
fn first_line_odd_number_of_digits() {
    assert_eq!(parse_private_key("abc"), Err(String::from("odd number of hex digits")));
}

#[test]
fn first_line_not_a_curve_key() {
    let zeros = "00".repeat(32);
    assert_eq!(
        parse_private_key(&zeros),
        Err(String::from("not a valid secp256k1 private key"))
    );
    assert_eq!(parse_private_key("0102"), Err(String::from("not a valid secp256k1 private key")));
}

#[test]
fn first_line_empty_is_a_parse_error() {
    let err = parse_key_file(PATH, Some("\n")).unwrap_err();
    assert_eq!(
        err,
        KeyError::KeyParseError {
            path: String::from(PATH),
            reason: String::from("not a valid secp256k1 private key"),
        }
    );
}

#[test]
fn trailing_lines_ignored() {
    let contents = format!("{}\nnot a key\n\u{00e9}\u{00e9}\n", KEY_HEX);
    assert_eq!(parse_key_file(PATH, Some(&contents)), Ok(key_bytes()));
    let crlf = format!("{}\r\ngarbage", KEY_HEX);
    assert_eq!(parse_key_file(PATH, Some(&crlf)), Ok(key_bytes()));
    assert_eq!(parse_key_file(PATH, Some(KEY_HEX)), Ok(key_bytes()));
}

#[test]
fn upper_case_digits_decode() {
    assert_eq!(parse_private_key(&KEY_HEX.to_uppercase()), Ok(key_bytes()));
}

#[test]
fn first_line_as_lines_gives_it() {
    assert_eq!(first_line(""), None);
    assert_eq!(first_line("\n"), Some(String::from("")));
    assert_eq!(first_line("ab\r\ncd"), Some(String::from("ab")));
    assert_eq!(first_line("ab\r"), Some(String::from("ab\r")));
    assert_eq!(first_line("ab"), Some(String::from("ab")));
}

#[test]
fn messages() {
    assert_eq!(
        KeyError::IdentityUnresolved.message(),
        "Could not load signing key: unable to determine username"
    );
    assert_eq!(
        KeyError::HomeDirectoryUnresolved.message(),
        "Could not load signing key: unable to determine home directory"
    );
    let e = KeyError::KeyFileUnreadable { path: String::from("k"), reason: String::from("denied") };
    assert_eq!(e.message(), "Unable to read key file k: denied");
}
