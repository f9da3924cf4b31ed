use vstd::prelude::*;
use crate::error::KeyError;

verus! {

/// Whether `i` is the position of the first line feed in `s`.
pub open spec fn is_first_newline(s: Seq<char>, i: int) -> bool {
    &&& 0 <= i < s.len()
    &&& s[i] == '\n'
    &&& forall|j: int| 0 <= j < i ==> s[j] != '\n'
}

/// A line without its line ending's carriage return.
pub open spec fn strip_cr(line: Seq<char>) -> Seq<char> {
    if line.len() > 0 && line.last() == '\r' {
        line.drop_last()
    } else {
        line
    }
}

/// The first line of a text: `None` for the empty text; otherwise what stands
/// before the first line feed, without a carriage return just before it, or the
/// whole text where it holds no line feed.
pub open spec fn first_line_of(s: Seq<char>) -> Option<Seq<char>> {
    if s.len() == 0 {
        None
    } else if exists|i: int| is_first_newline(s, i) {
        let i = choose|i: int| is_first_newline(s, i);
        Some(strip_cr(s.take(i)))
    } else {
        Some(s)
    }
}

pub open spec fn is_hex(c: char) -> bool {
    ('0' <= c && c <= '9') || ('a' <= c && c <= 'f') || ('A' <= c && c <= 'F')
}

pub open spec fn all_hex(s: Seq<char>) -> bool {
    forall|i: int| 0 <= i < s.len() ==> is_hex(s[i])
}

/// The value of a hex digit.
pub open spec fn hex_value(c: char) -> int {
    if '0' <= c && c <= '9' {
        c as int - '0' as int
    } else if 'a' <= c && c <= 'f' {
        c as int - 'a' as int + 10
    } else {
        c as int - 'A' as int + 10
    }
}

/// The bytes that a string of hex digits spells, two digits to a byte, the
/// high digit first.
pub open spec fn hex_decode(s: Seq<char>) -> Seq<u8> {
    Seq::new(
        (s.len() / 2) as nat,
        |k: int| (16 * hex_value(s[2 * k]) + hex_value(s[2 * k + 1])) as u8,
    )
}

/// Whether `i` is the position of the first character of `s` that is no hex digit.
pub open spec fn is_first_invalid(s: Seq<char>, i: int) -> bool {
    &&& 0 <= i < s.len()
    &&& !is_hex(s[i])
    &&& forall|j: int| 0 <= j < i ==> is_hex(s[j])
}

pub open spec fn digit_char(d: nat) -> char {
    if d == 0 {
        '0'
    } else if d == 1 {
        '1'
    } else if d == 2 {
        '2'
    } else if d == 3 {
        '3'
    } else if d == 4 {
        '4'
    } else if d == 5 {
        '5'
    } else if d == 6 {
        '6'
    } else if d == 7 {
        '7'
    } else if d == 8 {
        '8'
    } else {
        '9'
    }
}

/// The decimal digits of a number.
pub open spec fn decimal(n: nat) -> Seq<char>
    decreases n,
{
    if n < 10 {
        seq![digit_char(n)]
    } else {
        decimal(n / 10) + seq![digit_char(n % 10)]
    }
}

/// Whether secp256k1 accepts the bytes as a secret key.
pub uninterp spec fn is_secp256k1_secret(key: Seq<u8>) -> bool;

/// The key that a line of hex digits gives, or why it gives none.
pub open spec fn key_from_line(line: Seq<char>) -> Result<Seq<u8>, Seq<char>> {
    if !all_hex(line) {
        Err("invalid character position "@ + decimal(
            (choose|i: int| is_first_invalid(line, i)) as nat,
        ))
    } else if line.len() % 2 == 1 {
        Err("odd number of hex digits"@)
    } else if !is_secp256k1_secret(hex_decode(line)) {
        Err("not a valid secp256k1 private key"@)
    } else {
        Ok(hex_decode(line))
    }
}

/// What a key file's contents give: `None` where the file holds no line,
/// otherwise what its first line gives.
pub open spec fn key_from_contents(contents: Seq<char>) -> Option<Result<Seq<u8>, Seq<char>>> {
    match first_line_of(contents) {
        None => None,
        Some(line) => Some(key_from_line(line)),
    }
}

/// Whether `r` is what loading the key file at `path` reports, where `contents`
/// is `None` for a missing file and the file's text otherwise.
pub open spec fn reports_key_file(
    path: Seq<char>,
    contents: Option<&str>,
    r: Result<Vec<u8>, KeyError>,
) -> bool {
    match contents {
        None => r matches Err(KeyError::KeyFileNotFound { path: p }) && p@ == path,
        Some(c) => match key_from_contents(c@) {
            None => r matches Err(KeyError::EmptyKeyFile { path: p }) && p@ == path,
            Some(Ok(key)) => r matches Ok(k) && k@ == key,
            Some(Err(why)) => r matches Err(KeyError::KeyParseError { path: p, reason })
                && p@ == path && reason@ == why,
        },
    }
}

/// Relies on cylinder's `PrivateKey::new_from_hex` (through `hex_str_to_bytes`):
/// it fails, naming the position of the first character that is no hex digit,
/// where there is one, and otherwise turns each pair of digits into a byte. It
/// panics on an odd number of hex digits, which `requires` leaves out.
#[verifier::external_body]
fn decode_hex_key(hex: &str) -> (r: Result<Vec<u8>, String>)
    requires
        !(all_hex(hex@) && hex@.len() % 2 == 1),
    ensures
        r is Ok <==> all_hex(hex@),
        r is Ok ==> r->Ok_0@ == hex_decode(hex@),
        r is Err ==> exists|i: int|
            is_first_invalid(hex@, i) && r->Err_0@ == "invalid character position "@ + decimal(
                i as nat,
            ),
{
    cylinder::PrivateKey::new_from_hex(hex).map(cylinder::PrivateKey::into_bytes).map_err(|e| e.0)
}

/// Relies on cylinder's `Secp256k1Context::get_public_key`, which succeeds
/// exactly where `secp256k1::SecretKey::from_slice` accepts the bytes; that
/// takes 32 bytes only.
#[verifier::external_body]
fn secp256k1_accepts(key: &Vec<u8>) -> (r: bool)
    ensures
        r == is_secp256k1_secret(key@),
        r ==> key@.len() == 32,
{
    let context = cylinder::secp256k1::Secp256k1Context::new();
    cylinder::Context::get_public_key(&context, &cylinder::PrivateKey::new(key.clone())).is_ok()
}

fn is_hex_digit(c: char) -> (r: bool)
    ensures
        r == is_hex(c),
{
    ('0' <= c && c <= '9') || ('a' <= c && c <= 'f') || ('A' <= c && c <= 'F')
}

/// The first line of a text, as `str::lines` gives it.
pub fn first_line(contents: &str) -> (r: Option<String>)
    ensures
        r is None <==> first_line_of(contents@) is None,
        r is Some ==> first_line_of(contents@) == Some(r->Some_0@),
{
    let n = contents.unicode_len();
    if n == 0 {
        return None;
    }
    let mut i: usize = 0;
    let mut found = false;
    while i < n && !found
        invariant
            n == contents@.len(),
            0 <= i <= n,
            forall|j: int| 0 <= j < i ==> contents@[j] != '\n' || (found && j == i - 1),
            found ==> i > 0 && contents@[i - 1] == '\n',
        decreases n - i + (if found { 0int } else { 1 }),
    {
        if contents.get_char(i) == '\n' {
            found = true;
        }
        i = i + 1;
    }
    let ghost s = contents@;
    if !found {
        assert(!exists|k: int| is_first_newline(s, k));
        return Some(String::from_str(contents));
    }
    let end = i - 1;
    assert(is_first_newline(s, end as int));
    assert forall|k: int| is_first_newline(s, k) implies k == end by {
        if k < end {
            assert(s[k] != '\n');
        }
        if k > end {
            assert(s[end as int] != '\n');
        }
    }
    if end > 0 && contents.get_char(end - 1) == '\r' {
        let line = contents.substring_char(0, end - 1);
        assert(line@ =~= s.take(end as int).drop_last());
        Some(String::from_str(line))
    } else {
        let line = contents.substring_char(0, end);
        assert(line@ =~= s.take(end as int));
        Some(String::from_str(line))
    }
}

/// The key that the first line of a key file gives: the bytes that its hex
/// digits spell, where secp256k1 takes them as a secret key, or the reason why not.
pub fn parse_private_key(line: &str) -> (r: Result<Vec<u8>, String>)
    ensures
        match key_from_line(line@) {
            Ok(key) => r matches Ok(k) && k@ == key,
            Err(why) => r matches Err(m) && m@ == why,
        },
{
    let n = line.unicode_len();
    let mut i: usize = 0;
    let mut hex = true;
    while i < n && hex
        invariant
            n == line@.len(),
            0 <= i <= n,
            hex ==> forall|j: int| 0 <= j < i ==> is_hex(line@[j]),
            !hex ==> !all_hex(line@),
        decreases n - i + (if hex { 1int } else { 0 }),
    {
        if !is_hex_digit(line.get_char(i)) {
            hex = false;
        } else {
            i = i + 1;
        }
    }
    if hex && n % 2 == 1 {
        return Err(String::from_str("odd number of hex digits"));
    }
    match decode_hex_key(line) {
        Err(m) => {
            let ghost s = line@;

            assert forall|a: int, b: int|
                is_first_invalid(s, a) && is_first_invalid(s, b) implies a == b by {
                if a < b {
                    assert(is_hex(s[a]));
                }
                if b < a {
                    assert(is_hex(s[b]));
                }
            }
            Err(m)
        },
        Ok(key) => {
            if secp256k1_accepts(&key) {
                Ok(key)
            } else {
                Err(String::from_str("not a valid secp256k1 private key"))
            }
        },
    }
}

/// Loads the key from the key file at `path`, given its text, or `None` where no
/// file is there. The key is read from the first line; the lines after it are
/// ignored.
pub fn parse_key_file(path: &str, contents: Option<&str>) -> (r: Result<Vec<u8>, KeyError>)
    ensures
        reports_key_file(path@, contents, r),
        contents is None ==> (r matches Err(KeyError::KeyFileNotFound { path: p }) && p@ == path@),
        (contents is Some && contents->Some_0@.len() == 0) ==> (r matches Err(
            KeyError::EmptyKeyFile { path: p },
        ) && p@ == path@),
        (contents is Some && first_line_of(contents->Some_0@) is Some && !all_hex(
            first_line_of(contents->Some_0@)->Some_0,
        )) ==> (r matches Err(KeyError::KeyParseError { path: p, .. }) && p@ == path@),
{
    match contents {
        None => Err(KeyError::KeyFileNotFound { path: String::from_str(path) }),
        Some(c) => match first_line(c) {
            None => Err(KeyError::EmptyKeyFile { path: String::from_str(path) }),
            Some(line) => match parse_private_key(line.as_str()) {
                Ok(key) => Ok(key),
                Err(reason) => Err(KeyError::KeyParseError { path: String::from_str(path), reason }),
            },
        },
    }
}

/// The key read from a file is the one its first line gives: whatever follows
/// the first line feed has no bearing on it.
pub proof fn lemma_trailing_lines_ignored(line: Seq<char>, rest: Seq<char>)
    requires
        !line.contains('\n'),
    ensures
        key_from_contents(line + seq!['\n'] + rest) == key_from_contents(line + seq!['\n']),
        key_from_contents(line + seq!['\n'] + rest) == Some(key_from_line(strip_cr(line))),
{
    let s = line + seq!['\n'] + rest;
    let t = line + seq!['\n'];
    let n = line.len() as int;
    assert(is_first_newline(s, n));
    assert(is_first_newline(t, n));
    assert forall|k: int| is_first_newline(s, k) implies k == n by {
        if k < n {
            assert(line[k] == s[k]);
        }
    }
    assert forall|k: int| is_first_newline(t, k) implies k == n by {
        if k < n {
            assert(line[k] == t[k]);
        }
    }
    assert(s.take(n) =~= line);
    assert(t.take(n) =~= line);
}

} // verus!
