use vstd::prelude::*;
use crate::error::KeyError;

verus! {

/// The text of an optional string.
pub open spec fn text_of(o: Option<&str>) -> Option<Seq<char>> {
    match o {
        Some(s) => Some(s@),
        None => None,
    }
}

/// Whose key to load: the explicit name, else the `USER` variable, else the
/// operating system's name for the current user, the first that is there.
pub open spec fn identity_of(
    explicit: Option<Seq<char>>,
    env_user: Option<Seq<char>>,
    os_user: Option<Seq<char>>,
) -> Option<Seq<char>> {
    if explicit is Some {
        explicit
    } else if env_user is Some {
        env_user
    } else {
        os_user
    }
}

/// `{home}/.sawtooth/keys/{identity}.priv`, with no second `/` after a home
/// that already ends in one.
pub open spec fn key_path_of(home: Seq<char>, identity: Seq<char>) -> Seq<char> {
    let sep = if home.len() > 0 && home.last() != '/' {
        "/"@
    } else {
        ""@
    };
    home + sep + ".sawtooth/keys/"@ + identity + ".priv"@
}

/// Where the key file is, or why that cannot be known: the identity is
/// resolved first, then the home directory.
pub open spec fn key_path_outcome(
    explicit: Option<Seq<char>>,
    env_user: Option<Seq<char>>,
    os_user: Option<Seq<char>>,
    home: Option<Seq<char>>,
) -> Result<Seq<char>, KeyError> {
    match identity_of(explicit, env_user, os_user) {
        None => Err(KeyError::IdentityUnresolved),
        Some(id) => match home {
            None => Err(KeyError::HomeDirectoryUnresolved),
            Some(h) => Ok(key_path_of(h, id)),
        },
    }
}

/// Whether `r` reports the outcome `o`.
pub open spec fn reports_path(o: Result<Seq<char>, KeyError>, r: Result<String, KeyError>) -> bool {
    match o {
        Ok(p) => r matches Ok(s) && s@ == p,
        Err(e) => r == Err::<String, KeyError>(e),
    }
}

/// Relies on users' `get_current_username`, which asks the system's user
/// database; the name is kept where it is valid UTF-8.
#[verifier::external_body]
fn current_os_username() -> (r: Option<String>) {
    match users::get_current_username() {
        Some(name) => name.into_string().ok(),
        None => None,
    }
}

/// Relies on dirs' `home_dir`, which reads the environment and the system's
/// user database; the path is kept where it is valid UTF-8.
#[verifier::external_body]
fn home_directory() -> (r: Option<String>) {
    match dirs::home_dir() {
        Some(path) => path.into_os_string().into_string().ok(),
        None => None,
    }
}

/// Picks whose key to load, by the order of `identity_of`.
pub fn resolve_identity(
    explicit: Option<&str>,
    env_user: Option<&str>,
    os_user: Option<&str>,
) -> (r: Result<String, KeyError>)
    ensures
        match identity_of(text_of(explicit), text_of(env_user), text_of(os_user)) {
            Some(id) => r matches Ok(s) && s@ == id,
            None => r == Err::<String, KeyError>(KeyError::IdentityUnresolved),
        },
        explicit is None && env_user is None && os_user is None ==> r == Err::<String, KeyError>(
            KeyError::IdentityUnresolved,
        ),
{
    match explicit {
        Some(name) => Ok(String::from_str(name)),
        None => match env_user {
            Some(name) => Ok(String::from_str(name)),
            None => match os_user {
                Some(name) => Ok(String::from_str(name)),
                None => Err(KeyError::IdentityUnresolved),
            },
        },
    }
}

/// The path of the key file of `identity` under the home directory `home`.
pub fn key_file_path(home: &str, identity: &str) -> (r: String)
    ensures
        r@ == key_path_of(home@, identity@),
{
    let n = home.unicode_len();
    let mut path = String::from_str(home);
    if n > 0 && home.get_char(n - 1) != '/' {
        path.append("/");
    }
    path.append(".sawtooth/keys/");
    path.append(identity);
    path.append(".priv");
    proof {
        reveal_strlit("");
        assert(home@ + ""@ =~= home@);
    }
    path
}

/// Where the key file is, from the explicit name, the `USER` variable, the
/// operating system's user name and the home directory, each where known.
pub fn resolve_key_path(
    explicit: Option<&str>,
    env_user: Option<&str>,
    os_user: Option<&str>,
    home: Option<&str>,
) -> (r: Result<String, KeyError>)
    ensures
        reports_path(
            key_path_outcome(text_of(explicit), text_of(env_user), text_of(os_user), text_of(home)),
            r,
        ),
{
    let identity = match resolve_identity(explicit, env_user, os_user) {
        Ok(id) => id,
        Err(e) => return Err(e),
    };
    match home {
        None => Err(KeyError::HomeDirectoryUnresolved),
        Some(h) => Ok(key_file_path(h, identity.as_str())),
    }
}

/// Where the key file is, asking the operating system for the current user's
/// name and home directory; `env_user` is the value of `USER`, if set.
pub fn locate_key_file(
    explicit: Option<&str>,
    env_user: Option<&str>,
) -> (r: Result<String, KeyError>)
    ensures
        exists|os_user: Option<Seq<char>>, home: Option<Seq<char>>|
            reports_path(
                #[trigger] key_path_outcome(text_of(explicit), text_of(env_user), os_user, home),
                r,
            ),
{
    let os_user = current_os_username();
    let home = home_directory();
    let os_ref: Option<&str> = match &os_user {
        Some(s) => Some(s.as_str()),
        None => None,
    };
    let home_ref: Option<&str> = match &home {
        Some(s) => Some(s.as_str()),
        None => None,
    };
    let r = resolve_key_path(explicit, env_user, os_ref, home_ref);
    assert(reports_path(
        key_path_outcome(text_of(explicit), text_of(env_user), text_of(os_ref), text_of(home_ref)),
        r,
    ));
    r
}

} // verus!
