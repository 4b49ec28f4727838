use vstd::prelude::*;
use vstd::string::StringExecFns;

use crate::error::{ErrorKind, Failure};

verus! {

/// The paths of the key pair used to authenticate.
#[derive(Clone, Debug)]
pub struct KeyPaths {
    pub public_key: String,
    pub private_key: String,
}

/// `name` appended to the directory `dir`, with a `/` between them unless
/// `dir` is empty or already ends with one.
pub open spec fn path_join(dir: Seq<char>, name: Seq<char>) -> Seq<char> {
    if dir.len() == 0 || dir.last() == '/' {
        dir + name
    } else {
        dir + seq!['/'] + name
    }
}

/// The hidden SSH directory under a home directory.
pub open spec fn ssh_dir(home: Seq<char>) -> Seq<char> {
    path_join(home, ".ssh"@)
}

/// Where the public key lies under a home directory.
pub open spec fn public_key_path(home: Seq<char>) -> Seq<char> {
    path_join(ssh_dir(home), "id_rsa.pub"@)
}

/// Where the private key lies under a home directory.
pub open spec fn private_key_path(home: Seq<char>) -> Seq<char> {
    path_join(ssh_dir(home), "id_rsa"@)
}

/// Appends `name` to the directory `dir`.
pub fn join_path(dir: &str, name: &str) -> (r: String)
    ensures
        r@ == path_join(dir@, name@),
{
    let n = dir.unicode_len();
    let out = String::from_str(dir);
    if n == 0 || dir.get_char(n - 1) == '/' {
        out.concat(name)
    } else {
        proof {
            reveal_strlit("/");
        }
        let out = out.concat("/");
        assert(out@ =~= dir@ + seq!['/']);
        out.concat(name)
    }
}

/// The default key pair under the home directory `home`.
pub fn key_paths(home: &str) -> (r: KeyPaths)
    ensures
        r.public_key@ == public_key_path(home@),
        r.private_key@ == private_key_path(home@),
{
    let dir = join_path(home, ".ssh");
    KeyPaths {
        public_key: join_path(dir.as_str(), "id_rsa.pub"),
        private_key: join_path(dir.as_str(), "id_rsa"),
    }
}

/// The key pair to look for, given the home directory read from the
/// environment (`None` when it is not set).
pub fn locate_keys(home: Option<String>) -> (r: Result<KeyPaths, Failure>)
    ensures
        home is None <==> r is Err,
        r matches Err(e) ==> e.kind == ErrorKind::Configuration,
        r matches Ok(k) ==> home matches Some(h) && k.public_key@ == public_key_path(h@)
            && k.private_key@ == private_key_path(h@),
{
    match home {
        Some(h) => Ok(key_paths(h.as_str())),
        None => Err(
            Failure::new(
                ErrorKind::Configuration,
                String::from_str("Unable to determine home directory"),
            ),
        ),
    }
}

/// The key pair, once it is known which of its files exist.
pub fn confirm_keys(keys: KeyPaths, public_exists: bool, private_exists: bool) -> (r: Result<
    KeyPaths,
    Failure,
>)
    ensures
        (public_exists && private_exists) <==> r is Ok,
        r matches Ok(k) ==> k.public_key@ == keys.public_key@ && k.private_key@
            == keys.private_key@,
        r matches Err(e) ==> e.kind == ErrorKind::KeyNotFound,
{
    if public_exists && private_exists {
        Ok(keys)
    } else {
        Err(
            Failure::new(
                ErrorKind::KeyNotFound,
                String::from_str("SSH key files not found in the default location"),
            ),
        )
    }
}

} // verus!
