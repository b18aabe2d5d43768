//! Where the configuration and the plain secret store live on disk.
use vstd::prelude::*;
use vstd::string::*;

verus! {

/// `name` placed inside directory `dir`: a separator is put between them
/// unless `dir` is empty or already ends with one.
pub open spec fn joined(dir: Seq<char>, name: Seq<char>) -> Seq<char> {
    if dir.len() == 0 || dir.last() == '/' {
        dir + name
    } else {
        dir + "/"@ + name
    }
}

/// The path of entry `name` inside directory `dir`.
pub fn join_path(dir: &str, name: &str) -> (r: String)
    ensures
        r@ == joined(dir@, name@),
{
    let len = dir.unicode_len();
    let mut out = String::from_str(dir);
    if len > 0 && dir.get_char(len - 1) != '/' {
        out.append("/");
    }
    out.append(name);
    proof {
        reveal_strlit("/");
    }
    out
}

/// The configuration file inside the configuration directory `p`.
pub fn get_config_file_path(p: &str) -> (r: String)
    ensures
        r@ == joined(p@, "config"@),
{
    join_path(p, "config")
}

/// How the encryption key is stored.
#[derive(Debug, PartialEq, Eq, Structural, Copy, Clone)]
pub enum SecretsType {
    Plain,
    Keyring,
}

/// Stores the encryption key unencrypted, in a file of the configuration
/// directory.
#[derive(Debug)]
pub struct PlainSecrets {
    filepath: String,
}

impl PlainSecrets {
    pub closed spec fn filepath_view(&self) -> Seq<char> {
        self.filepath@
    }

    /// The store whose key file is `encryption_key` inside `path`. The
    /// directory itself is created by the caller.
    pub fn with_directory(path: &str) -> (r: PlainSecrets)
        ensures
            r.filepath_view() == joined(path@, "encryption_key"@),
    {
        PlainSecrets { filepath: join_path(path, "encryption_key") }
    }

    /// The key file.
    pub fn filepath(&self) -> (r: &String)
        ensures
            r@ == self.filepath_view(),
    {
        &self.filepath
    }
}

} // verus!
