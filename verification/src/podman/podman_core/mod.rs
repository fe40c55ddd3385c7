//! A podman installation: where its program lies, its version, and the environment it runs in.
pub mod get;
pub mod run;

use vstd::prelude::*;
use vstd::string::{StrSliceExecFns, StringExecFns};
use crate::str_map::StrMap;

verus! {

/// The path `part` adjoined to the path `base`, as `std::path::Path::join` adjoins them on Unix:
/// an absolute `part` (one that starts with `/`) replaces `base`; otherwise `part` follows
/// `base`, after a `/` where `base` is not empty and does not already end with one.
pub open spec fn joined_path(base: Seq<char>, part: Seq<char>) -> Seq<char> {
    if part.len() > 0 && part[0] == '/' {
        part
    } else if base.len() > 0 && base.last() != '/' {
        base + "/"@ + part
    } else {
        base + part
    }
}

/// The path `part` adjoined to the path `base`.
pub fn path_join(base: &str, part: &str) -> (r: String)
    ensures
        r@ == joined_path(base@, part@),
{
    let n = base.unicode_len();
    if part.unicode_len() > 0 && part.get_char(0) == '/' {
        String::from_str(part)
    } else if n > 0 && base.get_char(n - 1) != '/' {
        let mut r = String::from_str(base);
        r.append("/");
        r.append(part);
        r
    } else {
        let mut r = String::from_str(base);
        r.append(part);
        r
    }
}

/// A podman installation.
#[derive(Debug)]
pub struct PodmanCore {
    path: String,
    version: String,
    env: StrMap<String>,
}

impl PodmanCore {
    /// The path of the podman program.
    pub closed spec fn path_view(self) -> Seq<char> {
        self.path@
    }

    /// The podman version.
    pub closed spec fn version_view(self) -> Seq<char> {
        self.version@
    }

    /// The podman version, as the string the installation holds.
    pub closed spec fn version_string(self) -> String {
        self.version
    }

    /// The version string is the version.
    pub proof fn lemma_version_string(self)
        ensures
            self.version_string()@ == self.version_view(),
    {
    }

    /// The environment variables that podman runs with.
    pub closed spec fn env_view(self) -> Map<Seq<char>, String> {
        self.env@
    }

    /// The installation of version `version` whose program is `path` and which runs with the
    /// environment variables `env`.
    pub fn new(path: String, version: String, env: StrMap<String>) -> (r: Self)
        ensures
            r.path_view() == path@,
            r.version_view() == version@,
            r.env_view() == env@,
    {
        PodmanCore { path, version, env }
    }

    /// The podman version.
    pub fn get_version(&self) -> (r: &String)
        ensures
            r@ == self.version_view(),
            *r == self.version_string(),
    {
        &self.version
    }

    /// The path of the podman program.
    pub fn get_path(&self) -> (r: &String)
        ensures
            r@ == self.path_view(),
    {
        &self.path
    }

    /// The environment variables that podman runs with.
    pub fn get_env(&self) -> (r: &StrMap<String>)
        ensures
            r@ == self.env_view(),
    {
        &self.env
    }
}

} // verus!
