//! Where a podman release comes from, how it is laid out once unpacked, and how it is configured.
use vstd::prelude::*;
use vstd::string::StringExecFns;
use crate::json::{json_str_member, json_str_member_of};
use crate::podman::podman_core::{joined_path, path_join};
use crate::str_map::StrMap;

verus! {

/// Which podman release to use.
pub enum Version {
    /// The latest release.
    Last,
    /// The release with this tag.
    Custom(String),
}

impl Version {
    /// The tag of the release, where this version names one.
    pub open spec fn tag(self) -> Option<Seq<char>> {
        match self {
            Version::Last => None,
            Version::Custom(v) => Some(v@),
        }
    }

    /// The tag of the release, where this version names one; the latest release has to be
    /// asked for.
    pub fn known_tag(&self) -> (r: Option<String>)
        ensures
            match r {
                Some(t) => self.tag() == Some(t@),
                None => self.tag() is None,
            },
    {
        match self {
            Version::Last => None,
            Version::Custom(v) => Some(v.clone()),
        }
    }
}

/// Where the description of the latest podman release is asked for.
pub const LATEST_RELEASE_API: &'static str =
    "https://api.github.com/repos/mgoltzsche/podman-static/releases/latest";

/// The user agent named when the latest release is asked for.
pub const USER_AGENT: &'static str = "my-app";

/// The tag of the release that the release description `release` describes.
pub fn release_tag(release: &serde_json::Value) -> (r: Option<String>)
    ensures
        match r {
            Some(t) => json_str_member_of(*release, "tag_name"@) == Some(t@),
            None => json_str_member_of(*release, "tag_name"@) is None,
        },
{
    json_str_member(release, "tag_name")
}

/// The address of the archive of the podman release `version`.
pub open spec fn release_url_spec(version: Seq<char>) -> Seq<char> {
    "https://github.com/mgoltzsche/podman-static/releases/download/"@ + version
        + "/podman-linux-amd64.tar.gz"@
}

/// The address of the archive of the podman release `version`.
pub fn release_url(version: &str) -> (r: String)
    ensures
        r@ == release_url_spec(version@),
{
    let mut r = String::from_str("https://github.com/mgoltzsche/podman-static/releases/download/");
    r.append(version);
    r.append("/podman-linux-amd64.tar.gz");
    r
}

/// Where the parts of an unpacked podman release lie.
pub struct PodmanLayout {
    /// The directory of the release.
    pub version_dir: String,
    /// The directory that holds the installation (`usr/local`).
    pub local_dir: String,
    /// The directory of the programs.
    pub bin_dir: String,
    /// The podman program.
    pub podman: String,
    /// The containers configuration file.
    pub conf: String,
    /// The image policy file.
    pub policy: String,
    /// The helper programs (`lib/podman`).
    pub helper_dir: String,
    /// The conmon program.
    pub conmon: String,
    /// The crun program.
    pub crun: String,
}

/// The directory of the release `version` under `dir`.
pub open spec fn version_dir_spec(dir: Seq<char>, version: Seq<char>) -> Seq<char> {
    joined_path(dir, version)
}

/// The installation directory (`podman-linux-amd64/usr/local`) of the release `version`.
pub open spec fn local_dir_spec(dir: Seq<char>, version: Seq<char>) -> Seq<char> {
    joined_path(
        joined_path(joined_path(version_dir_spec(dir, version), "podman-linux-amd64"@), "usr"@),
        "local"@,
    )
}

/// The directory of the programs of the release `version`.
pub open spec fn bin_dir_spec(dir: Seq<char>, version: Seq<char>) -> Seq<char> {
    joined_path(local_dir_spec(dir, version), "bin"@)
}

/// The directory of the helper programs of the release `version`.
pub open spec fn helper_dir_spec(dir: Seq<char>, version: Seq<char>) -> Seq<char> {
    joined_path(joined_path(local_dir_spec(dir, version), "lib"@), "podman"@)
}

/// How the release `version` is laid out under `dir`.
pub open spec fn layout_spec(l: PodmanLayout, dir: Seq<char>, version: Seq<char>) -> bool {
    &&& l.version_dir@ == version_dir_spec(dir, version)
    &&& l.local_dir@ == local_dir_spec(dir, version)
    &&& l.bin_dir@ == bin_dir_spec(dir, version)
    &&& l.podman@ == joined_path(bin_dir_spec(dir, version), "podman"@)
    &&& l.conf@ == joined_path(version_dir_spec(dir, version), "containers.conf"@)
    &&& l.policy@ == joined_path(version_dir_spec(dir, version), "policy.json"@)
    &&& l.helper_dir@ == helper_dir_spec(dir, version)
    &&& l.conmon@ == joined_path(helper_dir_spec(dir, version), "conmon"@)
    &&& l.crun@ == joined_path(bin_dir_spec(dir, version), "crun"@)
}

/// How the release `version` is laid out under `dir`.
pub fn layout(dir: &str, version: &str) -> (l: PodmanLayout)
    ensures
        layout_spec(l, dir@, version@),
{
    let version_dir = path_join(dir, version);
    let release = path_join(version_dir.as_str(), "podman-linux-amd64");
    let usr = path_join(release.as_str(), "usr");
    let local_dir = path_join(usr.as_str(), "local");
    let bin_dir = path_join(local_dir.as_str(), "bin");
    let podman = path_join(bin_dir.as_str(), "podman");
    let conf = path_join(version_dir.as_str(), "containers.conf");
    let policy = path_join(version_dir.as_str(), "policy.json");
    let lib = path_join(local_dir.as_str(), "lib");
    let helper_dir = path_join(lib.as_str(), "podman");
    let conmon = path_join(helper_dir.as_str(), "conmon");
    let crun = path_join(bin_dir.as_str(), "crun");
    PodmanLayout { version_dir, local_dir, bin_dir, podman, conf, policy, helper_dir, conmon, crun }
}

/// Adjoining a relative part to a non-empty base that does not end with `/` puts a `/` between
/// them; the path then ends as the part does.
proof fn lemma_join_relative(base: Seq<char>, part: Seq<char>)
    requires
        base.len() > 0,
        base.last() != '/',
        part.len() > 0,
        part[0] != '/',
        part.last() != '/',
    ensures
        joined_path(base, part) == base + "/"@ + part,
        joined_path(base, part).len() > 0,
        joined_path(base, part).last() != '/',
{
    reveal_strlit("/");
    assert((base + "/"@ + part).last() == part.last());
}

/// The release lies inside the system directory: its directory is the system directory `dir`
/// followed by a `/` (unless `dir` is empty or already ends with one) and the version, and every
/// part of it lies under that directory at its fixed place, whatever the (relative) version tag.
pub proof fn law_release_inside_dir(l: PodmanLayout, dir: Seq<char>, version: Seq<char>)
    requires
        layout_spec(l, dir, version),
        version.len() > 0,
        version[0] != '/',
        version.last() != '/',
    ensures
        l.version_dir@ == (if dir.len() == 0 || dir.last() == '/' {
            dir + version
        } else {
            dir + "/"@ + version
        }),
        l.local_dir@ == l.version_dir@ + "/"@ + "podman-linux-amd64"@ + "/"@ + "usr"@ + "/"@
            + "local"@,
        l.bin_dir@ == l.local_dir@ + "/"@ + "bin"@,
        l.podman@ == l.bin_dir@ + "/"@ + "podman"@,
        l.crun@ == l.bin_dir@ + "/"@ + "crun"@,
        l.helper_dir@ == l.local_dir@ + "/"@ + "lib"@ + "/"@ + "podman"@,
        l.conmon@ == l.helper_dir@ + "/"@ + "conmon"@,
        l.conf@ == l.version_dir@ + "/"@ + "containers.conf"@,
        l.policy@ == l.version_dir@ + "/"@ + "policy.json"@,
{
    reveal_strlit("/");
    reveal_strlit("podman-linux-amd64");
    reveal_strlit("usr");
    reveal_strlit("local");
    reveal_strlit("bin");
    reveal_strlit("podman");
    reveal_strlit("crun");
    reveal_strlit("lib");
    reveal_strlit("conmon");
    reveal_strlit("containers.conf");
    reveal_strlit("policy.json");
    let vd = joined_path(dir, version);
    if dir.len() == 0 || dir.last() == '/' {
        assert(vd == dir + version);
    } else {
        lemma_join_relative(dir, version);
    }
    assert(vd.len() > 0 && vd.last() == version.last()) by {
        assert((dir + version).last() == version.last());
        assert((dir + "/"@ + version).last() == version.last());
    }
    let a = joined_path(vd, "podman-linux-amd64"@);
    lemma_join_relative(vd, "podman-linux-amd64"@);
    let u = joined_path(a, "usr"@);
    lemma_join_relative(a, "usr"@);
    let loc = joined_path(u, "local"@);
    lemma_join_relative(u, "local"@);
    assert(loc =~= vd + "/"@ + "podman-linux-amd64"@ + "/"@ + "usr"@ + "/"@ + "local"@);
    let bin = joined_path(loc, "bin"@);
    lemma_join_relative(loc, "bin"@);
    lemma_join_relative(bin, "podman"@);
    lemma_join_relative(bin, "crun"@);
    let lib = joined_path(loc, "lib"@);
    lemma_join_relative(loc, "lib"@);
    let helper = joined_path(lib, "podman"@);
    lemma_join_relative(lib, "podman"@);
    assert(helper =~= loc + "/"@ + "lib"@ + "/"@ + "podman"@);
    lemma_join_relative(helper, "conmon"@);
    lemma_join_relative(vd, "containers.conf"@);
    lemma_join_relative(vd, "policy.json"@);
}

/// How `{:?}` writes the path `p`.
pub uninterp spec fn path_debug_of(p: Seq<char>) -> Seq<char>;

/// `Debug` of `std::path::Path`: the path, quoted and escaped.
#[verifier::external_body]
pub fn path_debug(p: &str) -> (r: String)
    ensures
        r@ == path_debug_of(p@),
{
    format!("{:?}", std::path::Path::new(p))
}

/// The containers configuration, before the conmon path.
pub const CONF_HEAD: &'static str = "\n[engine]\nconmon_path = [";

/// The containers configuration, between the conmon path and the helper directory.
pub const CONF_HELPERS: &'static str = "]\nhelper_binaries_dir = [";

/// The containers configuration, between the helper directory and the crun path.
pub const CONF_RUNTIMES: &'static str = "]\n\n[engine.runtimes]\ncrun = [";

/// The containers configuration, after the crun path.
pub const CONF_TAIL: &'static str = "]\n";

/// The containers configuration that points podman to its conmon program, its helper programs
/// and its crun runtime.
pub open spec fn containers_conf_spec(conmon: Seq<char>, helper_dir: Seq<char>, crun: Seq<char>) -> Seq<char> {
    CONF_HEAD@ + path_debug_of(conmon) + CONF_HELPERS@ + path_debug_of(helper_dir) + CONF_RUNTIMES@
        + path_debug_of(crun) + CONF_TAIL@
}

/// The containers configuration for the given conmon program, helper directory and crun program.
pub fn containers_conf(conmon: &str, helper_dir: &str, crun: &str) -> (r: String)
    ensures
        r@ == containers_conf_spec(conmon@, helper_dir@, crun@),
{
    let mut r = String::from_str(CONF_HEAD);
    r.append(path_debug(conmon).as_str());
    r.append(CONF_HELPERS);
    r.append(path_debug(helper_dir).as_str());
    r.append(CONF_RUNTIMES);
    r.append(path_debug(crun).as_str());
    r.append(CONF_TAIL);
    r
}

/// The image policy: any image is accepted.
pub const POLICY_JSON: &'static str = "\n{\n  \"default\": [\n    {\n      \"type\": \"insecureAcceptAnything\"\n    }\n  ],\n  \"transports\": {\n    \"docker\": {},\n    \"docker-daemon\": {\n      \"\": [\n        {\n          \"type\": \"insecureAcceptAnything\"\n        }\n      ]\n    }\n  }\n}\n";

/// The environment variables that podman runs with: the program directory `bin_dir` added to
/// the search path `path_var`, and the configuration and policy files.
pub fn podman_env(path_var: &str, bin_dir: &str, conf: &str, policy: &str) -> (m: StrMap<String>)
    ensures
        m@.dom() == set!["PATH"@, "CONTAINERS_CONF"@, "CONTAINERS_POLICY_JSON"@],
        m@["PATH"@]@ == path_var@ + ":"@ + bin_dir@,
        m@["CONTAINERS_CONF"@]@ == conf@,
        m@["CONTAINERS_POLICY_JSON"@]@ == policy@,
{
    let mut search = String::from_str(path_var);
    search.append(":");
    search.append(bin_dir);
    proof {
        reveal_strlit("PATH");
        reveal_strlit("CONTAINERS_CONF");
        reveal_strlit("CONTAINERS_POLICY_JSON");
        assert("PATH"@.len() != "CONTAINERS_CONF"@.len());
        assert("PATH"@.len() != "CONTAINERS_POLICY_JSON"@.len());
        assert("CONTAINERS_CONF"@.len() != "CONTAINERS_POLICY_JSON"@.len());
    }
    let mut m: StrMap<String> = StrMap::new();
    m.insert(String::from_str("PATH"), search);
    m.insert(String::from_str("CONTAINERS_CONF"), String::from_str(conf));
    m.insert(String::from_str("CONTAINERS_POLICY_JSON"), String::from_str(policy));
    proof {
        assert(m@.dom() =~= set!["PATH"@, "CONTAINERS_CONF"@, "CONTAINERS_POLICY_JSON"@]);
    }
    m
}

} // verus!
