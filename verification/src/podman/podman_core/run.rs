//! The podman commands that build the image of a system and start its interpreter in a container.
use vstd::prelude::*;
use vstd::string::StringExecFns;
use crate::podman::podman_core::{joined_path, path_join, PodmanCore};

verus! {

/// The storage options that every podman command of a system gets: its image store, its
/// runtime state and its temporary files, all under the system directory `dir`.
pub open spec fn storage_args_spec(dir: Seq<char>) -> Seq<Seq<char>> {
    seq![
        "--root"@,
        joined_path(dir, "root"@),
        "--runroot"@,
        joined_path(dir, "runroot"@),
        "--tmpdir"@,
        joined_path(dir, "tmpdir"@),
    ]
}

/// The arguments of the podman command that builds the image `name` from a Dockerfile read
/// from its standard input.
pub open spec fn build_args_spec(dir: Seq<char>, name: Seq<char>) -> Seq<Seq<char>> {
    storage_args_spec(dir) + seq!["build"@, "-t"@, name, "-f"@, "-"@, "."@]
}

/// The arguments of the podman command that runs `command` interactively in a container of the
/// image `name`, removed when it ends.
pub open spec fn run_args_spec(dir: Seq<char>, name: Seq<char>, command: Seq<char>) -> Seq<Seq<char>> {
    storage_args_spec(dir) + seq!["run"@, "--rm"@, "-i"@, name, command]
}

/// The error message of a failed image build, from what the build wrote to its two streams.
pub open spec fn build_failure_spec(out: Seq<char>, err: Seq<char>) -> Seq<char> {
    "out: "@ + out + "; err: "@ + err
}

/// The podman commands put each argument in its place: first the three storage options, each
/// followed by its directory under the system directory `dir`; then, to build, `build -t`
/// with the image name, then `-f -` (the Dockerfile comes on the standard input) and the
/// context `.`; to run, `run --rm -i`, then the image name, and last the interpreter command.
pub proof fn law_podman_argument_places(dir: Seq<char>, name: Seq<char>, command: Seq<char>)
    ensures
        ({
            let a = run_args_spec(dir, name, command);
            &&& a.len() == 11
            &&& a[0] == "--root"@ && a[1] == joined_path(dir, "root"@)
            &&& a[2] == "--runroot"@ && a[3] == joined_path(dir, "runroot"@)
            &&& a[4] == "--tmpdir"@ && a[5] == joined_path(dir, "tmpdir"@)
            &&& a[6] == "run"@ && a[7] == "--rm"@ && a[8] == "-i"@
            &&& a[9] == name
            &&& a[10] == command
        }),
        ({
            let a = build_args_spec(dir, name);
            &&& a.len() == 12
            &&& a[0] == "--root"@ && a[1] == joined_path(dir, "root"@)
            &&& a[2] == "--runroot"@ && a[3] == joined_path(dir, "runroot"@)
            &&& a[4] == "--tmpdir"@ && a[5] == joined_path(dir, "tmpdir"@)
            &&& a[6] == "build"@ && a[7] == "-t"@ && a[8] == name
            &&& a[9] == "-f"@ && a[10] == "-"@ && a[11] == "."@
        }),
{
}

/// The texts of `v`.
pub open spec fn strings_view(v: Vec<String>) -> Seq<Seq<char>> {
    v@.map_values(|s: String| s@)
}

impl PodmanCore {
    /// The directory that the image build uses for its temporary files.
    pub fn cache_dir(dir: &str) -> (r: String)
        ensures
            r@ == joined_path(dir@, "cache"@),
    {
        path_join(dir, "cache")
    }

    /// The storage options of the commands of the system whose directory is `dir`.
    fn storage_args(dir: &str) -> (v: Vec<String>)
        ensures
            strings_view(v) == storage_args_spec(dir@),
    {
        let mut v: Vec<String> = Vec::new();
        v.push(String::from_str("--root"));
        v.push(path_join(dir, "root"));
        v.push(String::from_str("--runroot"));
        v.push(path_join(dir, "runroot"));
        v.push(String::from_str("--tmpdir"));
        v.push(path_join(dir, "tmpdir"));
        proof {
            assert(strings_view(v) =~= storage_args_spec(dir@));
        }
        v
    }

    /// The arguments of the command that builds the image `name` of the system whose directory
    /// is `dir`.
    pub fn build_args(dir: &str, name: &str) -> (v: Vec<String>)
        ensures
            strings_view(v) == build_args_spec(dir@, name@),
    {
        let mut v = Self::storage_args(dir);
        let ghost storage = strings_view(v);
        v.push(String::from_str("build"));
        v.push(String::from_str("-t"));
        v.push(String::from_str(name));
        v.push(String::from_str("-f"));
        v.push(String::from_str("-"));
        v.push(String::from_str("."));
        proof {
            assert(strings_view(v) =~= storage + seq!["build"@, "-t"@, name@, "-f"@, "-"@, "."@]);
        }
        v
    }

    /// The arguments of the command that runs `command` in a container of the image `name` of
    /// the system whose directory is `dir`.
    pub fn run_args(dir: &str, name: &str, command: &str) -> (v: Vec<String>)
        ensures
            strings_view(v) == run_args_spec(dir@, name@, command@),
    {
        let mut v = Self::storage_args(dir);
        let ghost storage = strings_view(v);
        v.push(String::from_str("run"));
        v.push(String::from_str("--rm"));
        v.push(String::from_str("-i"));
        v.push(String::from_str(name));
        v.push(String::from_str(command));
        proof {
            assert(strings_view(v) =~= storage + seq!["run"@, "--rm"@, "-i"@, name@, command@]);
        }
        v
    }

    /// The error message of a failed image build.
    pub fn build_failure_message(out: &str, err: &str) -> (r: String)
        ensures
            r@ == build_failure_spec(out@, err@),
    {
        let mut r = String::from_str("out: ");
        r.append(out);
        r.append("; err: ");
        r.append(err);
        r
    }
}

} // verus!
