use script_sys::from_sys::matlab_like::MatLabLikeBuilder;
use script_sys::json::JsonMap;
use script_sys::podman::podman_core::get::{
    containers_conf, layout, podman_env, release_tag, release_url, Version, LATEST_RELEASE_API,
    POLICY_JSON, USER_AGENT,
};
use script_sys::podman::podman_core::{path_join, PodmanCore};
use script_sys::podman::{PodmanBuilder, PodmanLockData};
use script_sys::str_map::StrMap;

fn builder() -> PodmanBuilder {
    PodmanBuilder::new(
        "FROM gnuoctave/octave:9.2.0".into(),
        "./tmp/podman/".into(),
        MatLabLikeBuilder { target: "octave".into() }.build(),
        "octave".into(),
    )
}

fn install(version: &str) -> PodmanCore {
    PodmanCore::new("/p/podman".into(), version.into(), StrMap::new())
}

#[test]
fn lock_data() {
    let lock = PodmanLockData::new("v5.8.7".into());
    assert_eq!(lock.get_podman_version(), "v5.8.7");
    let b = builder();
    assert!(matches!(b.create_version(), Version::Last));
    match b.lock_version(&lock) {
        Version::Custom(v) => assert_eq!(v, "v5.8.7"),
        Version::Last => panic!("expected a custom version"),
    }
    let written = PodmanBuilder::lock_data_of(&install("v9"));
    assert_eq!(written.get_podman_version(), "v9");
    match b.lock_version(&written) {
        Version::Custom(v) => assert_eq!(v, "v9"),
        Version::Last => panic!("expected a custom version"),
    }
}

#[test]
fn versions_and_releases() {
    assert_eq!(Version::Custom("v1".into()).known_tag(), Some("v1".to_string()));
    assert_eq!(Version::Last.known_tag(), None);
    assert_eq!(
        release_url("v5.8.7"),
        "https://github.com/mgoltzsche/podman-static/releases/download/v5.8.7/podman-linux-amd64.tar.gz"
    );
    assert_eq!(LATEST_RELEASE_API, "https://api.github.com/repos/mgoltzsche/podman-static/releases/latest");
    assert_eq!(USER_AGENT, "my-app");
    assert_eq!(release_tag(&j(r#"{"tag_name": "v5.5.2", "x": 1}"#)), Some("v5.5.2".into()));
    assert_eq!(release_tag(&j(r#"{"name": "v5.5.2"}"#)), None);
}

#[test]
fn release_layout() {
    let l = layout("./tmp/test/", "v5.8.7");
    assert_eq!(l.version_dir, "./tmp/test/v5.8.7");
    assert_eq!(l.local_dir, "./tmp/test/v5.8.7/podman-linux-amd64/usr/local");
    assert_eq!(l.bin_dir, "./tmp/test/v5.8.7/podman-linux-amd64/usr/local/bin");
    assert_eq!(l.podman, "./tmp/test/v5.8.7/podman-linux-amd64/usr/local/bin/podman");
    assert_eq!(l.conf, "./tmp/test/v5.8.7/containers.conf");
    assert_eq!(l.policy, "./tmp/test/v5.8.7/policy.json");
    assert_eq!(l.helper_dir, "./tmp/test/v5.8.7/podman-linux-amd64/usr/local/lib/podman");
    assert_eq!(l.conmon, "./tmp/test/v5.8.7/podman-linux-amd64/usr/local/lib/podman/conmon");
    assert_eq!(l.crun, "./tmp/test/v5.8.7/podman-linux-amd64/usr/local/bin/crun");
    assert_eq!(path_join("/a", "/b"), "/b");
}

#[test]
fn configuration_files() {
    let conf = containers_conf("/x/conmon", "/x/lib", "/x/crun");
    assert_eq!(
        conf,
        "\n[engine]\nconmon_path = [\"/x/conmon\"]\nhelper_binaries_dir = [\"/x/lib\"]\n\n[engine.runtimes]\ncrun = [\"/x/crun\"]\n"
    );
    let policy: serde_json::Value = serde_json::from_str(POLICY_JSON).unwrap();
    assert_eq!(policy["default"][0]["type"], "insecureAcceptAnything");
    assert!(POLICY_JSON.starts_with("\n{\n  \"default\""));
    let env = podman_env("/usr/bin", "/x/bin", "/x/c.conf", "/x/p.json");
    assert_eq!(env.len(), 3);
    assert_eq!(env.get("PATH").unwrap(), "/usr/bin:/x/bin");
    assert_eq!(env.get("CONTAINERS_CONF").unwrap(), "/x/c.conf");
    assert_eq!(env.get("CONTAINERS_POLICY_JSON").unwrap(), "/x/p.json");
}

#[test]
fn podman_commands() {
    assert_eq!(
        PodmanCore::build_args("/d", "octave"),
        vec!["--root", "/d/root", "--runroot", "/d/runroot", "--tmpdir", "/d/tmpdir", "build", "-t", "octave", "-f", "-", "."]
    );
    assert_eq!(
        PodmanCore::run_args("/d", "octave", "octave"),
        vec!["--root", "/d/root", "--runroot", "/d/runroot", "--tmpdir", "/d/tmpdir", "run", "--rm", "-i", "octave", "octave"]
    );
    assert_eq!(PodmanCore::cache_dir("/d"), "/d/cache");
    assert_eq!(PodmanCore::build_failure_message("o", "e"), "out: o; err: e");
    let c = install("v1");
    assert_eq!(c.get_version(), "v1");
    assert_eq!(c.get_path(), "/p/podman");
    assert!(c.get_env().is_empty());
}

#[test]
fn podman_runs() {
    let b = builder();
    assert_eq!(b.get_dir(), "./tmp/podman/");
    let mut podman = b.assemble(install("v1"));
    assert_eq!(podman.get_core().get_version(), "v1");
    assert_eq!(podman.get_name(), "octave");
    assert_eq!(podman.get_docker_file(), "FROM gnuoctave/octave:9.2.0");
    assert_eq!(podman.image_build_args()[8], "octave");
    assert_eq!(podman.container_run_args().last().unwrap(), "octave");
    let mut data = JsonMap::new();
    data.insert("test_value".into(), j(r#"42"#));
    let first = podman.begin_run("input_data.test_value = input_data.test_value * 2", &data);
    assert!(first.spawn);
    assert_eq!(first.inputs.len(), 1);
    assert!(podman.get_from_sys().has_session());
    let second = podman.begin_run("input_data.test_value + 2", &JsonMap::new());
    assert!(!second.spawn);
    assert_eq!(
        second.inputs,
        vec![podman.get_from_sys().get_script("input_data.test_value + 2", &JsonMap::new())]
    );
    let isolated = podman.plan_run_script("1", &JsonMap::new());
    assert!(isolated.spawn);
    assert_eq!(isolated.inputs.len(), 1);
}

fn j(text: &str) -> serde_json::Value {
    serde_json::from_str(text).unwrap()
}

#[test]
fn path_join_agrees_with_std() {
    for (base, part) in [("/a", "b"), ("/a/", "b"), ("", "b"), ("a", ""), ("a", "/b"), ("", ""), ("./tmp/é", "v1")] {
        let expected = std::path::Path::new(base).join(part).to_string_lossy().into_owned();
        assert_eq!(path_join(base, part), expected, "{base:?} {part:?}");
    }
}

#[test]
fn podman_run_script_is_a_run_on_a_fresh_container() {
    let b = builder();
    let mut podman = b.assemble(install("v1"));
    let _ = podman.begin_run("a = 1", &JsonMap::new());
    let isolated = podman.plan_run_script("a", &JsonMap::new());
    let mut fresh = b.assemble(install("v1"));
    let first = fresh.begin_run("a", &JsonMap::new());
    assert_eq!(isolated.spawn, first.spawn);
    assert_eq!(isolated.inputs, first.inputs);
    assert!(podman.clean());
    assert!(!podman.get_from_sys().has_session());
}
