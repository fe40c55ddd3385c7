//! Running scripts on an interpreter inside a podman container: the system is described by a
//! Dockerfile, and reproduced from the podman version recorded in its lock data.
pub mod podman_core;

use vstd::prelude::*;
use crate::from_sys::{planned_inputs, FromSys, RunPlan};
use crate::json::JsonMap;
use crate::podman::podman_core::get::{version_dir_spec, Version};
use crate::podman::podman_core::run::{build_args_spec, run_args_spec, strings_view};
use crate::podman::podman_core::PodmanCore;

verus! {

/// What is recorded of a podman system so that it can be reproduced: the podman version.
#[derive(Debug)]
pub struct PodmanLockData {
    podman_version: String,
}

/// The lock data written for a system that runs on the podman installation `core`.
pub closed spec fn lock_data_spec(core: PodmanCore) -> PodmanLockData {
    PodmanLockData { podman_version: core.version_string() }
}

/// The podman release asked for when a system is reproduced from `lock_data`.
pub closed spec fn requested_version_spec(lock_data: PodmanLockData) -> Version {
    Version::Custom(lock_data.podman_version)
}

/// The release asked for from lock data is the one it records.
pub proof fn lemma_requested_version(lock_data: PodmanLockData)
    ensures
        requested_version_spec(lock_data).tag() == Some(lock_data.version_view()),
{
}

impl PodmanLockData {
    /// The recorded podman version.
    pub closed spec fn version_view(self) -> Seq<char> {
        self.podman_version@
    }

    /// The recorded podman version, as the string the lock data holds.
    pub closed spec fn version_string(self) -> String {
        self.podman_version
    }

    /// Lock data that records the podman version `podman_version`.
    pub fn new(podman_version: String) -> (r: Self)
        ensures
            r.version_view() == podman_version@,
            r.version_string() == podman_version,
    {
        PodmanLockData { podman_version }
    }

    /// The recorded podman version.
    pub fn get_podman_version(&self) -> (r: &String)
        ensures
            r@ == self.version_view(),
            *r == self.version_string(),
    {
        &self.podman_version
    }
}

/// Describes a podman system: the interpreter, the Dockerfile of its image, the directory that
/// holds podman and its storage, and the name of the image.
pub struct PodmanBuilder {
    from_sys: FromSys,
    docker_file: String,
    dir: String,
    name: String,
}

/// A podman system: an interpreter that runs in a container of an image built from a Dockerfile.
pub struct Podman {
    from_sys: FromSys,
    podman_core: PodmanCore,
    docker_file: String,
    dir: String,
    name: String,
}

impl PodmanBuilder {
    /// The interpreter.
    pub closed spec fn from_sys_view(self) -> FromSys {
        self.from_sys
    }

    /// The Dockerfile of the image.
    pub closed spec fn docker_file_view(self) -> Seq<char> {
        self.docker_file@
    }

    /// The directory of podman and its storage.
    pub closed spec fn dir_view(self) -> Seq<char> {
        self.dir@
    }

    /// The name of the image.
    pub closed spec fn name_view(self) -> Seq<char> {
        self.name@
    }

    /// Describes the system that runs `from_sys` in a container of the image `name`, built from
    /// `docker_file`, with podman and its storage under `dir`.
    pub fn new(docker_file: String, dir: String, from_sys: FromSys, name: String) -> (r: Self)
        ensures
            r.docker_file_view() == docker_file@,
            r.dir_view() == dir@,
            r.from_sys_view() == from_sys,
            r.name_view() == name@,
    {
        PodmanBuilder { from_sys, docker_file, dir, name }
    }

    /// The directory of podman and its storage.
    pub fn get_dir(&self) -> (r: &String)
        ensures
            r@ == self.dir_view(),
    {
        &self.dir
    }

    /// The podman release that creating the system installs: the latest one.
    pub fn create_version(&self) -> (r: Version)
        ensures
            r.tag() is None,
    {
        Version::Last
    }

    /// The podman release that reproduces the system recorded in `lock_data`.
    pub fn lock_version(&self, lock_data: &PodmanLockData) -> (r: Version)
        ensures
            r == requested_version_spec(*lock_data),
            r.tag() == Some(lock_data.version_view()),
    {
        Version::Custom(lock_data.get_podman_version().clone())
    }

    /// The lock data of a system that runs on the podman installation `core`.
    pub fn lock_data_of(core: &PodmanCore) -> (r: PodmanLockData)
        ensures
            r == lock_data_spec(*core),
            r.version_view() == core.version_view(),
    {
        PodmanLockData::new(core.get_version().clone())
    }

    /// The system described here, running on the podman installation `core`, with no container
    /// running yet.
    pub fn assemble(&self, core: PodmanCore) -> (r: Podman)
        ensures
            r.from_sys_view().same_conf(self.from_sys_view()),
            !r.from_sys_view().session_open(),
            r.core_view() == core,
            r.docker_file_view() == self.docker_file_view(),
            r.dir_view() == self.dir_view(),
            r.name_view() == self.name_view(),
    {
        Podman {
            from_sys: self.from_sys.clone_conf(),
            podman_core: core,
            docker_file: self.docker_file.clone(),
            dir: self.dir.clone(),
            name: self.name.clone(),
        }
    }
}

impl Podman {
    /// The interpreter.
    pub closed spec fn from_sys_view(self) -> FromSys {
        self.from_sys
    }

    /// The podman installation.
    pub closed spec fn core_view(self) -> PodmanCore {
        self.podman_core
    }

    /// The Dockerfile of the image.
    pub closed spec fn docker_file_view(self) -> Seq<char> {
        self.docker_file@
    }

    /// The directory of podman and its storage.
    pub closed spec fn dir_view(self) -> Seq<char> {
        self.dir@
    }

    /// The name of the image.
    pub closed spec fn name_view(self) -> Seq<char> {
        self.name@
    }

    /// What a run of `script` with the data `data` does in this state: a container is started
    /// where none runs; only the script is sent.
    pub open spec fn run_plan_spec(self, script: Seq<char>, data: Map<Seq<char>, serde_json::Value>) -> (bool, Seq<Seq<char>>) {
        (!self.from_sys_view().session_open(), seq![self.from_sys_view().script_text(script, data)])
    }

    /// What an isolated run of `script` with the data `data` does: it starts a new container
    /// and sends the script alone.
    pub open spec fn run_script_plan_spec(self, script: Seq<char>, data: Map<Seq<char>, serde_json::Value>) -> (bool, Seq<Seq<char>>) {
        (true, seq![self.from_sys_view().script_text(script, data)])
    }

    /// The interpreter.
    pub fn get_from_sys(&self) -> (r: &FromSys)
        ensures
            *r == self.from_sys_view(),
    {
        &self.from_sys
    }

    /// The podman installation.
    pub fn get_core(&self) -> (r: &PodmanCore)
        ensures
            *r == self.core_view(),
    {
        &self.podman_core
    }

    /// The Dockerfile of the image.
    pub fn get_docker_file(&self) -> (r: &String)
        ensures
            r@ == self.docker_file_view(),
    {
        &self.docker_file
    }

    /// The directory of podman and its storage.
    pub fn get_dir(&self) -> (r: &String)
        ensures
            r@ == self.dir_view(),
    {
        &self.dir
    }

    /// The name of the image.
    pub fn get_name(&self) -> (r: &String)
        ensures
            r@ == self.name_view(),
    {
        &self.name
    }

    /// The arguments of the command that builds the image of this system.
    pub fn image_build_args(&self) -> (v: Vec<String>)
        ensures
            strings_view(v) == build_args_spec(self.dir_view(), self.name_view()),
    {
        PodmanCore::build_args(self.dir.as_str(), self.name.as_str())
    }

    /// The arguments of the command that starts the interpreter in a container of the image.
    pub fn container_run_args(&self) -> (v: Vec<String>)
        ensures
            strings_view(v) == run_args_spec(
                self.dir_view(),
                self.name_view(),
                self.from_sys_view().command(),
            ),
    {
        PodmanCore::run_args(self.dir.as_str(), self.name.as_str(), self.from_sys.get_base_command().as_str())
    }

    /// Starts a run of `script` with the data `data` in this system's container, which holds its
    /// state from run to run: the plan starts a container where none runs. The container runs
    /// from now on.
    pub fn begin_run(&mut self, script: &str, data: &JsonMap) -> (plan: RunPlan)
        ensures
            (plan.spawn, plan.inputs_view()) == old(self).run_plan_spec(script@, data@),
            final(self).from_sys_view().same_conf(old(self).from_sys_view()),
            final(self).from_sys_view().session_open(),
            final(self).core_view() == old(self).core_view(),
            final(self).docker_file_view() == old(self).docker_file_view(),
            final(self).dir_view() == old(self).dir_view(),
            final(self).name_view() == old(self).name_view(),
    {
        let spawn = !self.from_sys.has_session();
        let text = self.from_sys.get_script(script, data);
        let mut inputs: Vec<String> = Vec::new();
        inputs.push(text);
        if spawn {
            let _ = self.from_sys.begin_run(script, data);
        }
        let plan = RunPlan { spawn, inputs };
        proof {
            assert(plan.inputs_view() =~= seq![old(self).from_sys_view().script_text(script@, data@)]);
        }
        plan
    }

    /// Ends this system's container, where one runs, and tells whether one did (and so has to
    /// be stopped).
    pub fn clean(&mut self) -> (had_session: bool)
        ensures
            had_session == old(self).from_sys_view().session_open(),
            !final(self).from_sys_view().session_open(),
            final(self).from_sys_view().same_conf(old(self).from_sys_view()),
            final(self).core_view() == old(self).core_view(),
            final(self).docker_file_view() == old(self).docker_file_view(),
            final(self).dir_view() == old(self).dir_view(),
            final(self).name_view() == old(self).name_view(),
    {
        self.from_sys.clean()
    }

    /// The plan of an isolated run of `script` with the data `data`: a new container, to which
    /// only the script is sent, and which the run leaves behind.
    pub fn plan_run_script(&self, script: &str, data: &JsonMap) -> (plan: RunPlan)
        ensures
            (plan.spawn, plan.inputs_view()) == self.run_script_plan_spec(script@, data@),
    {
        let text = self.from_sys.get_script(script, data);
        let mut inputs: Vec<String> = Vec::new();
        inputs.push(text);
        let plan = RunPlan { spawn: true, inputs };
        proof {
            assert(plan.inputs_view() =~= seq![self.from_sys_view().script_text(script@, data@)]);
        }
        plan
    }
}

/// Lock data reproduces the system: the lock data written for a system created on the podman
/// installation `core` asks, when the system is loaded from it, for the release of `core`,
/// which lies in the same place under the system's directory `dir`.
pub proof fn law_lock_data_reproduces_version(core: PodmanCore, dir: Seq<char>)
    ensures
        requested_version_spec(lock_data_spec(core)).tag() == Some(core.version_view()),
        version_dir_spec(dir, requested_version_spec(lock_data_spec(core)).tag()->0)
            == version_dir_spec(dir, core.version_view()),
{
    core.lemma_version_string();
}

/// An isolated run on a podman system does what a run does on the same system with no container
/// running: it starts a new container and sends the script alone.
pub proof fn law_podman_run_script_is_fresh_run(
    podman: Podman,
    fresh: Podman,
    script: Seq<char>,
    data: Map<Seq<char>, serde_json::Value>,
)
    requires
        fresh.from_sys_view().same_conf(podman.from_sys_view()),
        !fresh.from_sys_view().session_open(),
    ensures
        podman.run_script_plan_spec(script, data) == fresh.run_plan_spec(script, data),
{
}

} // verus!
