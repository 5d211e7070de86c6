//! The executor: picks the launch profile of a language and plans the
//! container that runs one job.

use vstd::prelude::*;
use vstd::string::*;
use crate::docker::{
    AdapterError, ConfigView, ContainerConfig, DockerClient, DEFAULT_TIMEOUT_SECONDS,
};
use crate::ids::{container_name, container_name_of};
use crate::language::{language_of, Language};
use crate::models::{Environment, ResourceRequirements};
use crate::text::{copy_strings, push_all, texts};

verus! {

/// Plans launches on top of a runtime handle.
#[derive(Debug)]
pub struct DockerExecutor {
    docker: DockerClient,
}

/// The directory inside the container at which the code is mounted.
pub open spec fn working_directory() -> Seq<char> {
    "/workspace"@
}

/// The most seconds that any job may run.
pub const MAX_TIMEOUT_SECONDS: u64 = 300;

/// The bytes of one MiB.
pub const MIB: u64 = 1_048_576;

/// The timeout that a launch is given: the requested one, capped.
pub open spec fn capped_timeout(requested: Option<u64>) -> Option<u64> {
    match requested {
        Some(t) => Some(if t > MAX_TIMEOUT_SECONDS {
            MAX_TIMEOUT_SECONDS
        } else {
            t
        }),
        None => None,
    }
}

/// The seconds after which a job with this request is given up.
pub open spec fn effective_timeout(requested: Option<u64>) -> u64 {
    match capped_timeout(requested) {
        Some(t) => t,
        None => DEFAULT_TIMEOUT_SECONDS,
    }
}

/// A memory cap in bytes, or the largest number where the bytes do not fit.
pub open spec fn memory_bytes(mib: u64) -> u64 {
    if mib * MIB <= u64::MAX {
        (mib * MIB) as u64
    } else {
        u64::MAX
    }
}

/// The resources of a request, or the standard ones where it names none.
pub open spec fn resources_or_standard(resources: Option<ResourceRequirements>)
    -> ResourceRequirements {
    match resources {
        Some(r) => r,
        None => ResourceRequirements::standard(),
    }
}

/// The configuration of the container that runs a request.
pub open spec fn config_for(
    language: Seq<char>,
    args: Seq<Seq<char>>,
    environment: Seq<(Seq<char>, Seq<char>)>,
    timeout_seconds: Option<u64>,
    resources: Option<ResourceRequirements>,
) -> ConfigView {
    ConfigView {
        image: language_of(language).image(),
        command: language_of(language).launch_command() + args,
        environment,
        working_dir: working_directory(),
        memory_limit: Some(memory_bytes(resources_or_standard(resources).memory_mib)),
        cpu_limit: Some(resources_or_standard(resources).cpu_millis),
        timeout_seconds: capped_timeout(timeout_seconds),
        network_enabled: resources_or_standard(resources).network_enabled,
    }
}

/// All that a launch needs: the name of the container, the file to write the
/// code to, the code, and the configuration.
#[derive(Debug)]
pub struct LaunchPlan {
    pub container_name: String,
    pub source_filename: String,
    pub code: String,
    pub config: ContainerConfig,
}

/// A launch plan as contracts speak of it.
pub struct LaunchPlanView {
    pub container_name: Seq<char>,
    pub source_filename: Seq<char>,
    pub code: Seq<char>,
    pub config: ConfigView,
}

impl View for LaunchPlan {
    type V = LaunchPlanView;

    open spec fn view(&self) -> LaunchPlanView {
        LaunchPlanView {
            container_name: self.container_name@,
            source_filename: self.source_filename@,
            code: self.code@,
            config: self.config@,
        }
    }
}

/// The plan of the launch that runs a request under an identifier.
pub open spec fn plan_for(
    id: u128,
    code: Seq<char>,
    language: Seq<char>,
    args: Seq<Seq<char>>,
    environment: Seq<(Seq<char>, Seq<char>)>,
    timeout_seconds: Option<u64>,
    resources: Option<ResourceRequirements>,
) -> LaunchPlanView {
    LaunchPlanView {
        container_name: container_name_of(id),
        source_filename: language_of(language).source_filename(),
        code,
        config: config_for(language, args, environment, timeout_seconds, resources),
    }
}

impl DockerExecutor {
    /// The executor, where the probe of the runtime succeeded.
    pub fn new(runtime_found: bool) -> (executor: Result<DockerExecutor, AdapterError>)
        ensures
            runtime_found <==> executor is Ok,
            executor matches Err(e) ==> e.message@ == crate::docker::runtime_missing(),
    {
        match DockerClient::new(runtime_found) {
            Ok(docker) => Ok(DockerExecutor { docker }),
            Err(e) => Err(e),
        }
    }

    /// The runtime handle.
    pub fn client(&self) -> &DockerClient {
        &self.docker
    }

    /// The container image in which code of the language runs.
    pub fn get_image_for_language(&self, language: &str) -> (image: String)
        ensures
            image@ == language_of(language@).image(),
    {
        String::from_str(Language::from_tag(language).image_name())
    }

    /// The launch command of the language, followed by the arguments of the
    /// request.
    pub fn get_command_for_language(&self, language: &str, args: &[String]) -> (command: Vec<
        String,
    >)
        ensures
            texts(command@) == language_of(language@).launch_command() + texts(args@),
    {
        let mut command = Language::from_tag(language).command();
        push_all(&mut command, copy_strings(args));
        command
    }

    /// The name of the file that code of the language is written to.
    pub fn get_filename_for_language(&self, language: &str) -> (name: &'static str)
        ensures
            name@ == language_of(language@).source_filename(),
    {
        Language::from_tag(language).filename()
    }

    /// Plans the launch of one job: the container is named after the job,
    /// runs the profile of the language with the request's arguments and
    /// environment, under the request's resources or the standard ones, and
    /// for at most the capped timeout.
    pub fn plan(
        &self,
        execution_id: u128,
        code: &str,
        language: &str,
        args: &[String],
        environment: &Environment,
        timeout_seconds: Option<u64>,
        resources: Option<ResourceRequirements>,
    ) -> (plan: LaunchPlan)
        ensures
            plan@ == plan_for(
                execution_id,
                code@,
                language@,
                texts(args@),
                environment@,
                timeout_seconds,
                resources,
            ),
    {
        let limits = match resources {
            Some(r) => r,
            None => ResourceRequirements::default(),
        };
        let memory = match limits.memory_mib.checked_mul(MIB) {
            Some(bytes) => bytes,
            None => u64::MAX,
        };
        let timeout = match timeout_seconds {
            Some(t) => Some(if t > MAX_TIMEOUT_SECONDS {
                MAX_TIMEOUT_SECONDS
            } else {
                t
            }),
            None => None,
        };
        let config = ContainerConfig {
            image: self.get_image_for_language(language),
            command: self.get_command_for_language(language, args),
            environment: environment.copy(),
            working_dir: String::from_str("/workspace"),
            memory_limit: Some(memory),
            cpu_limit: Some(limits.cpu_millis),
            timeout_seconds: timeout,
            network_enabled: limits.network_enabled,
        };
        LaunchPlan {
            container_name: container_name(execution_id),
            source_filename: String::from_str(self.get_filename_for_language(language)),
            code: String::from_str(code),
            config,
        }
    }
}

} // verus!
