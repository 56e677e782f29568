//! Projects, builds and containers, and the status enums stored with them.
use vstd::prelude::*;
use crate::text::{chars, from_chars, str_eq, to_lowercase, lowercase, is_ascii_seq, ascii_lower};

verus! {

/// One of the two deployment slots of a project.
#[derive(Debug, Clone, Copy, PartialEq, Eq, Structural)]
pub enum Slot {
    Blue,
    Green,
}

/// The state of a build.
#[derive(Debug, Clone, Copy, PartialEq, Eq, Structural)]
pub enum BuildStatus {
    Queued,
    Building,
    Success,
    Failed,
}

/// The deployment state of a project.
#[derive(Debug, Clone, Copy, PartialEq, Eq, Structural)]
pub enum DeploymentStatus {
    NotDeployed,
    Deploying,
    Deployed,
    Failed,
}

/// The state of a standalone container.
#[derive(Debug, Clone, Copy, PartialEq, Eq, Structural)]
pub enum ContainerStatus {
    Running,
    Stopped,
    Pulling,
    Starting,
}

/// How a standalone container is reached.
#[derive(Debug, Clone, Copy, PartialEq, Eq, Structural)]
pub enum ProtocolType {
    Tcp,
    Http,
}

/// The text form of a slot.
pub open spec fn slot_text(s: Slot) -> Seq<char> {
    match s {
        Slot::Blue => "Blue"@,
        Slot::Green => "Green"@,
    }
}

/// The text form of a build status.
pub open spec fn build_status_text(s: BuildStatus) -> Seq<char> {
    match s {
        BuildStatus::Queued => "Queued"@,
        BuildStatus::Building => "Building"@,
        BuildStatus::Success => "Success"@,
        BuildStatus::Failed => "Failed"@,
    }
}

/// The text form of a deployment status.
pub open spec fn deployment_status_text(s: DeploymentStatus) -> Seq<char> {
    match s {
        DeploymentStatus::NotDeployed => "NotDeployed"@,
        DeploymentStatus::Deploying => "Deploying"@,
        DeploymentStatus::Deployed => "Deployed"@,
        DeploymentStatus::Failed => "Failed"@,
    }
}

/// The text form of a container status.
pub open spec fn container_status_text(s: ContainerStatus) -> Seq<char> {
    match s {
        ContainerStatus::Running => "running"@,
        ContainerStatus::Stopped => "stopped"@,
        ContainerStatus::Pulling => "pulling"@,
        ContainerStatus::Starting => "starting"@,
    }
}

/// The text form of a protocol type.
pub open spec fn protocol_text(p: ProtocolType) -> Seq<char> {
    match p {
        ProtocolType::Tcp => "tcp"@,
        ProtocolType::Http => "http"@,
    }
}

/// The slot named by `s`, if any.
pub open spec fn slot_of_text(s: Seq<char>) -> Option<Slot> {
    if s == "Blue"@ {
        Some(Slot::Blue)
    } else if s == "Green"@ {
        Some(Slot::Green)
    } else {
        None
    }
}

/// The build status named by `s`, if any; the retired name `Deploying`
/// reads as `Success`.
pub open spec fn build_status_of_text(s: Seq<char>) -> Option<BuildStatus> {
    if s == "Queued"@ {
        Some(BuildStatus::Queued)
    } else if s == "Building"@ {
        Some(BuildStatus::Building)
    } else if s == "Success"@ {
        Some(BuildStatus::Success)
    } else if s == "Failed"@ {
        Some(BuildStatus::Failed)
    } else if s == "Deploying"@ {
        Some(BuildStatus::Success)
    } else {
        None
    }
}

/// The deployment status named by `s`, if any.
pub open spec fn deployment_status_of_text(s: Seq<char>) -> Option<DeploymentStatus> {
    if s == "NotDeployed"@ {
        Some(DeploymentStatus::NotDeployed)
    } else if s == "Deploying"@ {
        Some(DeploymentStatus::Deploying)
    } else if s == "Deployed"@ {
        Some(DeploymentStatus::Deployed)
    } else if s == "Failed"@ {
        Some(DeploymentStatus::Failed)
    } else {
        None
    }
}

/// The container status named by `s`, if any.
pub open spec fn container_status_of_text(s: Seq<char>) -> Option<ContainerStatus> {
    if s == "running"@ {
        Some(ContainerStatus::Running)
    } else if s == "stopped"@ {
        Some(ContainerStatus::Stopped)
    } else if s == "pulling"@ {
        Some(ContainerStatus::Pulling)
    } else if s == "starting"@ {
        Some(ContainerStatus::Starting)
    } else {
        None
    }
}

/// The protocol named by an already lowercased `s`, if any.
pub open spec fn protocol_of_lower_text(s: Seq<char>) -> Option<ProtocolType> {
    if s == "tcp"@ {
        Some(ProtocolType::Tcp)
    } else if s == "http"@ {
        Some(ProtocolType::Http)
    } else {
        None
    }
}

/// The result of parsing `s` with `named`, or an error `prefix` followed by `s`.
pub open spec fn parse_result<T>(named: Option<T>, prefix: Seq<char>, s: Seq<char>) -> Result<T, Seq<char>> {
    match named {
        Some(v) => Ok(v),
        None => Err(prefix + s),
    }
}

/// The view of a parse result whose error is a `String`.
pub open spec fn result_view<T>(r: Result<T, String>) -> Result<T, Seq<char>> {
    match r {
        Ok(v) => Ok(v),
        Err(e) => Err(e@),
    }
}

/// `prefix` followed by `s`, as a `String`.
fn error_text(prefix: &str, s: &str) -> (r: String)
    ensures
        r@ == prefix@ + s@,
{
    let mut v = chars(prefix);
    let w = chars(s);
    crate::text::append_chars(&mut v, w.as_slice());
    from_chars(v.as_slice())
}

impl Slot {
    /// The slot's text form (`Blue` or `Green`).
    pub fn label(&self) -> (r: String)
        ensures
            r@ == slot_text(*self),
    {
        match self {
            Slot::Blue => from_chars(chars("Blue").as_slice()),
            Slot::Green => from_chars(chars("Green").as_slice()),
        }
    }

    /// Parses the text form of a slot.
    pub fn parse(s: &str) -> (r: Result<Slot, String>)
        ensures
            result_view(r) == parse_result(slot_of_text(s@), "Invalid slot: "@, s@),
    {
        if str_eq(s, "Blue") {
            Ok(Slot::Blue)
        } else if str_eq(s, "Green") {
            Ok(Slot::Green)
        } else {
            Err(error_text("Invalid slot: ", s))
        }
    }

    /// Parses the text form of a slot, reading anything else as `Blue`.
    pub fn parse_or_default(s: &str) -> (r: Slot)
        ensures
            r == match slot_of_text(s@) {
                Some(v) => v,
                None => Slot::Blue,
            },
    {
        match Slot::parse(s) {
            Ok(v) => v,
            Err(_) => Slot::Blue,
        }
    }
}

impl BuildStatus {
    /// The status's text form.
    pub fn label(&self) -> (r: String)
        ensures
            r@ == build_status_text(*self),
    {
        match self {
            BuildStatus::Queued => from_chars(chars("Queued").as_slice()),
            BuildStatus::Building => from_chars(chars("Building").as_slice()),
            BuildStatus::Success => from_chars(chars("Success").as_slice()),
            BuildStatus::Failed => from_chars(chars("Failed").as_slice()),
        }
    }

    /// Parses the text form of a build status.
    pub fn parse(s: &str) -> (r: Result<BuildStatus, String>)
        ensures
            result_view(r) == parse_result(build_status_of_text(s@), "Invalid build status: "@, s@),
    {
        if str_eq(s, "Queued") {
            Ok(BuildStatus::Queued)
        } else if str_eq(s, "Building") {
            Ok(BuildStatus::Building)
        } else if str_eq(s, "Success") {
            Ok(BuildStatus::Success)
        } else if str_eq(s, "Failed") {
            Ok(BuildStatus::Failed)
        } else if str_eq(s, "Deploying") {
            Ok(BuildStatus::Success)
        } else {
            Err(error_text("Invalid build status: ", s))
        }
    }

    /// Parses the text form of a build status, reading anything else as `Queued`.
    pub fn parse_or_default(s: &str) -> (r: BuildStatus)
        ensures
            r == match build_status_of_text(s@) {
                Some(v) => v,
                None => BuildStatus::Queued,
            },
    {
        match BuildStatus::parse(s) {
            Ok(v) => v,
            Err(_) => BuildStatus::Queued,
        }
    }
}

impl DeploymentStatus {
    /// The status's text form.
    pub fn label(&self) -> (r: String)
        ensures
            r@ == deployment_status_text(*self),
    {
        match self {
            DeploymentStatus::NotDeployed => from_chars(chars("NotDeployed").as_slice()),
            DeploymentStatus::Deploying => from_chars(chars("Deploying").as_slice()),
            DeploymentStatus::Deployed => from_chars(chars("Deployed").as_slice()),
            DeploymentStatus::Failed => from_chars(chars("Failed").as_slice()),
        }
    }

    /// Parses the text form of a deployment status.
    pub fn parse(s: &str) -> (r: Result<DeploymentStatus, String>)
        ensures
            result_view(r) == parse_result(
                deployment_status_of_text(s@),
                "Invalid deployment status: "@,
                s@,
            ),
    {
        if str_eq(s, "NotDeployed") {
            Ok(DeploymentStatus::NotDeployed)
        } else if str_eq(s, "Deploying") {
            Ok(DeploymentStatus::Deploying)
        } else if str_eq(s, "Deployed") {
            Ok(DeploymentStatus::Deployed)
        } else if str_eq(s, "Failed") {
            Ok(DeploymentStatus::Failed)
        } else {
            Err(error_text("Invalid deployment status: ", s))
        }
    }
}

impl ContainerStatus {
    /// The status's text form.
    pub fn label(&self) -> (r: String)
        ensures
            r@ == container_status_text(*self),
    {
        match self {
            ContainerStatus::Running => from_chars(chars("running").as_slice()),
            ContainerStatus::Stopped => from_chars(chars("stopped").as_slice()),
            ContainerStatus::Pulling => from_chars(chars("pulling").as_slice()),
            ContainerStatus::Starting => from_chars(chars("starting").as_slice()),
        }
    }

    /// Parses the text form of a container status.
    pub fn parse(s: &str) -> (r: Result<ContainerStatus, String>)
        ensures
            result_view(r) == parse_result(
                container_status_of_text(s@),
                "Invalid container status: "@,
                s@,
            ),
    {
        if str_eq(s, "running") {
            Ok(ContainerStatus::Running)
        } else if str_eq(s, "stopped") {
            Ok(ContainerStatus::Stopped)
        } else if str_eq(s, "pulling") {
            Ok(ContainerStatus::Pulling)
        } else if str_eq(s, "starting") {
            Ok(ContainerStatus::Starting)
        } else {
            Err(error_text("Invalid container status: ", s))
        }
    }

    /// Parses the text form of a container status, reading anything else as `Stopped`.
    pub fn parse_or_default(s: &str) -> (r: ContainerStatus)
        ensures
            r == match container_status_of_text(s@) {
                Some(v) => v,
                None => ContainerStatus::Stopped,
            },
    {
        match ContainerStatus::parse(s) {
            Ok(v) => v,
            Err(_) => ContainerStatus::Stopped,
        }
    }
}

impl ProtocolType {
    /// The protocol a container gets when none is named: TCP.
    pub fn default_protocol() -> (r: ProtocolType)
        ensures
            r == ProtocolType::Tcp,
    {
        ProtocolType::Tcp
    }

    /// The protocol's text form (`tcp` or `http`).
    pub fn label(&self) -> (r: String)
        ensures
            r@ == protocol_text(*self),
    {
        match self {
            ProtocolType::Tcp => from_chars(chars("tcp").as_slice()),
            ProtocolType::Http => from_chars(chars("http").as_slice()),
        }
    }

    /// Parses a protocol name, ignoring case.
    pub fn parse(s: &str) -> (r: Result<ProtocolType, String>)
        ensures
            result_view(r) == parse_result(
                protocol_of_lower_text(lowercase(s@)),
                "Invalid protocol type: "@,
                s@,
            ),
            is_ascii_seq(s@) ==> result_view(r) == parse_result(
                protocol_of_lower_text(s@.map_values(|c: char| ascii_lower(c))),
                "Invalid protocol type: "@,
                s@,
            ),
    {
        let sv = chars(s);
        let lower = to_lowercase(sv.as_slice());
        let lower_s = from_chars(lower.as_slice());
        if str_eq(lower_s.as_str(), "tcp") {
            Ok(ProtocolType::Tcp)
        } else if str_eq(lower_s.as_str(), "http") {
            Ok(ProtocolType::Http)
        } else {
            Err(error_text("Invalid protocol type: ", s))
        }
    }

    /// Parses a protocol name, reading anything else as `Tcp`.
    pub fn parse_or_default(s: &str) -> (r: ProtocolType)
        ensures
            r == match protocol_of_lower_text(lowercase(s@)) {
                Some(v) => v,
                None => ProtocolType::Tcp,
            },
    {
        match ProtocolType::parse(s) {
            Ok(v) => v,
            Err(_) => ProtocolType::Tcp,
        }
    }
}


/// A project: a repository built and served from one of two slots.
#[derive(Debug, Clone)]
pub struct Project {
    pub id: i64,
    pub name: String,
    pub repo: String,
    pub path_filter: String,
    pub branch: String,
    pub build_image: String,
    pub build_command: String,
    pub cache_type: String,
    pub working_directory: Option<String>,
    pub runtime_image: String,
    pub runtime_command: String,
    pub health_check_url: String,
    /// The port the application listens on inside its container.
    pub runtime_port: i32,
    /// Environment variables of the build, as a JSON object.
    pub build_env_vars: Option<String>,
    /// Environment variables of the running application, as a JSON object.
    pub runtime_env_vars: Option<String>,
    pub blue_port: i32,
    pub green_port: i32,
    pub active_slot: Slot,
    pub blue_container_id: Option<String>,
    pub green_container_id: Option<String>,
    pub deployment_status: DeploymentStatus,
    pub github_webhook_id: Option<i64>,
    pub discord_webhook_id: Option<i64>,
    pub created_at: String,
    pub updated_at: String,
}

/// The slot other than `s`.
pub open spec fn other_slot(s: Slot) -> Slot {
    match s {
        Slot::Blue => Slot::Green,
        Slot::Green => Slot::Blue,
    }
}

/// The host port of `slot` in a project.
pub open spec fn slot_port(p: Project, slot: Slot) -> i32 {
    match slot {
        Slot::Blue => p.blue_port,
        Slot::Green => p.green_port,
    }
}

/// The container recorded for `slot` in a project.
pub open spec fn slot_container(p: Project, slot: Slot) -> Option<String> {
    match slot {
        Slot::Blue => p.blue_container_id,
        Slot::Green => p.green_container_id,
    }
}

impl Project {
    /// The host port of the active slot.
    pub fn get_active_port(&self) -> (r: i32)
        ensures
            r == slot_port(*self, self.active_slot),
    {
        match self.active_slot {
            Slot::Blue => self.blue_port,
            Slot::Green => self.green_port,
        }
    }

    /// The slot that is not active.
    pub fn get_inactive_slot(&self) -> (r: Slot)
        ensures
            r == other_slot(self.active_slot),
    {
        match self.active_slot {
            Slot::Blue => Slot::Green,
            Slot::Green => Slot::Blue,
        }
    }

    /// The host port of the slot that is not active.
    pub fn get_inactive_port(&self) -> (r: i32)
        ensures
            r == slot_port(*self, other_slot(self.active_slot)),
    {
        match self.active_slot {
            Slot::Blue => self.green_port,
            Slot::Green => self.blue_port,
        }
    }

    /// The host port of `slot`.
    pub fn get_slot_port(&self, slot: &Slot) -> (r: i32)
        ensures
            r == slot_port(*self, *slot),
    {
        match slot {
            Slot::Blue => self.blue_port,
            Slot::Green => self.green_port,
        }
    }

    /// The container recorded for `slot`.
    pub fn get_container_id(&self, slot: &Slot) -> (r: Option<&String>)
        ensures
            match r {
                Some(c) => slot_container(*self, *slot) == Some(*c),
                None => slot_container(*self, *slot) is None,
            },
    {
        match slot {
            Slot::Blue => self.blue_container_id.as_ref(),
            Slot::Green => self.green_container_id.as_ref(),
        }
    }
}

/// A build of a project at one commit.
#[derive(Debug, Clone)]
pub struct Build {
    pub id: i64,
    pub project_id: i64,
    pub build_number: i64,
    pub commit_hash: String,
    pub commit_message: Option<String>,
    pub author: Option<String>,
    pub status: BuildStatus,
    pub log_path: String,
    pub deploy_log_path: Option<String>,
    pub output_path: Option<String>,
    /// The slot the build was deployed to, in its text form.
    pub deployed_slot: Option<String>,
    pub started_at: String,
    pub finished_at: Option<String>,
}

impl Build {
    /// The slot the build was deployed to, if it names one.
    pub fn get_deployed_slot(&self) -> (r: Option<Slot>)
        ensures
            r == match self.deployed_slot {
                Some(s) => slot_of_text(s@),
                None => None,
            },
    {
        match &self.deployed_slot {
            Some(s) => match Slot::parse(s.as_str()) {
                Ok(v) => Some(v),
                Err(_) => None,
            },
            None => None,
        }
    }
}

/// The fields of a new project.
#[derive(Debug, Clone)]
pub struct CreateProject {
    pub name: String,
    pub repo: String,
    pub path_filter: String,
    pub branch: String,
    pub build_image: String,
    pub build_command: String,
    pub cache_type: String,
    pub working_directory: Option<String>,
    pub build_env_vars: Option<String>,
    pub runtime_image: String,
    pub runtime_command: String,
    pub health_check_url: String,
    pub runtime_port: i32,
    pub runtime_env_vars: Option<String>,
}

/// The fields of a project to change; `None` keeps a field as it is.
#[derive(Debug, Clone)]
pub struct UpdateProject {
    pub name: Option<String>,
    pub repo: Option<String>,
    pub path_filter: Option<String>,
    pub branch: Option<String>,
    pub build_image: Option<String>,
    pub build_command: Option<String>,
    pub cache_type: Option<String>,
    pub working_directory: Option<String>,
    pub build_env_vars: Option<String>,
    pub runtime_image: Option<String>,
    pub runtime_command: Option<String>,
    pub health_check_url: Option<String>,
    pub runtime_port: Option<i32>,
    pub runtime_env_vars: Option<String>,
}

/// The host ports of a new project: the two after the highest green port
/// in use, or 10002 and 10003 for the first project.
pub fn next_project_ports(max_green: Option<i32>) -> (r: (i32, i32))
    requires
        max_green matches Some(m) ==> m <= i32::MAX - 2,
    ensures
        match max_green {
            Some(m) => r.0 == m + 1 && r.1 == m + 2,
            None => r == (10002i32, 10003i32),
        },
{
    match max_green {
        Some(m) => (m + 1, m + 2),
        None => (10002, 10003),
    }
}

/// `o`'s value, or `d`.
pub open spec fn or_else<T>(o: Option<T>, d: T) -> T {
    match o {
        Some(v) => v,
        None => d,
    }
}

/// `o` when it holds a value, else `d`.
pub open spec fn or_option<T>(o: Option<T>, d: Option<T>) -> Option<T> {
    match o {
        Some(v) => Some(v),
        None => d,
    }
}

impl UpdateProject {
    /// The project after the update: each field given replaces the current
    /// one (an optional field can be set this way but not cleared), and
    /// everything else stays.
    pub fn apply(self, current: Project) -> (r: Project)
        ensures
            r.name == or_else(self.name, current.name),
            r.repo == or_else(self.repo, current.repo),
            r.path_filter == or_else(self.path_filter, current.path_filter),
            r.branch == or_else(self.branch, current.branch),
            r.build_image == or_else(self.build_image, current.build_image),
            r.build_command == or_else(self.build_command, current.build_command),
            r.cache_type == or_else(self.cache_type, current.cache_type),
            r.working_directory == or_option(self.working_directory, current.working_directory),
            r.build_env_vars == or_option(self.build_env_vars, current.build_env_vars),
            r.runtime_image == or_else(self.runtime_image, current.runtime_image),
            r.runtime_command == or_else(self.runtime_command, current.runtime_command),
            r.health_check_url == or_else(self.health_check_url, current.health_check_url),
            r.runtime_port == or_else(self.runtime_port, current.runtime_port),
            r.runtime_env_vars == or_option(self.runtime_env_vars, current.runtime_env_vars),
            r.id == current.id,
            r.blue_port == current.blue_port,
            r.green_port == current.green_port,
            r.active_slot == current.active_slot,
            r.blue_container_id == current.blue_container_id,
            r.green_container_id == current.green_container_id,
            r.deployment_status == current.deployment_status,
            r.github_webhook_id == current.github_webhook_id,
            r.discord_webhook_id == current.discord_webhook_id,
            r.created_at == current.created_at,
            r.updated_at == current.updated_at,
    {
        Project {
            name: match self.name {
                Some(v) => v,
                None => current.name,
            },
            repo: match self.repo {
                Some(v) => v,
                None => current.repo,
            },
            path_filter: match self.path_filter {
                Some(v) => v,
                None => current.path_filter,
            },
            branch: match self.branch {
                Some(v) => v,
                None => current.branch,
            },
            build_image: match self.build_image {
                Some(v) => v,
                None => current.build_image,
            },
            build_command: match self.build_command {
                Some(v) => v,
                None => current.build_command,
            },
            cache_type: match self.cache_type {
                Some(v) => v,
                None => current.cache_type,
            },
            working_directory: match self.working_directory {
                Some(v) => Some(v),
                None => current.working_directory,
            },
            build_env_vars: match self.build_env_vars {
                Some(v) => Some(v),
                None => current.build_env_vars,
            },
            runtime_image: match self.runtime_image {
                Some(v) => v,
                None => current.runtime_image,
            },
            runtime_command: match self.runtime_command {
                Some(v) => v,
                None => current.runtime_command,
            },
            health_check_url: match self.health_check_url {
                Some(v) => v,
                None => current.health_check_url,
            },
            runtime_port: match self.runtime_port {
                Some(v) => v,
                None => current.runtime_port,
            },
            runtime_env_vars: match self.runtime_env_vars {
                Some(v) => Some(v),
                None => current.runtime_env_vars,
            },
            ..current
        }
    }
}

/// The fields of a new build.
#[derive(Debug, Clone)]
pub struct CreateBuild {
    pub project_id: i64,
    pub commit_hash: String,
    pub commit_message: Option<String>,
    pub author: Option<String>,
}

/// A standalone container (a database, a cache, ...).
#[derive(Debug, Clone)]
pub struct Container {
    pub id: i64,
    pub name: String,
    pub container_id: Option<String>,
    /// The host port.
    pub port: i32,
    /// The port inside the container.
    pub container_port: Option<i32>,
    pub image: String,
    pub env_vars: Option<String>,
    pub command: Option<String>,
    /// 1 when the data directory is kept on the host, else 0.
    pub persist_data: i64,
    pub protocol_type: ProtocolType,
    pub status: ContainerStatus,
    pub created_at: String,
    pub updated_at: String,
}

/// The fields of a new standalone container.
#[derive(Debug, Clone)]
pub struct CreateContainer {
    pub name: String,
    pub image: String,
    pub container_port: i32,
    pub env_vars: Option<String>,
    pub command: Option<String>,
    pub persist_data: bool,
    pub protocol_type: ProtocolType,
}

/// The result of starting, stopping or restarting one slot's container.
#[derive(Debug, Clone)]
pub struct ContainerOperationResult {
    pub slot: String,
    pub status: String,
    pub container: String,
    pub error: Option<String>,
}

/// Reading back the text form of a slot gives the slot.
pub proof fn law_slot_text_round_trip(s: Slot)
    ensures
        slot_of_text(slot_text(s)) == Some(s),
{
    reveal_strlit("Blue");
    reveal_strlit("Green");
    assert("Green"@ != "Blue"@) by {
        assert("Green"@.len() == 5);
        assert("Blue"@.len() == 4);
    }
    match s {
        Slot::Blue => {
            assert(slot_of_text(slot_text(Slot::Blue)) == Some(Slot::Blue));
        },
        Slot::Green => {
            assert(slot_of_text(slot_text(Slot::Green)) == Some(Slot::Green));
        },
    }
}

/// Reading back the text form of a build status gives the status.
pub proof fn law_build_status_text_round_trip(s: BuildStatus)
    ensures
        build_status_of_text(build_status_text(s)) == Some(s),
{
    reveal_strlit("Queued");
    reveal_strlit("Building");
    reveal_strlit("Success");
    reveal_strlit("Failed");
    reveal_strlit("Deploying");
    assert("Building"@ != "Queued"@) by {
        assert("Building"@.len() == 8);
        assert("Queued"@.len() == 6);
    }
    assert("Success"@ != "Queued"@) by {
        assert("Success"@.len() == 7);
        assert("Queued"@.len() == 6);
    }
    assert("Success"@ != "Building"@) by {
        assert("Success"@.len() == 7);
        assert("Building"@.len() == 8);
    }
    assert("Failed"@ != "Queued"@) by {
        assert("Failed"@.len() == 6);
        assert("Queued"@.len() == 6);
        assert("Failed"@[0] != "Queued"@[0]);
    }
    assert("Failed"@ != "Building"@) by {
        assert("Failed"@.len() == 6);
        assert("Building"@.len() == 8);
    }
    assert("Failed"@ != "Success"@) by {
        assert("Failed"@.len() == 6);
        assert("Success"@.len() == 7);
    }
    assert("Deploying"@ != "Queued"@) by {
        assert("Deploying"@.len() == 9);
        assert("Queued"@.len() == 6);
    }
    assert("Deploying"@ != "Building"@) by {
        assert("Deploying"@.len() == 9);
        assert("Building"@.len() == 8);
    }
    assert("Deploying"@ != "Success"@) by {
        assert("Deploying"@.len() == 9);
        assert("Success"@.len() == 7);
    }
    assert("Deploying"@ != "Failed"@) by {
        assert("Deploying"@.len() == 9);
        assert("Failed"@.len() == 6);
    }
    match s {
        BuildStatus::Queued => {
            assert(build_status_of_text(build_status_text(BuildStatus::Queued)) == Some(BuildStatus::Queued));
        },
        BuildStatus::Building => {
            assert(build_status_of_text(build_status_text(BuildStatus::Building)) == Some(BuildStatus::Building));
        },
        BuildStatus::Success => {
            assert(build_status_of_text(build_status_text(BuildStatus::Success)) == Some(BuildStatus::Success));
        },
        BuildStatus::Failed => {
            assert(build_status_of_text(build_status_text(BuildStatus::Failed)) == Some(BuildStatus::Failed));
        },
    }
}

/// Reading back the text form of a deployment status gives the status.
pub proof fn law_deployment_status_text_round_trip(s: DeploymentStatus)
    ensures
        deployment_status_of_text(deployment_status_text(s)) == Some(s),
{
    reveal_strlit("NotDeployed");
    reveal_strlit("Deploying");
    reveal_strlit("Deployed");
    reveal_strlit("Failed");
    assert("Deploying"@ != "NotDeployed"@) by {
        assert("Deploying"@.len() == 9);
        assert("NotDeployed"@.len() == 11);
    }
    assert("Deployed"@ != "NotDeployed"@) by {
        assert("Deployed"@.len() == 8);
        assert("NotDeployed"@.len() == 11);
    }
    assert("Deployed"@ != "Deploying"@) by {
        assert("Deployed"@.len() == 8);
        assert("Deploying"@.len() == 9);
    }
    assert("Failed"@ != "NotDeployed"@) by {
        assert("Failed"@.len() == 6);
        assert("NotDeployed"@.len() == 11);
    }
    assert("Failed"@ != "Deploying"@) by {
        assert("Failed"@.len() == 6);
        assert("Deploying"@.len() == 9);
    }
    assert("Failed"@ != "Deployed"@) by {
        assert("Failed"@.len() == 6);
        assert("Deployed"@.len() == 8);
    }
    match s {
        DeploymentStatus::NotDeployed => {
            assert(deployment_status_of_text(deployment_status_text(DeploymentStatus::NotDeployed)) == Some(DeploymentStatus::NotDeployed));
        },
        DeploymentStatus::Deploying => {
            assert(deployment_status_of_text(deployment_status_text(DeploymentStatus::Deploying)) == Some(DeploymentStatus::Deploying));
        },
        DeploymentStatus::Deployed => {
            assert(deployment_status_of_text(deployment_status_text(DeploymentStatus::Deployed)) == Some(DeploymentStatus::Deployed));
        },
        DeploymentStatus::Failed => {
            assert(deployment_status_of_text(deployment_status_text(DeploymentStatus::Failed)) == Some(DeploymentStatus::Failed));
        },
    }
}

/// Reading back the text form of a container status gives the status.
pub proof fn law_container_status_text_round_trip(s: ContainerStatus)
    ensures
        container_status_of_text(container_status_text(s)) == Some(s),
{
    reveal_strlit("running");
    reveal_strlit("stopped");
    reveal_strlit("pulling");
    reveal_strlit("starting");
    assert("stopped"@ != "running"@) by {
        assert("stopped"@.len() == 7);
        assert("running"@.len() == 7);
        assert("stopped"@[0] != "running"@[0]);
    }
    assert("pulling"@ != "running"@) by {
        assert("pulling"@.len() == 7);
        assert("running"@.len() == 7);
        assert("pulling"@[0] != "running"@[0]);
    }
    assert("pulling"@ != "stopped"@) by {
        assert("pulling"@.len() == 7);
        assert("stopped"@.len() == 7);
        assert("pulling"@[0] != "stopped"@[0]);
    }
    assert("starting"@ != "running"@) by {
        assert("starting"@.len() == 8);
        assert("running"@.len() == 7);
    }
    assert("starting"@ != "stopped"@) by {
        assert("starting"@.len() == 8);
        assert("stopped"@.len() == 7);
    }
    assert("starting"@ != "pulling"@) by {
        assert("starting"@.len() == 8);
        assert("pulling"@.len() == 7);
    }
    match s {
        ContainerStatus::Running => {
            assert(container_status_of_text(container_status_text(ContainerStatus::Running)) == Some(ContainerStatus::Running));
        },
        ContainerStatus::Stopped => {
            assert(container_status_of_text(container_status_text(ContainerStatus::Stopped)) == Some(ContainerStatus::Stopped));
        },
        ContainerStatus::Pulling => {
            assert(container_status_of_text(container_status_text(ContainerStatus::Pulling)) == Some(ContainerStatus::Pulling));
        },
        ContainerStatus::Starting => {
            assert(container_status_of_text(container_status_text(ContainerStatus::Starting)) == Some(ContainerStatus::Starting));
        },
    }
}

/// Reading back the text form of a protocol gives the protocol.
pub proof fn law_protocol_text_round_trip(p: ProtocolType)
    ensures
        protocol_of_lower_text(protocol_text(p)) == Some(p),
        is_ascii_seq(protocol_text(p)),
        protocol_text(p).map_values(|c: char| ascii_lower(c)) == protocol_text(p),
{
    reveal_strlit("tcp");
    reveal_strlit("http");
    assert("http"@ != "tcp"@) by {
        assert("http"@.len() == 4);
        assert("tcp"@.len() == 3);
    }
    match p {
        ProtocolType::Tcp => {
            assert(protocol_of_lower_text("tcp"@) == Some(ProtocolType::Tcp));
        },
        ProtocolType::Http => {
            assert(protocol_of_lower_text("http"@) == Some(ProtocolType::Http));
        },
    }
    assert(protocol_text(p).map_values(|c: char| ascii_lower(c)) =~= protocol_text(p));
}

/// The inactive slot differs from the active one, and switching twice returns.
pub proof fn law_inactive_slot(p: Project)
    ensures
        other_slot(p.active_slot) != p.active_slot,
        other_slot(other_slot(p.active_slot)) == p.active_slot,
        slot_port(p, other_slot(p.active_slot)) == match p.active_slot {
            Slot::Blue => p.green_port,
            Slot::Green => p.blue_port,
        },
{
}

} // verus!
