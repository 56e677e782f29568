//! Blue-green deployment and rollback as a state machine: each step takes
//! the answer to the previous request and gives the next requests to carry
//! out (log lines, events, container and store operations), until it ends.
use vstd::prelude::*;
use crate::events::Event;
use crate::models::{Build, BuildStatus, Project, Slot, other_slot, slot_container, slot_of_text, slot_port, slot_text};
use crate::text::{append_chars, append_str, chars, from_chars, i64_text, int_text};

verus! {

/// What the machine carries out.
#[derive(Debug, Clone, Copy, PartialEq, Eq, Structural)]
pub enum DeployMode {
    /// A new build: logged to the deploy log, with events for each outcome.
    Deploy,
    /// A return to an earlier build's output.
    Rollback,
}

/// Where a deployment stands.
#[derive(Debug, Clone, Copy, PartialEq, Eq, Structural)]
pub enum DeployPhase {
    Start,
    /// Waiting to learn whether the target slot's old container runs.
    AwaitOldRunning,
    /// Waiting for the target slot's record to be cleared.
    AwaitTargetCleared,
    /// Waiting for the new container to start.
    AwaitStarted,
    /// Waiting for the new container to be recorded.
    AwaitContainerSet,
    /// Waiting to learn whether the new container runs.
    AwaitHealth,
    /// Waiting for the target slot to become the active one.
    AwaitActiveSlot,
    /// Waiting for the build to be marked successful.
    AwaitBuildFinished,
    /// Waiting for the build's deployed slot to be recorded.
    AwaitDeployedSlot,
    /// Waiting for the old active slot's record to be cleared.
    AwaitOldCleared,
    Finished,
}

/// The answer to the last request of a step.
#[derive(Debug, Clone)]
pub enum DeployEvent {
    /// The request was carried out.
    Done,
    /// Whether the container asked about is running.
    Running(bool),
    /// The new container started, with this id.
    Started(String),
    /// The request failed, for this reason.
    Failed(String),
}

/// A request of the machine.
#[derive(Debug)]
pub enum DeployAction {
    /// Append a line to the deploy log.
    Log(String),
    /// Publish an event.
    Emit(Event),
    /// Ask whether a container runs; answer with `Running`.
    CheckRunning(String),
    /// Stop a container, whatever comes of it.
    StopContainer(String),
    /// Remove a container, whatever comes of it.
    RemoveContainer(String),
    /// Record the container of a slot (none to clear it); answer `Done` or `Failed`.
    SetSlotContainer(Slot, Option<String>),
    /// Start the runtime container; answer `Started` or `Failed`.
    StartRuntime {
        image: String,
        command: String,
        host_port: u16,
        container_port: u16,
        project_id: i64,
        slot_name: String,
        /// The build output the container serves.
        output_path: String,
    },
    /// Wait this many seconds.
    Sleep(u64),
    /// Make a slot the active one; answer `Done` or `Failed`.
    SetActiveSlot(Slot),
    /// Record the build's final status; answer `Done` or `Failed`.
    FinishBuild(BuildStatus),
    /// Record the slot the build was deployed to; answer `Done` or `Failed`.
    SetDeployedSlot(String),
    /// The deployment is over, with this outcome.
    Finish(Result<(), String>),
}

/// A deployment in progress.
pub struct BlueGreenDeployment {
    pub mode: DeployMode,
    pub project_id: i64,
    pub project_name: String,
    pub build_id: i64,
    pub build_number: i64,
    /// The slot that was active when the deployment began.
    pub active: Slot,
    /// The host port of the slot deployed to.
    pub target_port: i32,
    pub runtime_port: i32,
    pub image: String,
    pub command: String,
    /// The build output the new container serves.
    pub output: String,
    /// The container the slot deployed to had.
    pub target_old: Option<String>,
    /// The container the active slot had.
    pub active_old: Option<String>,
    /// The new container, once started.
    pub container: String,
    /// The health check attempt under way.
    pub attempt: u64,
    pub phase: DeployPhase,
}

// ---------------------------------------------------------------------------
// Plain-value models
// ---------------------------------------------------------------------------

/// An event as plain values, without its timestamp.
pub enum EventModel {
    Deployment { project_id: i64, project_name: Seq<char>, build_id: i64, status: Seq<char>, slot: Slot, url: Seq<char> },
    HealthCheck { project_id: i64, build_id: i64, attempt: usize, max_attempts: usize, status: Seq<char>, url: Seq<char> },
    BuildStatus { build_id: i64, project_id: i64, status: BuildStatus },
    Error { build_id: Option<i64>, project_id: Option<i64>, message: Seq<char> },
    /// An event a deployment never publishes.
    Other,
}

/// The plain values of an event.
pub open spec fn event_model(e: Event) -> EventModel {
    match e {
        Event::Deployment { project_id, project_name, build_id, status, slot, url, .. } => EventModel::Deployment {
            project_id,
            project_name: project_name@,
            build_id,
            status: status@,
            slot,
            url: url@,
        },
        Event::HealthCheck { project_id, build_id, attempt, max_attempts, status, url, .. } => EventModel::HealthCheck {
            project_id,
            build_id,
            attempt,
            max_attempts,
            status: status@,
            url: url@,
        },
        Event::BuildStatus { build_id, project_id, status, .. } => EventModel::BuildStatus { build_id, project_id, status },
        Event::Error { build_id, project_id, message, .. } => EventModel::Error { build_id, project_id, message: message@ },
        _ => EventModel::Other,
    }
}

/// An answer as plain values.
pub enum EventAnswer {
    Done,
    Running(bool),
    Started(Seq<char>),
    Failed(Seq<char>),
}

impl View for DeployEvent {
    type V = EventAnswer;

    open spec fn view(&self) -> EventAnswer {
        match self {
            DeployEvent::Done => EventAnswer::Done,
            DeployEvent::Running(b) => EventAnswer::Running(*b),
            DeployEvent::Started(id) => EventAnswer::Started(id@),
            DeployEvent::Failed(e) => EventAnswer::Failed(e@),
        }
    }
}

/// A request as plain values.
pub enum ActionModel {
    Log(Seq<char>),
    Emit(EventModel),
    CheckRunning(Seq<char>),
    StopContainer(Seq<char>),
    RemoveContainer(Seq<char>),
    SetSlotContainer(Slot, Option<Seq<char>>),
    StartRuntime {
        image: Seq<char>,
        command: Seq<char>,
        host_port: u16,
        container_port: u16,
        project_id: i64,
        slot_name: Seq<char>,
        output_path: Seq<char>,
    },
    Sleep(u64),
    SetActiveSlot(Slot),
    FinishBuild(BuildStatus),
    SetDeployedSlot(Seq<char>),
    Finish(Result<(), Seq<char>>),
}

/// The text of an optional string.
pub open spec fn opt_text(o: Option<String>) -> Option<Seq<char>> {
    match o {
        Some(s) => Some(s@),
        None => None,
    }
}

impl View for DeployAction {
    type V = ActionModel;

    open spec fn view(&self) -> ActionModel {
        match self {
            DeployAction::Log(l) => ActionModel::Log(l@),
            DeployAction::Emit(e) => ActionModel::Emit(event_model(*e)),
            DeployAction::CheckRunning(c) => ActionModel::CheckRunning(c@),
            DeployAction::StopContainer(c) => ActionModel::StopContainer(c@),
            DeployAction::RemoveContainer(c) => ActionModel::RemoveContainer(c@),
            DeployAction::SetSlotContainer(s, c) => ActionModel::SetSlotContainer(*s, opt_text(*c)),
            DeployAction::StartRuntime {
                image,
                command,
                host_port,
                container_port,
                project_id,
                slot_name,
                output_path,
            } => ActionModel::StartRuntime {
                image: image@,
                command: command@,
                host_port: *host_port,
                container_port: *container_port,
                project_id: *project_id,
                slot_name: slot_name@,
                output_path: output_path@,
            },
            DeployAction::Sleep(s) => ActionModel::Sleep(*s),
            DeployAction::SetActiveSlot(s) => ActionModel::SetActiveSlot(*s),
            DeployAction::FinishBuild(s) => ActionModel::FinishBuild(*s),
            DeployAction::SetDeployedSlot(s) => ActionModel::SetDeployedSlot(s@),
            DeployAction::Finish(r) => ActionModel::Finish(
                match r {
                    Ok(()) => Ok(()),
                    Err(e) => Err(e@),
                },
            ),
        }
    }
}

/// A deployment as plain values.
pub struct DeployModel {
    pub mode: DeployMode,
    pub project_id: i64,
    pub project_name: Seq<char>,
    pub build_id: i64,
    pub build_number: i64,
    pub active: Slot,
    pub target_port: i32,
    pub runtime_port: i32,
    pub image: Seq<char>,
    pub command: Seq<char>,
    pub output: Seq<char>,
    pub target_old: Option<Seq<char>>,
    pub active_old: Option<Seq<char>>,
    pub container: Seq<char>,
    pub attempt: u64,
    pub phase: DeployPhase,
}

impl View for BlueGreenDeployment {
    type V = DeployModel;

    open spec fn view(&self) -> DeployModel {
        DeployModel {
            mode: self.mode,
            project_id: self.project_id,
            project_name: self.project_name@,
            build_id: self.build_id,
            build_number: self.build_number,
            active: self.active,
            target_port: self.target_port,
            runtime_port: self.runtime_port,
            image: self.image@,
            command: self.command@,
            output: self.output@,
            target_old: opt_text(self.target_old),
            active_old: opt_text(self.active_old),
            container: self.container@,
            attempt: self.attempt,
            phase: self.phase,
        }
    }
}

/// The requests of a step, as plain values.
pub open spec fn actions_view(v: Seq<DeployAction>) -> Seq<ActionModel> {
    v.map_values(|a: DeployAction| a@)
}

// ---------------------------------------------------------------------------
// The transitions
// ---------------------------------------------------------------------------

/// The number of health check attempts.
pub open spec fn max_attempts() -> u64 {
    10
}

/// The slot deployed to: the one that is not active.
pub open spec fn target_of(m: DeployModel) -> Slot {
    other_slot(m.active)
}

/// The lowercase name of a slot, as containers are labelled.
pub open spec fn slot_name(s: Slot) -> Seq<char> {
    match s {
        Slot::Blue => "blue"@,
        Slot::Green => "green"@,
    }
}

/// The public address of a project.
pub open spec fn app_url(name: Seq<char>) -> Seq<char> {
    "https://app.yourdomain.com/"@ + name + "/"@
}

/// The address health checks name for a container.
pub open spec fn container_url(id: Seq<char>) -> Seq<char> {
    "container://"@ + id
}

/// A health check event of the deployment.
pub open spec fn health_event(m: DeployModel, attempt: u64, status: Seq<char>) -> ActionModel {
    ActionModel::Emit(
        EventModel::HealthCheck {
            project_id: m.project_id,
            build_id: m.build_id,
            attempt: attempt as usize,
            max_attempts: 10,
            status,
            url: container_url(m.container),
        },
    )
}

/// A deployment event of the deployment.
pub open spec fn deployment_event(m: DeployModel, status: Seq<char>, url: Seq<char>) -> ActionModel {
    ActionModel::Emit(
        EventModel::Deployment {
            project_id: m.project_id,
            project_name: m.project_name,
            build_id: m.build_id,
            status,
            slot: target_of(m),
            url,
        },
    )
}

/// A build status event of the deployment.
pub open spec fn build_event(m: DeployModel, status: BuildStatus) -> ActionModel {
    ActionModel::Emit(EventModel::BuildStatus { build_id: m.build_id, project_id: m.project_id, status })
}

/// The requests that open a deployment (none for a rollback).
pub open spec fn intro_actions(m: DeployModel) -> Seq<ActionModel> {
    if m.mode == DeployMode::Deploy {
        seq![
            ActionModel::Log("Starting deployment for build #"@ + int_text(m.build_number as int)),
            deployment_event(m, "deploying"@, "http://localhost:"@ + int_text(m.target_port as int)),
            ActionModel::Log(
                "Deploying to "@ + slot_text(target_of(m)) + " slot on port "@ + int_text(
                    (m.target_port as u16) as int,
                ),
            ),
        ]
    } else {
        seq![]
    }
}

/// The requests that start the new container.
pub open spec fn start_actions(m: DeployModel) -> Seq<ActionModel> {
    let start = ActionModel::StartRuntime {
        image: m.image,
        command: m.command,
        host_port: m.target_port as u16,
        container_port: m.runtime_port as u16,
        project_id: m.project_id,
        slot_name: slot_name(target_of(m)),
        output_path: m.output,
    };
    if m.mode == DeployMode::Deploy {
        seq![ActionModel::Log("Starting runtime container with image: "@ + m.image), start]
    } else {
        seq![start]
    }
}

/// The requests that clear the target slot's old container `old`; a
/// deployment first asks whether it runs, a rollback stops it outright.
pub open spec fn clear_target_actions(m: DeployModel, old: Seq<char>, running: bool) -> Seq<ActionModel> {
    let t = target_of(m);
    let first = if m.mode == DeployMode::Rollback {
        seq![ActionModel::StopContainer(old)]
    } else if running {
        seq![
            ActionModel::Log("Stopping old "@ + slot_text(t) + " container: "@ + old),
            ActionModel::StopContainer(old),
        ]
    } else {
        seq![
            ActionModel::Log(
                "Old "@ + slot_text(t) + " container "@ + old + " not found, skipping cleanup"@,
            ),
        ]
    };
    first + seq![ActionModel::RemoveContainer(old), ActionModel::SetSlotContainer(t, None)]
}

/// The context of a failure to start the container.
pub open spec fn start_failure(m: DeployModel) -> Seq<char> {
    if m.mode == DeployMode::Deploy {
        "Failed to start runtime container"@
    } else {
        "Failed to start rollback container"@
    }
}

/// The error of a health check that never saw the container run.
pub open spec fn health_timeout() -> Seq<char> {
    "Health check timed out after 10 attempts"@
}

/// The requests once the health check failed: a deployment reports it;
/// a rollback just ends with the error.
pub open spec fn failed_actions(m: DeployModel) -> Seq<ActionModel> {
    let e = health_timeout();
    if m.mode == DeployMode::Deploy {
        seq![
            ActionModel::Log("Health check failed: "@ + e),
            deployment_event(m, "Failed"@, app_url(m.project_name)),
            build_event(m, BuildStatus::Failed),
            ActionModel::Emit(
                EventModel::Error {
                    build_id: Some(m.build_id),
                    project_id: Some(m.project_id),
                    message: "Health check failed: "@ + e,
                },
            ),
            ActionModel::Log("Deployment failed: "@ + e),
            ActionModel::Finish(Err("Deployment failed: "@ + e)),
        ]
    } else {
        seq![ActionModel::Finish(Err(e))]
    }
}

/// The requests once the health check passed.
pub open spec fn passed_actions(m: DeployModel) -> Seq<ActionModel> {
    let t = target_of(m);
    if m.mode == DeployMode::Deploy {
        seq![
            ActionModel::Log("Health check passed, switching to "@ + slot_text(t) + " slot"@),
            ActionModel::SetActiveSlot(t),
        ]
    } else {
        seq![ActionModel::SetActiveSlot(t)]
    }
}

/// The requests that end a successful deployment.
pub open spec fn done_actions(m: DeployModel) -> Seq<ActionModel> {
    if m.mode == DeployMode::Deploy {
        seq![ActionModel::Log("Deployment completed successfully"@), ActionModel::Finish(Ok(()))]
    } else {
        seq![
            deployment_event(m, "Rollback Success"@, app_url(m.project_name)),
            ActionModel::Finish(Ok(())),
        ]
    }
}

/// The requests that clear the old active container, if there was one.
pub open spec fn clear_old_actions(m: DeployModel, old: Seq<char>) -> Seq<ActionModel> {
    let log = if m.mode == DeployMode::Deploy {
        seq![ActionModel::Log("Stopping old "@ + slot_text(m.active) + " container: "@ + old)]
    } else {
        seq![]
    };
    log + seq![
        ActionModel::StopContainer(old),
        ActionModel::RemoveContainer(old),
        ActionModel::SetSlotContainer(m.active, None),
    ]
}

/// `m` in another phase.
pub open spec fn in_phase(m: DeployModel, p: DeployPhase) -> DeployModel {
    DeployModel { phase: p, ..m }
}

/// The step once the switch is recorded: clear the old active container, or end.
pub open spec fn after_switch(m: DeployModel, pre: Seq<ActionModel>) -> (DeployModel, Seq<ActionModel>) {
    match m.active_old {
        Some(o) => (in_phase(m, DeployPhase::AwaitOldCleared), pre + clear_old_actions(m, o)),
        None => (in_phase(m, DeployPhase::Finished), pre + done_actions(m)),
    }
}

/// The answers a phase takes.
pub open spec fn accepts(phase: DeployPhase, ev: EventAnswer) -> bool {
    match phase {
        DeployPhase::Start => ev is Done,
        DeployPhase::AwaitOldRunning => ev is Running,
        DeployPhase::AwaitHealth => ev is Running,
        DeployPhase::AwaitStarted => ev is Started || ev is Failed,
        DeployPhase::Finished => true,
        _ => ev is Done || ev is Failed,
    }
}

/// One step: the next state and the requests to carry out, given the answer
/// to the previous step's last request.
pub open spec fn deploy_step(m: DeployModel, ev: EventAnswer) -> (DeployModel, Seq<ActionModel>) {
    let t = target_of(m);
    match m.phase {
        DeployPhase::Start => match m.target_old {
            Some(old) => if m.mode == DeployMode::Deploy {
                (in_phase(m, DeployPhase::AwaitOldRunning), intro_actions(m) + seq![ActionModel::CheckRunning(old)])
            } else {
                (in_phase(m, DeployPhase::AwaitTargetCleared), clear_target_actions(m, old, true))
            },
            None => (in_phase(m, DeployPhase::AwaitStarted), intro_actions(m) + start_actions(m)),
        },
        DeployPhase::AwaitOldRunning => match (ev, m.target_old) {
            (EventAnswer::Running(b), Some(old)) => (
                in_phase(m, DeployPhase::AwaitTargetCleared),
                clear_target_actions(m, old, b),
            ),
            _ => (in_phase(m, DeployPhase::AwaitTargetCleared), seq![]),
        },
        DeployPhase::AwaitTargetCleared => match ev {
            EventAnswer::Failed(e) => (in_phase(m, DeployPhase::Finished), seq![ActionModel::Finish(Err(e))]),
            _ => (in_phase(m, DeployPhase::AwaitStarted), start_actions(m)),
        },
        DeployPhase::AwaitStarted => match ev {
            EventAnswer::Started(id) => {
                let m2 = DeployModel { container: id, phase: DeployPhase::AwaitContainerSet, ..m };
                let log = if m.mode == DeployMode::Deploy {
                    seq![ActionModel::Log("Runtime container started: "@ + id)]
                } else {
                    seq![]
                };
                (m2, log + seq![ActionModel::SetSlotContainer(t, Some(id))])
            },
            EventAnswer::Failed(e) => (
                in_phase(m, DeployPhase::Finished),
                seq![ActionModel::Finish(Err(start_failure(m) + ": "@ + e))],
            ),
            _ => (m, seq![]),
        },
        DeployPhase::AwaitContainerSet => match ev {
            EventAnswer::Failed(e) => (in_phase(m, DeployPhase::Finished), seq![ActionModel::Finish(Err(e))]),
            _ => {
                let m2 = DeployModel { attempt: 1, phase: DeployPhase::AwaitHealth, ..m };
                (m2, seq![health_event(m2, 1, "Checking"@), ActionModel::CheckRunning(m.container)])
            },
        },
        DeployPhase::AwaitHealth => match ev {
            EventAnswer::Running(true) => (
                in_phase(m, DeployPhase::AwaitActiveSlot),
                seq![health_event(m, m.attempt, "Success"@)] + passed_actions(m),
            ),
            EventAnswer::Running(false) => if m.attempt < max_attempts() {
                let m2 = DeployModel { attempt: (m.attempt + 1) as u64, ..m };
                (
                    m2,
                    seq![
                        ActionModel::Sleep(2),
                        health_event(m2, m2.attempt, "Checking"@),
                        ActionModel::CheckRunning(m.container),
                    ],
                )
            } else {
                (
                    in_phase(m, DeployPhase::Finished),
                    seq![health_event(m, max_attempts(), "Failed"@)] + failed_actions(m),
                )
            },
            _ => (m, seq![]),
        },
        DeployPhase::AwaitActiveSlot => match ev {
            EventAnswer::Failed(e) => (in_phase(m, DeployPhase::Finished), seq![ActionModel::Finish(Err(e))]),
            _ => if m.mode == DeployMode::Deploy {
                (
                    in_phase(m, DeployPhase::AwaitBuildFinished),
                    seq![ActionModel::FinishBuild(BuildStatus::Success)],
                )
            } else {
                after_switch(m, seq![])
            },
        },
        DeployPhase::AwaitBuildFinished => match ev {
            EventAnswer::Failed(e) => (in_phase(m, DeployPhase::Finished), seq![ActionModel::Finish(Err(e))]),
            _ => (in_phase(m, DeployPhase::AwaitDeployedSlot), seq![ActionModel::SetDeployedSlot(slot_text(t))]),
        },
        DeployPhase::AwaitDeployedSlot => match ev {
            EventAnswer::Failed(e) => (in_phase(m, DeployPhase::Finished), seq![ActionModel::Finish(Err(e))]),
            _ => after_switch(
                m,
                seq![
                    deployment_event(m, "Success"@, app_url(m.project_name)),
                    build_event(m, BuildStatus::Success),
                ],
            ),
        },
        DeployPhase::AwaitOldCleared => match ev {
            EventAnswer::Failed(e) => (in_phase(m, DeployPhase::Finished), seq![ActionModel::Finish(Err(e))]),
            _ => (in_phase(m, DeployPhase::Finished), done_actions(m)),
        },
        DeployPhase::Finished => (m, seq![]),
    }
}


/// The shape every deployment keeps: the health check attempt under way is
/// one of the ten, and no other phase counts past ten.
pub open spec fn deploy_wf(m: DeployModel) -> bool {
    &&& m.attempt <= max_attempts()
    &&& m.phase == DeployPhase::AwaitHealth ==> 1 <= m.attempt
}

/// A deployment of `project` at the start, before any request.
pub open spec fn initial_model(
    mode: DeployMode,
    project: Project,
    build_id: i64,
    build_number: i64,
    output: Seq<char>,
) -> DeployModel {
    DeployModel {
        mode,
        project_id: project.id,
        project_name: project.name@,
        build_id,
        build_number,
        active: project.active_slot,
        target_port: slot_port(project, other_slot(project.active_slot)),
        runtime_port: project.runtime_port,
        image: project.runtime_image@,
        command: project.runtime_command@,
        output,
        target_old: opt_text(slot_container(project, other_slot(project.active_slot))),
        active_old: opt_text(slot_container(project, project.active_slot)),
        container: Seq::<char>::empty(),
        attempt: 0,
        phase: DeployPhase::Start,
    }
}

/// The build records a slot it was deployed to.
pub open spec fn names_deployed_slot(b: Build) -> bool {
    match b.deployed_slot {
        Some(s) => slot_of_text(s@) is Some,
        None => false,
    }
}

/// The error of a rollback to a build that was never deployed.
pub open spec fn never_deployed_error() -> Seq<char> {
    "Target build was never deployed"@
}

/// The error of a rollback to a build without output.
pub open spec fn no_output_error() -> Seq<char> {
    "Target build has no output path"@
}

/// The error of a rollback to a build whose output is gone from disk.
pub open spec fn output_missing_error(path: Seq<char>) -> Seq<char> {
    "Target build output not found: "@ + path
}

/// The error of a deployment of a build without a deploy log.
pub open spec fn no_deploy_log_error() -> Seq<char> {
    "Deploy log path not set"@
}

/// A `String` of the given characters.
fn text(v: Vec<char>) -> (r: String)
    ensures
        r@ == v@,
{
    from_chars(v.as_slice())
}

/// The text form of a slot, as characters.
fn slot_chars(s: Slot) -> (r: Vec<char>)
    ensures
        r@ == slot_text(s),
{
    match s {
        Slot::Blue => chars("Blue"),
        Slot::Green => chars("Green"),
    }
}

/// The decimal form of an `i64`, as characters.
fn num(n: i64) -> (r: Vec<char>)
    ensures
        r@ == int_text(n as int),
{
    i64_text(n)
}

impl BlueGreenDeployment {
    /// A deployment of `build`, whose output is at `output_path`, to the slot
    /// of `project` that is not active: refused before anything else when
    /// the build has no deploy log.
    pub fn deploy(project: &Project, build: &Build, output_path: &str) -> (r: Result<BlueGreenDeployment, String>)
        ensures
            build.deploy_log_path is None ==> (r matches Err(e) && e@ == no_deploy_log_error()),
            build.deploy_log_path is Some ==> (r matches Ok(d) && d@ == initial_model(
                DeployMode::Deploy,
                *project,
                build.id,
                build.build_number,
                output_path@,
            ) && deploy_wf(d@)),
    {
        if build.deploy_log_path.is_none() {
            return Err(text(chars("Deploy log path not set")));
        }
        Ok(Self::begin(DeployMode::Deploy, project, build.id, build.build_number, output_path))
    }

    /// A rollback of `project` to `target`, an earlier build, serving that
    /// build's output again: refused when that build names no slot it was
    /// deployed to, then when it has no output path, then when
    /// `output_exists` says nothing is at that path any more.
    pub fn rollback(project: &Project, target: &Build, output_exists: bool) -> (r: Result<BlueGreenDeployment, String>)
        ensures
            !names_deployed_slot(*target) ==> (r matches Err(e) && e@ == never_deployed_error()),
            names_deployed_slot(*target) && target.output_path is None ==> (r matches Err(e) && e@
                == no_output_error()),
            names_deployed_slot(*target) && target.output_path is Some && !output_exists ==> (r matches Err(e)
                && e@ == output_missing_error(target.output_path->0@)),
            names_deployed_slot(*target) && target.output_path is Some && output_exists ==> (r matches Ok(d) && d@
                == initial_model(
                DeployMode::Rollback,
                *project,
                target.id,
                target.build_number,
                target.output_path->0@,
            ) && deploy_wf(d@)),
    {
        if target.get_deployed_slot().is_none() {
            return Err(text(chars("Target build was never deployed")));
        }
        let output = match &target.output_path {
            Some(o) => o,
            None => return Err(text(chars("Target build has no output path"))),
        };
        if !output_exists {
            let mut m = chars("Target build output not found: ");
            append_str(&mut m, output.as_str());
            return Err(text(m));
        }
        Ok(Self::begin(DeployMode::Rollback, project, target.id, target.build_number, output.as_str()))
    }

    fn begin(mode: DeployMode, project: &Project, build_id: i64, build_number: i64, output: &str) -> (r: BlueGreenDeployment)
        ensures
            r@ == initial_model(mode, *project, build_id, build_number, output@),
            deploy_wf(r@),
    {
        let target = project.get_inactive_slot();
        let d = BlueGreenDeployment {
            mode,
            project_id: project.id,
            project_name: project.name.clone(),
            build_id,
            build_number,
            active: project.active_slot,
            target_port: project.get_slot_port(&target),
            runtime_port: project.runtime_port,
            image: project.runtime_image.clone(),
            command: project.runtime_command.clone(),
            output: output.to_owned(),
            target_old: match project.get_container_id(&target) {
                Some(c) => Some(c.clone()),
                None => None,
            },
            active_old: match project.get_container_id(&project.active_slot) {
                Some(c) => Some(c.clone()),
                None => None,
            },
            container: String::new(),
            attempt: 0,
            phase: DeployPhase::Start,
        };
        d
    }

    /// The slot deployed to.
    pub fn target_slot(&self) -> (r: Slot)
        ensures
            r == target_of(self@),
    {
        match self.active {
            Slot::Blue => Slot::Green,
            Slot::Green => Slot::Blue,
        }
    }

    /// Whether the deployment takes `ev` as the answer to its last request.
    pub fn accepts(&self, ev: &DeployEvent) -> (r: bool)
        ensures
            r == accepts(self@.phase, ev@),
    {
        match self.phase {
            DeployPhase::Start => matches!(ev, DeployEvent::Done),
            DeployPhase::AwaitOldRunning => matches!(ev, DeployEvent::Running(_)),
            DeployPhase::AwaitHealth => matches!(ev, DeployEvent::Running(_)),
            DeployPhase::AwaitStarted => matches!(ev, DeployEvent::Started(_)) || matches!(ev, DeployEvent::Failed(_)),
            DeployPhase::Finished => true,
            _ => matches!(ev, DeployEvent::Done) || matches!(ev, DeployEvent::Failed(_)),
        }
    }

    /// Whether the deployment is over.
    pub fn is_finished(&self) -> (r: bool)
        ensures
            r == (self@.phase == DeployPhase::Finished),
    {
        self.phase == DeployPhase::Finished
    }

    fn deployment_event(&self, status: &str, url: String) -> (r: DeployAction)
        ensures
            r@ == deployment_event(self@, status@, url@),
    {
        let e = Event::deployment(
            self.project_id,
            self.project_name.clone(),
            self.build_id,
            text(chars(status)),
            self.target_slot(),
            url,
        );
        DeployAction::Emit(e)
    }

    fn health_event(&self, attempt: u64, status: &str) -> (r: DeployAction)
        requires
            attempt <= 10,
        ensures
            r@ == health_event(self@, attempt, status@),
    {
        let mut u = chars("container://");
        append_str(&mut u, self.container.as_str());
        let e = Event::health_check(
            self.project_id,
            self.build_id,
            attempt as usize,
            10,
            text(chars(status)),
            text(u),
        );
        DeployAction::Emit(e)
    }

    fn app_url(&self) -> (r: String)
        ensures
            r@ == app_url(self@.project_name),
    {
        let mut u = chars("https://app.yourdomain.com/");
        append_str(&mut u, self.project_name.as_str());
        append_str(&mut u, "/");
        text(u)
    }

    fn intro(&self) -> (r: Vec<DeployAction>)
        ensures
            actions_view(r@) == intro_actions(self@),
    {
        let mut v: Vec<DeployAction> = Vec::new();
        if self.mode == DeployMode::Deploy {
            let mut l1 = chars("Starting deployment for build #");
            append_chars(&mut l1, num(self.build_number).as_slice());
            v.push(DeployAction::Log(text(l1)));
            let mut url = chars("http://localhost:");
            append_chars(&mut url, num(self.target_port as i64).as_slice());
            v.push(self.deployment_event("deploying", text(url)));
            let mut l2 = chars("Deploying to ");
            append_chars(&mut l2, slot_chars(self.target_slot()).as_slice());
            append_str(&mut l2, " slot on port ");
            let hp: u16 = self.target_port as u16;
            append_chars(&mut l2, num(hp as i64).as_slice());
            v.push(DeployAction::Log(text(l2)));
        }
        assert(actions_view(v@) =~= intro_actions(self@));
        v
    }

    fn start(&self) -> (r: Vec<DeployAction>)
        ensures
            actions_view(r@) == start_actions(self@),
    {
        let mut v: Vec<DeployAction> = Vec::new();
        if self.mode == DeployMode::Deploy {
            let mut l = chars("Starting runtime container with image: ");
            append_str(&mut l, self.image.as_str());
            v.push(DeployAction::Log(text(l)));
        }
        let name = match self.target_slot() {
            Slot::Blue => chars("blue"),
            Slot::Green => chars("green"),
        };
        v.push(
            DeployAction::StartRuntime {
                image: self.image.clone(),
                command: self.command.clone(),
                host_port: self.target_port as u16,
                container_port: self.runtime_port as u16,
                project_id: self.project_id,
                slot_name: text(name),
                output_path: self.output.clone(),
            },
        );
        assert(actions_view(v@) =~= start_actions(self@));
        v
    }

    fn clear_target(&self, old: &String, running: bool) -> (r: Vec<DeployAction>)
        ensures
            actions_view(r@) == clear_target_actions(self@, old@, running),
    {
        let mut v: Vec<DeployAction> = Vec::new();
        let t = self.target_slot();
        if self.mode == DeployMode::Rollback {
            v.push(DeployAction::StopContainer(old.clone()));
        } else if running {
            let mut l = chars("Stopping old ");
            append_chars(&mut l, slot_chars(t).as_slice());
            append_str(&mut l, " container: ");
            append_str(&mut l, old.as_str());
            v.push(DeployAction::Log(text(l)));
            v.push(DeployAction::StopContainer(old.clone()));
        } else {
            let mut l = chars("Old ");
            append_chars(&mut l, slot_chars(t).as_slice());
            append_str(&mut l, " container ");
            append_str(&mut l, old.as_str());
            append_str(&mut l, " not found, skipping cleanup");
            v.push(DeployAction::Log(text(l)));
        }
        v.push(DeployAction::RemoveContainer(old.clone()));
        v.push(DeployAction::SetSlotContainer(t, None));
        assert(actions_view(v@) =~= clear_target_actions(self@, old@, running));
        v
    }

    fn failed(&self) -> (r: Vec<DeployAction>)
        ensures
            actions_view(r@) == failed_actions(self@),
    {
        let mut v: Vec<DeployAction> = Vec::new();
        let e = "Health check timed out after 10 attempts";
        if self.mode == DeployMode::Deploy {
            let mut l1 = chars("Health check failed: ");
            append_str(&mut l1, e);
            v.push(DeployAction::Log(text(l1)));
            v.push(self.deployment_event("Failed", self.app_url()));
            v.push(DeployAction::Emit(Event::build_status(self.build_id, self.project_id, BuildStatus::Failed)));
            let mut m = chars("Health check failed: ");
            append_str(&mut m, e);
            v.push(DeployAction::Emit(Event::error(Some(self.build_id), Some(self.project_id), text(m))));
            let mut l2 = chars("Deployment failed: ");
            append_str(&mut l2, e);
            v.push(DeployAction::Log(text(l2)));
            let mut f = chars("Deployment failed: ");
            append_str(&mut f, e);
            v.push(DeployAction::Finish(Err(text(f))));
        } else {
            v.push(DeployAction::Finish(Err(text(chars(e)))));
        }
        assert(actions_view(v@) =~= failed_actions(self@));
        v
    }

    fn passed(&self) -> (r: Vec<DeployAction>)
        ensures
            actions_view(r@) == passed_actions(self@),
    {
        let mut v: Vec<DeployAction> = Vec::new();
        let t = self.target_slot();
        if self.mode == DeployMode::Deploy {
            let mut l = chars("Health check passed, switching to ");
            append_chars(&mut l, slot_chars(t).as_slice());
            append_str(&mut l, " slot");
            v.push(DeployAction::Log(text(l)));
        }
        v.push(DeployAction::SetActiveSlot(t));
        assert(actions_view(v@) =~= passed_actions(self@));
        v
    }

    fn done(&self) -> (r: Vec<DeployAction>)
        ensures
            actions_view(r@) == done_actions(self@),
    {
        let mut v: Vec<DeployAction> = Vec::new();
        if self.mode == DeployMode::Deploy {
            v.push(DeployAction::Log(text(chars("Deployment completed successfully"))));
        } else {
            v.push(self.deployment_event("Rollback Success", self.app_url()));
        }
        v.push(DeployAction::Finish(Ok(())));
        assert(actions_view(v@) =~= done_actions(self@));
        v
    }

    fn clear_old(&self, old: &String) -> (r: Vec<DeployAction>)
        ensures
            actions_view(r@) == clear_old_actions(self@, old@),
    {
        let mut v: Vec<DeployAction> = Vec::new();
        if self.mode == DeployMode::Deploy {
            let mut l = chars("Stopping old ");
            append_chars(&mut l, slot_chars(self.active).as_slice());
            append_str(&mut l, " container: ");
            append_str(&mut l, old.as_str());
            v.push(DeployAction::Log(text(l)));
        }
        v.push(DeployAction::StopContainer(old.clone()));
        v.push(DeployAction::RemoveContainer(old.clone()));
        v.push(DeployAction::SetSlotContainer(self.active, None));
        assert(actions_view(v@) =~= clear_old_actions(self@, old@));
        v
    }
}


/// `a` followed by `b`.
fn joined(a: Vec<DeployAction>, b: Vec<DeployAction>) -> (r: Vec<DeployAction>)
    ensures
        actions_view(r@) == actions_view(a@) + actions_view(b@),
{
    let mut a = a;
    let mut b = b;
    let ghost av = a@;
    let ghost bv = b@;
    a.append(&mut b);
    assert(actions_view(a@) =~= actions_view(av) + actions_view(bv));
    a
}

/// A single request.
fn one(a: DeployAction) -> (r: Vec<DeployAction>)
    ensures
        actions_view(r@) == seq![a@],
{
    let mut v: Vec<DeployAction> = Vec::new();
    v.push(a);
    assert(actions_view(v@) =~= seq![a@]);
    v
}

impl BlueGreenDeployment {
    /// Ends the deployment with an error.
    fn fail_with(&mut self, e: String) -> (r: Vec<DeployAction>)
        ensures
            final(self)@ == in_phase(old(self)@, DeployPhase::Finished),
            actions_view(r@) == seq![ActionModel::Finish(Err(e@))],
    {
        self.phase = DeployPhase::Finished;
        one(DeployAction::Finish(Err(e)))
    }

    /// Clears the old active container or ends, once the switch is recorded.
    fn after_switch(&mut self, pre: Vec<DeployAction>) -> (r: Vec<DeployAction>)
        ensures
            (final(self)@, actions_view(r@)) == after_switch(old(self)@, actions_view(pre@)),
    {
        match &self.active_old {
            Some(o) => {
                let c = self.clear_old(o);
                self.phase = DeployPhase::AwaitOldCleared;
                joined(pre, c)
            },
            None => {
                let d = self.done();
                self.phase = DeployPhase::Finished;
                joined(pre, d)
            },
        }
    }

    /// One step (see `deploy_step`): takes the answer to the last request
    /// of the previous step and gives the requests to carry out next.
    pub fn step(&mut self, ev: DeployEvent) -> (r: Vec<DeployAction>)
        requires
            deploy_wf(old(self)@),
            accepts(old(self)@.phase, ev@),
        ensures
            final(self)@ == deploy_step(old(self)@, ev@).0,
            actions_view(r@) == deploy_step(old(self)@, ev@).1,
            deploy_wf(final(self)@),
    {
        match self.phase {
            DeployPhase::Start => {
                let intro = self.intro();
                match &self.target_old {
                    Some(old) => {
                        if self.mode == DeployMode::Deploy {
                            let ask = one(DeployAction::CheckRunning(old.clone()));
                            self.phase = DeployPhase::AwaitOldRunning;
                            joined(intro, ask)
                        } else {
                            let c = self.clear_target(old, true);
                            self.phase = DeployPhase::AwaitTargetCleared;
                            c
                        }
                    },
                    None => {
                        let st = self.start();
                        self.phase = DeployPhase::AwaitStarted;
                        joined(intro, st)
                    },
                }
            },
            DeployPhase::AwaitOldRunning => {
                let running = match ev {
                    DeployEvent::Running(b) => b,
                    _ => false,
                };
                let r = match &self.target_old {
                    Some(old) => self.clear_target(old, running),
                    None => Vec::new(),
                };
                assert(actions_view(Seq::<DeployAction>::empty()) =~= Seq::<ActionModel>::empty());
                self.phase = DeployPhase::AwaitTargetCleared;
                r
            },
            DeployPhase::AwaitTargetCleared => match ev {
                DeployEvent::Failed(e) => self.fail_with(e),
                _ => {
                    let st = self.start();
                    self.phase = DeployPhase::AwaitStarted;
                    st
                },
            },
            DeployPhase::AwaitStarted => match ev {
                DeployEvent::Started(id) => {
                    let mut v: Vec<DeployAction> = Vec::new();
                    if self.mode == DeployMode::Deploy {
                        let mut l = chars("Runtime container started: ");
                        append_str(&mut l, id.as_str());
                        v.push(DeployAction::Log(text(l)));
                    }
                    let t = self.target_slot();
                    v.push(DeployAction::SetSlotContainer(t, Some(id.clone())));
                    self.container = id;
                    self.phase = DeployPhase::AwaitContainerSet;
                    v
                },
                DeployEvent::Failed(e) => {
                    let mut msg = if self.mode == DeployMode::Deploy {
                        chars("Failed to start runtime container")
                    } else {
                        chars("Failed to start rollback container")
                    };
                    append_str(&mut msg, ": ");
                    append_str(&mut msg, e.as_str());
                    self.fail_with(text(msg))
                },
                _ => Vec::new(),
            },
            DeployPhase::AwaitContainerSet => match ev {
                DeployEvent::Failed(e) => self.fail_with(e),
                _ => {
                    self.attempt = 1;
                    self.phase = DeployPhase::AwaitHealth;
                    let mut v: Vec<DeployAction> = Vec::new();
                    v.push(self.health_event(1, "Checking"));
                    v.push(DeployAction::CheckRunning(self.container.clone()));
                    v
                },
            },
            DeployPhase::AwaitHealth => match ev {
                DeployEvent::Running(true) => {
                    let first = one(self.health_event(self.attempt, "Success"));
                    let p = self.passed();
                    self.phase = DeployPhase::AwaitActiveSlot;
                    joined(first, p)
                },
                DeployEvent::Running(false) => {
                    if self.attempt < 10 {
                        self.attempt = self.attempt + 1;
                        let mut v: Vec<DeployAction> = Vec::new();
                        v.push(DeployAction::Sleep(2));
                        v.push(self.health_event(self.attempt, "Checking"));
                        v.push(DeployAction::CheckRunning(self.container.clone()));
                        v
                    } else {
                        let first = one(self.health_event(10, "Failed"));
                        let f = self.failed();
                        self.phase = DeployPhase::Finished;
                        joined(first, f)
                    }
                },
                _ => Vec::new(),
            },
            DeployPhase::AwaitActiveSlot => match ev {
                DeployEvent::Failed(e) => self.fail_with(e),
                _ => {
                    if self.mode == DeployMode::Deploy {
                        self.phase = DeployPhase::AwaitBuildFinished;
                        one(DeployAction::FinishBuild(BuildStatus::Success))
                    } else {
                        let empty: Vec<DeployAction> = Vec::new();
                        assert(actions_view(empty@) =~= Seq::<ActionModel>::empty());
                        self.after_switch(empty)
                    }
                },
            },
            DeployPhase::AwaitBuildFinished => match ev {
                DeployEvent::Failed(e) => self.fail_with(e),
                _ => {
                    self.phase = DeployPhase::AwaitDeployedSlot;
                    one(DeployAction::SetDeployedSlot(text(slot_chars(self.target_slot()))))
                },
            },
            DeployPhase::AwaitDeployedSlot => match ev {
                DeployEvent::Failed(e) => self.fail_with(e),
                _ => {
                    let mut pre: Vec<DeployAction> = Vec::new();
                    pre.push(self.deployment_event("Success", self.app_url()));
                    pre.push(DeployAction::Emit(Event::build_status(self.build_id, self.project_id, BuildStatus::Success)));
                    self.after_switch(pre)
                },
            },
            DeployPhase::AwaitOldCleared => match ev {
                DeployEvent::Failed(e) => self.fail_with(e),
                _ => {
                    let d = self.done();
                    self.phase = DeployPhase::Finished;
                    d
                },
            },
            DeployPhase::Finished => Vec::new(),
        }
    }
}


/// The requests ask to make slot `s` active.
pub open spec fn switches_to(acts: Seq<ActionModel>, s: Slot) -> bool {
    exists|i: int| 0 <= i < acts.len() && #[trigger] acts[i] == ActionModel::SetActiveSlot(s)
}

/// The requests ask to make some slot active.
pub open spec fn switches(acts: Seq<ActionModel>) -> bool {
    exists|i: int| 0 <= i < acts.len() && (#[trigger] acts[i]) is SetActiveSlot
}

/// Every step keeps the shape of a deployment: at most ten health checks.
pub proof fn law_step_keeps_shape(m: DeployModel, ev: EventAnswer)
    requires
        deploy_wf(m),
        accepts(m.phase, ev),
    ensures
        deploy_wf(deploy_step(m, ev).0),
{
}

/// A step never changes which slot was active at the start.
pub proof fn law_active_slot_remembered(m: DeployModel, ev: EventAnswer)
    ensures
        deploy_step(m, ev).0.active == m.active,
        deploy_step(m, ev).0.mode == m.mode,
{
}

/// The only slot a deployment ever makes active is the one that was not
/// active when it began; and it does so only in the step that hears that
/// the new container runs.
pub proof fn law_switch_only_to_target_after_health(m: DeployModel, ev: EventAnswer)
    requires
        switches(deploy_step(m, ev).1),
    ensures
        m.phase == DeployPhase::AwaitHealth,
        ev == EventAnswer::Running(true),
        switches_to(deploy_step(m, ev).1, other_slot(m.active)),
        forall|i: int|
            0 <= i < deploy_step(m, ev).1.len() ==> (deploy_step(m, ev).1[i] is SetActiveSlot
                ==> deploy_step(m, ev).1[i] == ActionModel::SetActiveSlot(other_slot(m.active))),
{
    let acts = deploy_step(m, ev).1;
    let i = choose|i: int| 0 <= i < acts.len() && (#[trigger] acts[i]) is SetActiveSlot;
    match m.phase {
        DeployPhase::AwaitHealth => {
            match ev {
                EventAnswer::Running(true) => {
                    let n = passed_actions(m).len();
                    assert(acts[1 + n - 1] == ActionModel::SetActiveSlot(other_slot(m.active)));
                },
                EventAnswer::Running(false) => {
                    if m.attempt < max_attempts() {
                        assert(false);
                    } else {
                        assert(!(acts[i] is SetActiveSlot));
                    }
                },
                _ => {},
            }
        },
        DeployPhase::Start => {
            assert(!(acts[i] is SetActiveSlot));
        },
        DeployPhase::AwaitOldRunning => {
            assert(!(acts[i] is SetActiveSlot));
        },
        DeployPhase::AwaitTargetCleared => {
            assert(!(acts[i] is SetActiveSlot));
        },
        DeployPhase::AwaitStarted => {
            assert(!(acts[i] is SetActiveSlot));
        },
        DeployPhase::AwaitContainerSet => {
            assert(!(acts[i] is SetActiveSlot));
        },
        DeployPhase::AwaitActiveSlot => {
            assert(!(acts[i] is SetActiveSlot));
        },
        DeployPhase::AwaitBuildFinished => {
            assert(!(acts[i] is SetActiveSlot));
        },
        DeployPhase::AwaitDeployedSlot => {
            assert(!(acts[i] is SetActiveSlot));
        },
        DeployPhase::AwaitOldCleared => {
            assert(!(acts[i] is SetActiveSlot));
        },
        DeployPhase::Finished => {},
    }
}

/// A container that never runs in ten checks ends the deployment with an
/// error, without switching slots.
pub proof fn law_failed_health_check_keeps_active(m: DeployModel)
    requires
        m.phase == DeployPhase::AwaitHealth,
        m.attempt == max_attempts(),
    ensures
        deploy_step(m, EventAnswer::Running(false)).0.phase == DeployPhase::Finished,
        !switches(deploy_step(m, EventAnswer::Running(false)).1),
        deploy_step(m, EventAnswer::Running(false)).1.last() is Finish,
        deploy_step(m, EventAnswer::Running(false)).1.last()->Finish_0 is Err,
{
    let acts = deploy_step(m, EventAnswer::Running(false)).1;
    if switches(acts) {
        let i = choose|i: int| 0 <= i < acts.len() && (#[trigger] acts[i]) is SetActiveSlot;
        assert(!(acts[i] is SetActiveSlot));
    }
}

/// A finished deployment asks for nothing more.
pub proof fn law_finished_is_final(m: DeployModel, ev: EventAnswer)
    requires
        m.phase == DeployPhase::Finished,
    ensures
        deploy_step(m, ev).0 == m,
        deploy_step(m, ev).1.len() == 0,
{
}

} // verus!
