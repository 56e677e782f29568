//! Events that the agent publishes, and which subscribers receive each one.
use vstd::prelude::*;
use crate::models::{BuildStatus, Slot};
use crate::text::{chars, from_chars, i64_text, append_chars, append_str, int_text, str_eq};

verus! {

/// Something that happened to a build, a deployment or a container.
#[derive(Debug, Clone)]
pub enum Event {
    BuildStatus { build_id: i64, project_id: i64, status: BuildStatus, timestamp: String },
    Log { build_id: i64, line: String, line_number: usize, timestamp: String },
    Deployment {
        project_id: i64,
        project_name: String,
        build_id: i64,
        status: String,
        slot: Slot,
        url: String,
        timestamp: String,
    },
    HealthCheck {
        project_id: i64,
        build_id: i64,
        attempt: usize,
        max_attempts: usize,
        status: String,
        url: String,
        timestamp: String,
    },
    ContainerStatus {
        project_id: i64,
        container_id: String,
        slot: Slot,
        status: String,
        timestamp: String,
    },
    StandaloneContainerStatus {
        container_db_id: i64,
        container_name: String,
        docker_id: Option<String>,
        status: String,
        timestamp: String,
    },
    ContainerLog { container_db_id: i64, container_name: String, line: String, timestamp: String },
    Error { build_id: Option<i64>, project_id: Option<i64>, message: String, timestamp: String },
}

impl Event {
    /// The current local time in RFC 3339 form.
    ///
    /// Trusted: `chrono::Local::now` and `DateTime::to_rfc3339`. The result
    /// depends on the clock, so nothing is stated of it.
    #[verifier::external_body]
    pub fn now() -> String {
        chrono::Local::now().to_rfc3339()
    }

    /// A build's status changed.
    pub fn build_status(build_id: i64, project_id: i64, status: BuildStatus) -> (e: Event)
        ensures
            e matches Event::BuildStatus { build_id: b, project_id: p, status: s, .. }
                && b == build_id && p == project_id && s == status,
    {
        Event::BuildStatus { build_id, project_id, status, timestamp: Self::now() }
    }

    /// A build wrote a line of output.
    pub fn log(build_id: i64, line: String, line_number: usize) -> (e: Event)
        ensures
            e matches Event::Log { build_id: b, line: l, line_number: n, .. }
                && b == build_id && l == line && n == line_number,
    {
        Event::Log { build_id, line, line_number, timestamp: Self::now() }
    }

    /// A deployment made progress.
    pub fn deployment(
        project_id: i64,
        project_name: String,
        build_id: i64,
        status: String,
        slot: Slot,
        url: String,
    ) -> (e: Event)
        ensures
            e matches Event::Deployment {
                project_id: p,
                project_name: n,
                build_id: b,
                status: s,
                slot: sl,
                url: u,
                ..
            } && p == project_id && n == project_name && b == build_id && s == status && sl
                == slot && u == url,
    {
        Event::Deployment {
            project_id,
            project_name,
            build_id,
            status,
            slot,
            url,
            timestamp: Self::now(),
        }
    }

    /// A health check attempt was made.
    pub fn health_check(
        project_id: i64,
        build_id: i64,
        attempt: usize,
        max_attempts: usize,
        status: String,
        url: String,
    ) -> (e: Event)
        ensures
            e matches Event::HealthCheck {
                project_id: p,
                build_id: b,
                attempt: a,
                max_attempts: m,
                status: s,
                url: u,
                ..
            } && p == project_id && b == build_id && a == attempt && m == max_attempts && s
                == status && u == url,
    {
        Event::HealthCheck {
            project_id,
            build_id,
            attempt,
            max_attempts,
            status,
            url,
            timestamp: Self::now(),
        }
    }

    /// A project container changed state.
    pub fn container_status(project_id: i64, container_id: String, slot: Slot, status: String) -> (e: Event)
        ensures
            e matches Event::ContainerStatus { project_id: p, container_id: c, slot: sl, status: s, .. }
                && p == project_id && c == container_id && sl == slot && s == status,
    {
        Event::ContainerStatus { project_id, container_id, slot, status, timestamp: Self::now() }
    }

    /// A standalone container changed state.
    pub fn standalone_container_status(
        container_db_id: i64,
        container_name: String,
        docker_id: Option<String>,
        status: String,
    ) -> (e: Event)
        ensures
            e matches Event::StandaloneContainerStatus {
                container_db_id: i,
                container_name: n,
                docker_id: d,
                status: s,
                ..
            } && i == container_db_id && n == container_name && d == docker_id && s == status,
    {
        Event::StandaloneContainerStatus {
            container_db_id,
            container_name,
            docker_id,
            status,
            timestamp: Self::now(),
        }
    }

    /// A standalone container wrote a line of output.
    pub fn container_log(container_db_id: i64, container_name: String, line: String) -> (e: Event)
        ensures
            e matches Event::ContainerLog { container_db_id: i, container_name: n, line: l, .. }
                && i == container_db_id && n == container_name && l == line,
    {
        Event::ContainerLog { container_db_id, container_name, line, timestamp: Self::now() }
    }

    /// Something failed.
    pub fn error(build_id: Option<i64>, project_id: Option<i64>, message: String) -> (e: Event)
        ensures
            e matches Event::Error { build_id: b, project_id: p, message: m, .. } && b == build_id
                && p == project_id && m == message,
    {
        Event::Error { build_id, project_id, message, timestamp: Self::now() }
    }
}

/// The name of an event's kind.
pub open spec fn event_kind_text(e: Event) -> Seq<char> {
    match e {
        Event::BuildStatus { .. } => "BuildStatus"@,
        Event::Log { .. } => "Log"@,
        Event::Deployment { .. } => "Deployment"@,
        Event::HealthCheck { .. } => "HealthCheck"@,
        Event::ContainerStatus { .. } => "ContainerStatus"@,
        Event::StandaloneContainerStatus { .. } => "StandaloneContainerStatus"@,
        Event::ContainerLog { .. } => "ContainerLog"@,
        Event::Error { .. } => "Error"@,
    }
}

/// The name of an event's kind, as it is logged when the event is published.
pub fn event_kind(e: &Event) -> (r: String)
    ensures
        r@ == event_kind_text(*e),
{
    let v = match e {
        Event::BuildStatus { .. } => chars("BuildStatus"),
        Event::Log { .. } => chars("Log"),
        Event::Deployment { .. } => chars("Deployment"),
        Event::HealthCheck { .. } => chars("HealthCheck"),
        Event::ContainerStatus { .. } => chars("ContainerStatus"),
        Event::StandaloneContainerStatus { .. } => chars("StandaloneContainerStatus"),
        Event::ContainerLog { .. } => chars("ContainerLog"),
        Event::Error { .. } => chars("Error"),
    };
    from_chars(v.as_slice())
}

/// What a WebSocket client listens to.
#[derive(Debug, Clone, Copy, PartialEq, Eq, Structural)]
pub enum WsSubscription {
    Build(i64),
    Project(i64),
    Global,
}

/// The key under which subscribers of `s` are kept.
pub open spec fn subscription_key_text(s: WsSubscription) -> Seq<char> {
    match s {
        WsSubscription::Build(id) => "build:"@ + int_text(id as int),
        WsSubscription::Project(id) => "project:"@ + int_text(id as int),
        WsSubscription::Global => "global"@,
    }
}

/// The key under which subscribers of `s` are kept (`build:<id>`,
/// `project:<id>` or `global`).
pub fn subscription_key(s: &WsSubscription) -> (r: String)
    ensures
        r@ == subscription_key_text(*s),
{
    match s {
        WsSubscription::Build(id) => {
            let mut v = chars("build:");
            let d = i64_text(*id);
            append_chars(&mut v, d.as_slice());
            from_chars(v.as_slice())
        },
        WsSubscription::Project(id) => {
            let mut v = chars("project:");
            let d = i64_text(*id);
            append_chars(&mut v, d.as_slice());
            from_chars(v.as_slice())
        },
        WsSubscription::Global => from_chars(chars("global").as_slice()),
    }
}

/// The subscriptions that receive `e`, in the order they are sent to:
/// every event goes to `Global`; build-related events also go to their build,
/// and project-related events to their project.
pub open spec fn event_targets(e: Event) -> Seq<WsSubscription> {
    match e {
        Event::BuildStatus { build_id, project_id, .. } => seq![
            WsSubscription::Global,
            WsSubscription::Build(build_id),
            WsSubscription::Project(project_id),
        ],
        Event::Log { build_id, .. } => seq![WsSubscription::Global, WsSubscription::Build(build_id)],
        Event::Deployment { project_id, build_id, .. } => seq![
            WsSubscription::Global,
            WsSubscription::Build(build_id),
            WsSubscription::Project(project_id),
        ],
        Event::HealthCheck { project_id, build_id, .. } => seq![
            WsSubscription::Global,
            WsSubscription::Build(build_id),
            WsSubscription::Project(project_id),
        ],
        Event::ContainerStatus { project_id, .. } => seq![
            WsSubscription::Global,
            WsSubscription::Project(project_id),
        ],
        Event::StandaloneContainerStatus { .. } => seq![WsSubscription::Global],
        Event::ContainerLog { .. } => seq![WsSubscription::Global],
        Event::Error { build_id, project_id, .. } => {
            let with_build = match build_id {
                Some(b) => seq![WsSubscription::Global, WsSubscription::Build(b)],
                None => seq![WsSubscription::Global],
            };
            match project_id {
                Some(p) => with_build.push(WsSubscription::Project(p)),
                None => with_build,
            }
        },
    }
}

/// The subscriptions that receive `e`.
pub fn event_subscriptions(e: &Event) -> (r: Vec<WsSubscription>)
    ensures
        r@ == event_targets(*e),
{
    let mut r: Vec<WsSubscription> = Vec::new();
    r.push(WsSubscription::Global);
    match e {
        Event::BuildStatus { build_id, project_id, .. } => {
            r.push(WsSubscription::Build(*build_id));
            r.push(WsSubscription::Project(*project_id));
        },
        Event::Log { build_id, .. } => {
            r.push(WsSubscription::Build(*build_id));
        },
        Event::Deployment { project_id, build_id, .. } => {
            r.push(WsSubscription::Build(*build_id));
            r.push(WsSubscription::Project(*project_id));
        },
        Event::HealthCheck { project_id, build_id, .. } => {
            r.push(WsSubscription::Build(*build_id));
            r.push(WsSubscription::Project(*project_id));
        },
        Event::ContainerStatus { project_id, .. } => {
            r.push(WsSubscription::Project(*project_id));
        },
        Event::StandaloneContainerStatus { .. } => {},
        Event::ContainerLog { .. } => {},
        Event::Error { build_id, project_id, .. } => {
            if let Some(b) = build_id {
                r.push(WsSubscription::Build(*b));
            }
            if let Some(p) = project_id {
                r.push(WsSubscription::Project(*p));
            }
        },
    }
    assert(r@ =~= event_targets(*e));
    r
}

/// Every event reaches the global subscribers, first.
pub proof fn law_every_event_reaches_global(e: Event)
    ensures
        event_targets(e).len() >= 1,
        event_targets(e)[0] == WsSubscription::Global,
{
}

/// A build-scoped event reaches the subscribers of its build.
pub proof fn law_build_events_reach_build(e: Event)
    ensures
        (e matches Event::BuildStatus { build_id, .. } ==> event_targets(e).contains(
            WsSubscription::Build(build_id),
        )),
        (e matches Event::Log { build_id, .. } ==> event_targets(e).contains(
            WsSubscription::Build(build_id),
        )),
{
    match e {
        Event::BuildStatus { build_id, .. } => {
            assert(event_targets(e)[1] == WsSubscription::Build(build_id));
        },
        Event::Log { build_id, .. } => {
            assert(event_targets(e)[1] == WsSubscription::Build(build_id));
        },
        _ => {},
    }
}

/// The subscription a client asks for with `target` and `id`: a build or a
/// project (which need the id), or everything; anything else is refused
/// with the reason.
pub open spec fn requested_subscription(target: Seq<char>, id: Option<i64>) -> Result<WsSubscription, Seq<char>> {
    if target == "build"@ {
        match id {
            Some(b) => Ok(WsSubscription::Build(b)),
            None => Err("Missing build_id"@),
        }
    } else if target == "project"@ {
        match id {
            Some(p) => Ok(WsSubscription::Project(p)),
            None => Err("Missing project_id"@),
        }
    } else if target == "global"@ {
        Ok(WsSubscription::Global)
    } else {
        Err("Unknown target: "@ + target)
    }
}

/// The subscription a client asks for (see `requested_subscription`).
pub fn subscription_of(target: &str, id: Option<i64>) -> (r: Result<WsSubscription, String>)
    ensures
        match requested_subscription(target@, id) {
            Ok(s) => r == Ok::<WsSubscription, String>(s),
            Err(e) => r matches Err(x) && x@ == e,
        },
{
    if str_eq(target, "build") {
        match id {
            Some(b) => Ok(WsSubscription::Build(b)),
            None => Err("Missing build_id".to_owned()),
        }
    } else if str_eq(target, "project") {
        match id {
            Some(p) => Ok(WsSubscription::Project(p)),
            None => Err("Missing project_id".to_owned()),
        }
    } else if str_eq(target, "global") {
        Ok(WsSubscription::Global)
    } else {
        let mut m = chars("Unknown target: ");
        append_str(&mut m, target);
        Err(from_chars(m.as_slice()))
    }
}

} // verus!
