//! The values the HTTP interface exchanges, and its small decisions: the
//! sign-in callback checks, session gating, Discord webhook updates,
//! terminal messages and container operation reports.
use vstd::prelude::*;
use crate::models::{ContainerOperationResult, Slot, slot_text, or_else};
use crate::notify::DiscordWebhookConfig;
use crate::text::{chars, from_chars, str_eq, append_str, append_chars, i64_text, int_text};

verus! {

// ---------------------------------------------------------------------------
// Sign-in
// ---------------------------------------------------------------------------

/// The query of the OAuth callback.
#[derive(Debug, Clone)]
pub struct CallbackQuery {
    pub code: String,
    pub state: String,
}

/// The cookie that holds the session id.
pub const SESSION_COOKIE: &'static str = "easycicd_session";
/// The cookie that holds the PKCE verifier during sign-in.
pub const PKCE_COOKIE: &'static str = "easycicd_pkce";
/// The cookie that holds the CSRF state during sign-in.
pub const CSRF_COOKIE: &'static str = "easycicd_csrf";

/// Why a sign-in failed.
#[derive(Debug, Clone, Copy, PartialEq, Eq, Structural)]
pub enum SignInFailure {
    MissingCsrf,
    InvalidCsrf,
    MissingPkce,
    TokenExchangeFailed,
    UserInfoFailed,
    NotAllowed,
    DatabaseError,
    SessionError,
}

/// The page a failed sign-in is sent to.
pub open spec fn sign_in_failure_path(f: SignInFailure) -> Seq<char> {
    match f {
        SignInFailure::MissingCsrf => "/login?error=missing_csrf"@,
        SignInFailure::InvalidCsrf => "/login?error=invalid_csrf"@,
        SignInFailure::MissingPkce => "/login?error=missing_pkce"@,
        SignInFailure::TokenExchangeFailed => "/login?error=token_exchange_failed"@,
        SignInFailure::UserInfoFailed => "/login?error=user_info_failed"@,
        SignInFailure::NotAllowed => "/login?error=not_allowed"@,
        SignInFailure::DatabaseError => "/login?error=database_error"@,
        SignInFailure::SessionError => "/login?error=session_error"@,
    }
}

impl SignInFailure {
    /// The page the failed sign-in is sent to.
    pub fn redirect_path(&self) -> (r: String)
        ensures
            r@ == sign_in_failure_path(*self),
    {
        let s = match self {
            SignInFailure::MissingCsrf => "/login?error=missing_csrf",
            SignInFailure::InvalidCsrf => "/login?error=invalid_csrf",
            SignInFailure::MissingPkce => "/login?error=missing_pkce",
            SignInFailure::TokenExchangeFailed => "/login?error=token_exchange_failed",
            SignInFailure::UserInfoFailed => "/login?error=user_info_failed",
            SignInFailure::NotAllowed => "/login?error=not_allowed",
            SignInFailure::DatabaseError => "/login?error=database_error",
            SignInFailure::SessionError => "/login?error=session_error",
        };
        s.to_owned()
    }
}

/// The checks of a sign-in callback before any exchange: the CSRF cookie
/// must be there and equal the returned state, and the PKCE cookie must be
/// there; its value is what the exchange sends.
pub fn check_callback(stored_csrf: Option<&str>, state: &str, pkce: Option<&str>) -> (r: Result<String, SignInFailure>)
    ensures
        stored_csrf is None ==> r == Err::<String, SignInFailure>(SignInFailure::MissingCsrf),
        stored_csrf matches Some(c) && c@ != state@ ==> r == Err::<String, SignInFailure>(
            SignInFailure::InvalidCsrf,
        ),
        stored_csrf matches Some(c) && c@ == state@ ==> match pkce {
            Some(p) => r matches Ok(v) && v@ == p@,
            None => r == Err::<String, SignInFailure>(SignInFailure::MissingPkce),
        },
{
    let c = match stored_csrf {
        Some(c) => c,
        None => return Err(SignInFailure::MissingCsrf),
    };
    if !str_eq(c, state) {
        return Err(SignInFailure::InvalidCsrf);
    }
    match pkce {
        Some(p) => Ok(p.to_owned()),
        None => Err(SignInFailure::MissingPkce),
    }
}

/// Why a request to the API is refused.
#[derive(Debug, Clone, Copy, PartialEq, Eq, Structural)]
pub enum AuthRejection {
    /// No session cookie.
    AuthenticationRequired,
    /// The session is unknown or expired.
    SessionExpired,
}

impl AuthRejection {
    /// The error text of the refusal.
    pub fn error(&self) -> (r: String)
        ensures
            r@ == match *self {
                AuthRejection::AuthenticationRequired => "Authentication required"@,
                AuthRejection::SessionExpired => "Session expired or invalid"@,
            },
    {
        match self {
            AuthRejection::AuthenticationRequired => "Authentication required".to_owned(),
            AuthRejection::SessionExpired => "Session expired or invalid".to_owned(),
        }
    }

    /// The error code of the refusal.
    pub fn code(&self) -> (r: String)
        ensures
            r@ == match *self {
                AuthRejection::AuthenticationRequired => "UNAUTHORIZED"@,
                AuthRejection::SessionExpired => "SESSION_EXPIRED"@,
            },
    {
        match self {
            AuthRejection::AuthenticationRequired => "UNAUTHORIZED".to_owned(),
            AuthRejection::SessionExpired => "SESSION_EXPIRED".to_owned(),
        }
    }
}

/// Whether a request passes: it must carry a session cookie, and the
/// session must be found.
pub fn session_gate(has_cookie: bool, session_found: bool) -> (r: Result<(), AuthRejection>)
    ensures
        !has_cookie ==> r == Err::<(), AuthRejection>(AuthRejection::AuthenticationRequired),
        has_cookie && !session_found ==> r == Err::<(), AuthRejection>(AuthRejection::SessionExpired),
        has_cookie && session_found ==> r is Ok,
{
    if !has_cookie {
        Err(AuthRejection::AuthenticationRequired)
    } else if !session_found {
        Err(AuthRejection::SessionExpired)
    } else {
        Ok(())
    }
}

// ---------------------------------------------------------------------------
// Discord webhooks
// ---------------------------------------------------------------------------

/// A new Discord webhook.
#[derive(Debug, Clone)]
pub struct CreateDiscordWebhook {
    pub label: String,
    pub webhook_url: String,
    pub enabled: bool,
    pub notify_on_build_start: bool,
    pub notify_on_build_success: bool,
    pub notify_on_build_failure: bool,
    pub notify_on_deploy_start: bool,
    pub notify_on_deploy_success: bool,
    pub notify_on_deploy_failure: bool,
    pub mention_user_ids: Vec<String>,
    pub mention_role_ids: Vec<String>,
    pub mention_on_failure_only: bool,
}

/// A change to a Discord webhook: each field given replaces the current one.
#[derive(Debug, Clone)]
pub struct UpdateDiscordWebhook {
    pub label: Option<String>,
    pub webhook_url: Option<String>,
    pub enabled: Option<bool>,
    pub notify_on_build_start: Option<bool>,
    pub notify_on_build_success: Option<bool>,
    pub notify_on_build_failure: Option<bool>,
    pub notify_on_deploy_start: Option<bool>,
    pub notify_on_deploy_success: Option<bool>,
    pub notify_on_deploy_failure: Option<bool>,
    pub mention_user_ids: Option<Vec<String>>,
    pub mention_role_ids: Option<Vec<String>>,
    pub mention_on_failure_only: Option<bool>,
}


impl UpdateDiscordWebhook {
    /// The webhook after the change: each given field replaces the
    /// current one, the others stay.
    pub fn merge(self, current: DiscordWebhookConfig) -> (r: DiscordWebhookConfig)
        ensures
            r.id == current.id,
            r.label == or_else(self.label, current.label),
            r.webhook_url == or_else(self.webhook_url, current.webhook_url),
            r.enabled == or_else(self.enabled, current.enabled),
            r.notify_on_build_start == or_else(self.notify_on_build_start, current.notify_on_build_start),
            r.notify_on_build_success == or_else(self.notify_on_build_success, current.notify_on_build_success),
            r.notify_on_build_failure == or_else(self.notify_on_build_failure, current.notify_on_build_failure),
            r.notify_on_deploy_start == or_else(self.notify_on_deploy_start, current.notify_on_deploy_start),
            r.notify_on_deploy_success == or_else(self.notify_on_deploy_success, current.notify_on_deploy_success),
            r.notify_on_deploy_failure == or_else(self.notify_on_deploy_failure, current.notify_on_deploy_failure),
            r.mention_user_ids == or_else(self.mention_user_ids, current.mention_user_ids),
            r.mention_role_ids == or_else(self.mention_role_ids, current.mention_role_ids),
            r.mention_on_failure_only == or_else(self.mention_on_failure_only, current.mention_on_failure_only),
    {
        DiscordWebhookConfig {
            id: current.id,
            label: match self.label {
                Some(v) => v,
                None => current.label,
            },
            webhook_url: match self.webhook_url {
                Some(v) => v,
                None => current.webhook_url,
            },
            enabled: match self.enabled {
                Some(v) => v,
                None => current.enabled,
            },
            notify_on_build_start: match self.notify_on_build_start {
                Some(v) => v,
                None => current.notify_on_build_start,
            },
            notify_on_build_success: match self.notify_on_build_success {
                Some(v) => v,
                None => current.notify_on_build_success,
            },
            notify_on_build_failure: match self.notify_on_build_failure {
                Some(v) => v,
                None => current.notify_on_build_failure,
            },
            notify_on_deploy_start: match self.notify_on_deploy_start {
                Some(v) => v,
                None => current.notify_on_deploy_start,
            },
            notify_on_deploy_success: match self.notify_on_deploy_success {
                Some(v) => v,
                None => current.notify_on_deploy_success,
            },
            notify_on_deploy_failure: match self.notify_on_deploy_failure {
                Some(v) => v,
                None => current.notify_on_deploy_failure,
            },
            mention_user_ids: match self.mention_user_ids {
                Some(v) => v,
                None => current.mention_user_ids,
            },
            mention_role_ids: match self.mention_role_ids {
                Some(v) => v,
                None => current.mention_role_ids,
            },
            mention_on_failure_only: match self.mention_on_failure_only {
                Some(v) => v,
                None => current.mention_on_failure_only,
            },
        }
    }
}

// ---------------------------------------------------------------------------
// Terminal
// ---------------------------------------------------------------------------

/// A message from a terminal client.
#[derive(Debug, Clone)]
pub enum TerminalInput {
    /// Keystrokes.
    Input { data: String },
    /// A new window size.
    Resize { rows: u16, cols: u16 },
}

/// A message to a terminal client.
#[derive(Debug, Clone)]
pub enum TerminalOutput {
    /// Output of the shell.
    Output { data: String },
    Error { message: String },
    /// The shell is attached.
    Connected,
}

// ---------------------------------------------------------------------------
// Container operations
// ---------------------------------------------------------------------------

/// An operation on a project's containers.
#[derive(Debug, Clone, Copy, PartialEq, Eq, Structural)]
pub enum ContainerOp {
    Start,
    Stop,
    Restart,
}

/// The status reported once an operation succeeded.
pub open spec fn op_done_text(op: ContainerOp) -> Seq<char> {
    match op {
        ContainerOp::Start => "started"@,
        ContainerOp::Stop => "stopped"@,
        ContainerOp::Restart => "restarted"@,
    }
}

/// The report of an operation on one slot's container: its status
/// (`started`, `stopped`, `restarted`, or `error` with the error).
pub fn operation_result(slot: Slot, op: ContainerOp, container: String, error: Option<String>) -> (r: ContainerOperationResult)
    ensures
        r.slot@ == slot_text(slot),
        r.container == container,
        match error {
            Some(e) => r.status@ == "error"@ && r.error == Some(e),
            None => r.status@ == op_done_text(op) && r.error is None,
        },
{
    let status = match &error {
        Some(_) => "error",
        None => match op {
            ContainerOp::Start => "started",
            ContainerOp::Stop => "stopped",
            ContainerOp::Restart => "restarted",
        },
    };
    ContainerOperationResult { slot: slot.label(), status: status.to_owned(), container, error }
}

/// The container of a project's slot.
pub fn project_container_name(project_id: i64, slot: Slot) -> (r: String)
    ensures
        r@ == crate::proxy::project_container_name(project_id, slot),
{
    let mut v = chars("project-");
    append_chars(&mut v, i64_text(project_id).as_slice());
    match slot {
        Slot::Blue => append_str(&mut v, "-blue"),
        Slot::Green => append_str(&mut v, "-green"),
    }
    from_chars(v.as_slice())
}

/// How to run a build container.
#[derive(Debug, Clone)]
pub struct BuildContainerConfig {
    pub image: String,
    pub command: String,
    /// Paths on the agent's file system.
    pub workspace_path: String,
    pub output_path: String,
    pub cache_path: String,
    pub cache_type: String,
    pub working_directory: Option<String>,
}

/// What a build container produced.
#[derive(Debug, Clone)]
pub struct BuildOutput {
    pub container_id: String,
    pub logs: Vec<String>,
    pub exit_code: i64,
}

/// How to run a runtime container.
#[derive(Debug, Clone)]
pub struct RuntimeContainerConfig {
    pub image: String,
    pub command: String,
    /// A path on the agent's file system.
    pub output_path: String,
    pub host_port: u16,
    pub container_port: u16,
    pub project_id: i64,
    pub slot: String,
}

// ---------------------------------------------------------------------------
// GitHub queries
// ---------------------------------------------------------------------------

/// A new personal access token.
#[derive(Debug, Clone)]
pub struct CreatePatRequest {
    pub label: String,
    pub token: String,
}

/// A change to a personal access token.
#[derive(Debug, Clone)]
pub struct UpdatePatRequest {
    pub label: Option<String>,
    pub token: Option<String>,
}

/// The global personal access token.
#[derive(Debug, Clone)]
pub struct SetPATRequest {
    pub github_pat: String,
}

/// Which token a GitHub request uses.
#[derive(Debug, Clone)]
pub struct PatIdQuery {
    pub pat_id: Option<i64>,
}

/// The branches of a repository.
#[derive(Debug, Clone)]
pub struct BranchesQuery {
    pub owner: String,
    pub repo: String,
    pub pat_id: Option<i64>,
}

/// The folders of a repository at a commit.
#[derive(Debug, Clone)]
pub struct FoldersQuery {
    pub owner: String,
    pub repo: String,
    pub sha: String,
    pub pat_id: Option<i64>,
}

/// How to build a repository's branch.
#[derive(Debug, Clone)]
pub struct DetectProjectQuery {
    pub owner: String,
    pub repo: String,
    pub branch: String,
    pub path_filter: Option<String>,
    pub workflow_path: Option<String>,
    pub pat_id: Option<i64>,
}

} // verus!
