//! Turns what a workflow declares into an execution plan: the runtime it sets
//! up, the meaningful commands it runs (classified), the kind of project it
//! builds and the port it serves on.
use vstd::prelude::*;
use crate::assoc::{assoc_get, pairs_view, get_value};
use crate::text::{
    chars, contains, contains_seq, contains_str, ends_with_seq, find, first_occurrence, lines,
    lines_seq, lowercase, starts_with_seq, starts_with_str, str_eq, to_lowercase, trim, trim_seq,
    views, from_chars, lit,
};
use crate::workflow::{
    opt_view, RunCommand, RunCommandModel, SetupAction, SetupActionModel, WorkflowInfo,
};

verus! {

/// The kind of project a workflow builds.
#[derive(Debug, Clone, Copy, PartialEq, Eq, Structural)]
pub enum ProjectType {
    NodeJsBackend,
    NodeJsFrontend,
    JavaSpringBoot,
    RustCargo,
    PythonDjango,
    GolangApi,
    Unknown,
}

/// What a command does.
#[derive(Debug, Clone, Copy, PartialEq, Eq, Structural)]
pub enum TaskType {
    /// Installs dependencies (`npm ci`, `pip install`, ...).
    InstallDependencies,
    /// Builds (`npm run build`, `go build`, ...).
    Build,
    /// Runs tests (`npm test`, `pytest`, ...).
    Test,
    /// Anything else.
    Other,
}

/// The runtime a workflow sets up.
#[derive(Debug, Clone)]
pub struct Runtime {
    /// The language (`node`, `java`, `python`, `go`).
    pub language: String,
    /// Its version, as the workflow gives it or a default.
    pub version: String,
    /// Extra environment variables.
    pub env: Vec<(String, String)>,
}

/// A command of the plan.
#[derive(Debug, Clone)]
pub struct Task {
    pub name: String,
    pub task_type: TaskType,
    pub command: String,
}

/// How to build and run a project, as read from its workflow.
#[derive(Debug, Clone)]
pub struct ExecutionPlan {
    pub project_type: ProjectType,
    pub runtime: Runtime,
    /// The meaningful commands, in workflow order.
    pub tasks: Vec<Task>,
    /// The port the workflow talks to, if it names one.
    pub detected_port: Option<u16>,
}

/// A runtime as plain values.
#[verifier::ext_equal]
pub struct RuntimeModel {
    pub language: Seq<char>,
    pub version: Seq<char>,
    pub env: Seq<(Seq<char>, Seq<char>)>,
}

/// A task as plain values.
#[verifier::ext_equal]
pub struct TaskModel {
    pub name: Seq<char>,
    pub task_type: TaskType,
    pub command: Seq<char>,
}

/// An execution plan as plain values.
#[verifier::ext_equal]
pub struct ExecutionPlanModel {
    pub project_type: ProjectType,
    pub runtime: RuntimeModel,
    pub tasks: Seq<TaskModel>,
    pub detected_port: Option<u16>,
}

impl View for Runtime {
    type V = RuntimeModel;

    open spec fn view(&self) -> RuntimeModel {
        RuntimeModel { language: self.language@, version: self.version@, env: pairs_view(self.env@) }
    }
}

impl View for Task {
    type V = TaskModel;

    open spec fn view(&self) -> TaskModel {
        TaskModel { name: self.name@, task_type: self.task_type, command: self.command@ }
    }
}

impl View for ExecutionPlan {
    type V = ExecutionPlanModel;

    open spec fn view(&self) -> ExecutionPlanModel {
        ExecutionPlanModel {
            project_type: self.project_type,
            runtime: self.runtime@,
            tasks: self.tasks@.map_values(|t: Task| t@),
            detected_port: self.detected_port,
        }
    }
}

// ---------------------------------------------------------------------------
// Runtime
// ---------------------------------------------------------------------------

/// `o`'s text, or `d` when there is none.
pub open spec fn or_default(o: Option<Seq<char>>, d: Seq<char>) -> Seq<char> {
    match o {
        Some(v) => v,
        None => d,
    }
}

/// A runtime with no extra environment.
pub open spec fn runtime_model(language: Seq<char>, version: Seq<char>) -> RuntimeModel {
    RuntimeModel { language, version, env: seq![] }
}

/// The runtime a setup action installs: node (`node-version`, default 20),
/// java (`java-version`, else `version`, default 17), python
/// (`python-version`, default 3.11), go (`go-version`, default 1.21); none for
/// any other action.
pub open spec fn runtime_of(a: SetupActionModel) -> Option<RuntimeModel> {
    let u = lowercase(a.uses);
    if contains_seq(u, "setup-node"@) {
        Some(runtime_model("node"@, or_default(assoc_get(a.with, "node-version"@), "20"@)))
    } else if contains_seq(u, "setup-java"@) {
        Some(
            runtime_model(
                "java"@,
                match assoc_get(a.with, "java-version"@) {
                    Some(v) => v,
                    None => or_default(assoc_get(a.with, "version"@), "17"@),
                },
            ),
        )
    } else if contains_seq(u, "setup-python"@) {
        Some(runtime_model("python"@, or_default(assoc_get(a.with, "python-version"@), "3.11"@)))
    } else if contains_seq(u, "setup-go"@) {
        Some(runtime_model("go"@, or_default(assoc_get(a.with, "go-version"@), "1.21"@)))
    } else {
        None
    }
}

/// The runtime of the first setup action that installs one.
pub open spec fn first_runtime(actions: Seq<SetupActionModel>) -> Option<RuntimeModel>
    decreases actions.len(),
{
    if actions.len() == 0 {
        None
    } else {
        match runtime_of(actions[0]) {
            Some(r) => Some(r),
            None => first_runtime(actions.drop_first()),
        }
    }
}

// ---------------------------------------------------------------------------
// Tasks
// ---------------------------------------------------------------------------

/// The kind of a lowercased command for a language.
pub open spec fn classify(command: Seq<char>, language: Seq<char>) -> TaskType {
    if language == "node"@ {
        if contains_seq(command, "npm ci"@) || contains_seq(command, "npm install"@)
            || contains_seq(command, "yarn install"@) {
            TaskType::InstallDependencies
        } else if contains_seq(command, "npm run build"@) || contains_seq(command, "npm build"@) {
            TaskType::Build
        } else if contains_seq(command, "npm test"@) || contains_seq(command, "npm run test"@) {
            TaskType::Test
        } else {
            TaskType::Other
        }
    } else if language == "java"@ {
        if contains_seq(command, "mvn package"@) || contains_seq(command, "gradle build"@) {
            TaskType::Build
        } else if contains_seq(command, "mvn test"@) || contains_seq(command, "gradle test"@) {
            TaskType::Test
        } else {
            TaskType::Other
        }
    } else if language == "python"@ {
        if contains_seq(command, "pip install"@) {
            TaskType::InstallDependencies
        } else if contains_seq(command, "pytest"@) || contains_seq(command, "python -m unittest"@) {
            TaskType::Test
        } else {
            TaskType::Other
        }
    } else if language == "go"@ {
        if contains_seq(command, "go build"@) {
            TaskType::Build
        } else if contains_seq(command, "go test"@) {
            TaskType::Test
        } else {
            TaskType::Other
        }
    } else {
        TaskType::Other
    }
}

/// A trimmed line that does real work: not empty, not an `echo`, a `sleep`,
/// a local health probe with curl, or a comment.
pub open spec fn meaningful_line(t: Seq<char>) -> bool {
    t.len() > 0 && !starts_with_seq(t, "echo "@) && !starts_with_seq(t, "sleep "@)
        && !contains_seq(t, "curl -f http://localhost"@) && !starts_with_seq(t, "#"@)
}

/// Some line of the command does real work.
pub open spec fn is_meaningful(command: Seq<char>) -> bool {
    exists|i: int|
        0 <= i < lines_seq(command).len() && #[trigger] meaningful_line(
            trim_seq(lines_seq(command)[i]),
        )
}

/// The task a run step becomes, if its command does real work.
pub open spec fn task_of(c: RunCommandModel, language: Seq<char>) -> Option<TaskModel> {
    let command = trim_seq(c.command);
    let lower = lowercase(command);
    if is_meaningful(lower) {
        Some(
            TaskModel {
                name: or_default(c.step_name, "Run command"@),
                task_type: classify(lower, language),
                command,
            },
        )
    } else {
        None
    }
}

/// The tasks of the run steps, in order.
pub open spec fn tasks_of(cmds: Seq<RunCommandModel>, language: Seq<char>) -> Seq<TaskModel>
    decreases cmds.len(),
{
    if cmds.len() == 0 {
        seq![]
    } else {
        let prev = tasks_of(cmds.drop_last(), language);
        match task_of(cmds.last(), language) {
            Some(t) => prev.push(t),
            None => prev,
        }
    }
}

// ---------------------------------------------------------------------------
// Project type
// ---------------------------------------------------------------------------

/// Some task starts a node script.
pub open spec fn runs_node_script(tasks: Seq<TaskModel>) -> bool {
    exists|i: int|
        0 <= i < tasks.len() && contains_seq(#[trigger] tasks[i].command, "node "@)
            && contains_seq(tasks[i].command, ".js"@)
}

/// Some build task uses a frontend bundler.
pub open spec fn has_frontend_build(tasks: Seq<TaskModel>) -> bool {
    exists|i: int|
        0 <= i < tasks.len() && #[trigger] tasks[i].task_type == TaskType::Build && (contains_seq(
            tasks[i].command,
            "vite"@,
        ) || contains_seq(tasks[i].command, "webpack"@) || contains_seq(
            tasks[i].command,
            "react-scripts"@,
        ))
}

/// Some task builds.
pub open spec fn has_build_task(tasks: Seq<TaskModel>) -> bool {
    exists|i: int| 0 <= i < tasks.len() && #[trigger] tasks[i].task_type == TaskType::Build
}

/// Some task mentions a `dist/` or `build/` output folder.
pub open spec fn has_dist_output(tasks: Seq<TaskModel>) -> bool {
    exists|i: int|
        0 <= i < tasks.len() && (contains_seq(#[trigger] tasks[i].command, "dist/"@)
            || contains_seq(tasks[i].command, "build/"@))
}

/// The kind of a Node.js project: a backend when it starts a node script and
/// bundles no frontend, a frontend when it bundles one or builds at all, and
/// a backend otherwise.
pub open spec fn nodejs_type(tasks: Seq<TaskModel>) -> ProjectType {
    if runs_node_script(tasks) && !has_frontend_build(tasks) {
        ProjectType::NodeJsBackend
    } else if has_frontend_build(tasks) {
        ProjectType::NodeJsFrontend
    } else if has_build_task(tasks) && has_dist_output(tasks) {
        ProjectType::NodeJsFrontend
    } else if has_build_task(tasks) {
        ProjectType::NodeJsFrontend
    } else {
        ProjectType::NodeJsBackend
    }
}

/// The kind of project for a language and its tasks.
pub open spec fn project_type_of(language: Seq<char>, tasks: Seq<TaskModel>) -> ProjectType {
    if language == "node"@ {
        nodejs_type(tasks)
    } else if language == "java"@ {
        ProjectType::JavaSpringBoot
    } else if language == "python"@ {
        ProjectType::PythonDjango
    } else if language == "go"@ {
        ProjectType::GolangApi
    } else {
        ProjectType::Unknown
    }
}

// ---------------------------------------------------------------------------
// Ports
// ---------------------------------------------------------------------------

/// An ASCII decimal digit.
pub open spec fn is_digit(c: char) -> bool {
    '0' <= c && c <= '9'
}

/// The number of digits `s` starts with.
pub open spec fn digit_run(s: Seq<char>) -> nat
    decreases s.len(),
{
    if s.len() > 0 && is_digit(s[0]) {
        1 + digit_run(s.drop_first())
    } else {
        0
    }
}

/// The value of a string of decimal digits.
pub open spec fn decimal_value(d: Seq<char>) -> nat
    decreases d.len(),
{
    if d.len() == 0 {
        0
    } else {
        decimal_value(d.drop_last()) * 10 + ((d.last() as u32) - 48) as nat
    }
}

/// The port number `s` starts with: its leading digits, read as a number
/// that fits in 16 bits and lies in 1024..=65535.
pub open spec fn port_number(s: Seq<char>) -> Option<u16> {
    let d = s.take(digit_run(s) as int);
    if d.len() > 0 && 1024 <= decimal_value(d) <= 65535 {
        Some(decimal_value(d) as u16)
    } else {
        None
    }
}

/// The port right after the first occurrence of `prefix` in `text`.
pub open spec fn port_after(text: Seq<char>, prefix: Seq<char>) -> Option<u16> {
    if contains_seq(text, prefix) {
        let i = choose|i: int| first_occurrence(text, prefix, i);
        port_number(text.skip(i + prefix.len()))
    } else {
        None
    }
}

/// The first of two optional ports that is there.
pub open spec fn or_port(a: Option<u16>, b: Option<u16>) -> Option<u16> {
    match a {
        Some(p) => Some(p),
        None => b,
    }
}

/// The port a lowercased command names: after `localhost:`, `0.0.0.0:`,
/// `127.0.0.1:`, `port=`, `--port `, `--port=` or `port `, tried in that order.
pub open spec fn port_in_text(l: Seq<char>) -> Option<u16> {
    or_port(
        port_after(l, "localhost:"@),
        or_port(
            port_after(l, "0.0.0.0:"@),
            or_port(
                port_after(l, "127.0.0.1:"@),
                or_port(
                    port_after(l, "port="@),
                    or_port(
                        port_after(l, "--port "@),
                        or_port(port_after(l, "--port="@), port_after(l, "port "@)),
                    ),
                ),
            ),
        ),
    )
}

/// The port of the first run step that names one.
pub open spec fn port_of_commands(cmds: Seq<RunCommandModel>) -> Option<u16>
    decreases cmds.len(),
{
    if cmds.len() == 0 {
        None
    } else {
        or_port(port_in_text(lowercase(cmds[0].command)), port_of_commands(cmds.drop_first()))
    }
}

// ---------------------------------------------------------------------------
// The plan
// ---------------------------------------------------------------------------

/// The plan for a workflow whose first runtime is `rt`.
pub open spec fn plan_of(cmds: Seq<RunCommandModel>, rt: RuntimeModel) -> ExecutionPlanModel {
    let tasks = tasks_of(cmds, rt.language);
    ExecutionPlanModel {
        project_type: project_type_of(rt.language, tasks),
        runtime: rt,
        tasks,
        detected_port: port_of_commands(cmds),
    }
}

/// The error given for a workflow that sets up no runtime.
pub open spec fn no_runtime_error() -> Seq<char> {
    "워크플로우에서 런타임 환경을 찾을 수 없습니다 (setup-node, setup-java 등이 필요합니다)"@
}


/// Interprets workflows into execution plans.
pub struct WorkflowInterpreter;

/// The first occurrence of `p` in `s` is the one `choose` picks.
proof fn lemma_first_occurrence_unique(s: Seq<char>, p: Seq<char>, i: int)
    requires
        first_occurrence(s, p, i),
    ensures
        (choose|j: int| first_occurrence(s, p, j)) == i,
{
    let j = choose|j: int| first_occurrence(s, p, j);
    assert(first_occurrence(s, p, j));
}

/// The value of digits grows by one more digit.
proof fn lemma_decimal_push(d: Seq<char>, c: char)
    ensures
        decimal_value(d.push(c)) == decimal_value(d) * 10 + ((c as u32) - 48) as nat,
{
    assert(d.push(c).drop_last() =~= d);
}

impl WorkflowInterpreter {
    /// The port number that `text` starts with (see `port_number`).
    pub fn parse_port_number(text: &[char]) -> (r: Option<u16>)
        ensures
            r == port_number(text@),
    {
        let n = text.len();
        let mut i: usize = 0;
        let mut val: u32 = 0;
        assert(text@.skip(0) =~= text@);
        assert(text@.take(0) =~= Seq::<char>::empty());
        while i < n && '0' <= text[i] && text[i] <= '9'
            invariant
                n == text@.len(),
                i <= n,
                digit_run(text@) == i + digit_run(text@.skip(i as int)),
                decimal_value(text@.take(i as int)) <= 65535 ==> val == decimal_value(
                    text@.take(i as int),
                ),
                decimal_value(text@.take(i as int)) > 65535 ==> val == 65536,
            decreases n - i,
        {
            let c = text[i];
            proof {
                assert(text@.skip(i as int)[0] == c);
                assert(text@.skip(i as int).drop_first() =~= text@.skip(i + 1));
                assert(text@.take(i + 1) =~= text@.take(i as int).push(c));
                lemma_decimal_push(text@.take(i as int), c);
            }
            let d: u32 = (c as u32) - 48;
            if val <= 65535 {
                let next = val * 10 + d;
                if next > 65535 {
                    val = 65536;
                } else {
                    val = next;
                }
            }
            i = i + 1;
        }
        proof {
            if i < n {
                assert(text@.skip(i as int)[0] == text@[i as int]);
            }
            assert(digit_run(text@.skip(i as int)) == 0);
        }
        if i > 0 && 1024 <= val && val <= 65535 {
            Some(val as u16)
        } else {
            None
        }
    }

    /// The port right after the first occurrence of `prefix` in `text`.
    pub fn extract_port_from_pattern(text: &[char], prefix: &str) -> (r: Option<u16>)
        ensures
            r == port_after(text@, prefix@),
    {
        let p = chars(prefix);
        let tl = text.len();
        match find(text, p.as_slice()) {
            Some(idx) => {
                proof {
                    lemma_first_occurrence_unique(text@, p@, idx as int);
                    assert(idx + p@.len() <= text@.len());
                }
                let start = idx + p.len();
                let after = crate::text::slice_range(text, start, tl);
                assert(after@ =~= text@.skip(start as int));
                Self::parse_port_number(after.as_slice())
            },
            None => None,
        }
    }

    /// The port a lowercased command names (see `port_in_text`).
    fn port_in_command(l: &[char]) -> (r: Option<u16>)
        ensures
            r == port_in_text(l@),
    {
        let a = Self::extract_port_from_pattern(l, "localhost:");
        if a.is_some() {
            return a;
        }
        let b = Self::extract_port_from_pattern(l, "0.0.0.0:");
        if b.is_some() {
            return b;
        }
        let c = Self::extract_port_from_pattern(l, "127.0.0.1:");
        if c.is_some() {
            return c;
        }
        let d = Self::extract_port_from_pattern(l, "port=");
        if d.is_some() {
            return d;
        }
        let e = Self::extract_port_from_pattern(l, "--port ");
        if e.is_some() {
            return e;
        }
        let f = Self::extract_port_from_pattern(l, "--port=");
        if f.is_some() {
            return f;
        }
        Self::extract_port_from_pattern(l, "port ")
    }

    /// The port of the first run step that names one (see `port_of_commands`).
    pub fn detect_port(info: &WorkflowInfo) -> (r: Option<u16>)
        ensures
            r == port_of_commands(info@.run_commands),
    {
        let ghost cmds = info@.run_commands;
        let mut i: usize = 0;
        assert(cmds.skip(0) =~= cmds);
        while i < info.run_commands.len()
            invariant
                i <= info.run_commands@.len(),
                cmds == info@.run_commands,
                cmds.len() == info.run_commands@.len(),
                port_of_commands(cmds) == port_of_commands(cmds.skip(i as int)),
            decreases info.run_commands@.len() - i,
        {
            let lower = to_lowercase(chars(info.run_commands[i].command.as_str()).as_slice());
            assert(cmds.skip(i as int)[0] == info.run_commands@[i as int]@);
            assert(cmds.skip(i as int).drop_first() =~= cmds.skip(i + 1));
            let p = Self::port_in_command(lower.as_slice());
            if p.is_some() {
                return p;
            }
            i = i + 1;
        }
        None
    }
}


/// An owned copy of `s`.
fn owned(s: &str) -> (r: String)
    ensures
        r@ == s@,
{
    s.to_owned()
}

/// A copy of the value found, or `d`.
fn value_or(o: Option<&String>, d: &str) -> (r: String)
    ensures
        r@ == match o {
            Some(v) => v@,
            None => d@,
        },
{
    match o {
        Some(v) => v.clone(),
        None => owned(d),
    }
}

/// A runtime with no extra environment.
fn make_runtime(language: &str, version: String) -> (r: Runtime)
    ensures
        r@ =~~= runtime_model(language@, version@),
{
    let r = Runtime { language: owned(language), version, env: Vec::new() };
    assert(pairs_view(r.env@) =~= seq![]);
    r
}

impl WorkflowInterpreter {
    /// The runtime a setup action installs (see `runtime_of`).
    pub fn parse_setup_action(action: &SetupAction) -> (r: Option<Runtime>)
        ensures
            match r {
                Some(rt) => runtime_of(action@) == Some(rt@),
                None => runtime_of(action@) is None,
            },
    {
        let u = to_lowercase(chars(action.uses.as_str()).as_slice());
        if contains_str(u.as_slice(), "setup-node") {
            let v = value_or(get_value(&action.with, "node-version"), "20");
            return Some(make_runtime("node", v));
        }
        if contains_str(u.as_slice(), "setup-java") {
            let v = match get_value(&action.with, "java-version") {
                Some(v) => v.clone(),
                None => value_or(get_value(&action.with, "version"), "17"),
            };
            return Some(make_runtime("java", v));
        }
        if contains_str(u.as_slice(), "setup-python") {
            let v = value_or(get_value(&action.with, "python-version"), "3.11");
            return Some(make_runtime("python", v));
        }
        if contains_str(u.as_slice(), "setup-go") {
            let v = value_or(get_value(&action.with, "go-version"), "1.21");
            return Some(make_runtime("go", v));
        }
        None
    }

    /// The runtime of the first setup action that installs one.
    pub fn detect_runtime(info: &WorkflowInfo) -> (r: Result<Runtime, String>)
        ensures
            match first_runtime(info@.setup_actions) {
                Some(rt) => r matches Ok(x) && x@ == rt,
                None => r matches Err(e) && e@ == no_runtime_error(),
            },
    {
        let ghost acts = info@.setup_actions;
        let mut i: usize = 0;
        assert(acts.skip(0) =~= acts);
        while i < info.setup_actions.len()
            invariant
                i <= info.setup_actions@.len(),
                acts == info@.setup_actions,
                acts.len() == info.setup_actions@.len(),
                first_runtime(acts) == first_runtime(acts.skip(i as int)),
            decreases info.setup_actions@.len() - i,
        {
            assert(acts.skip(i as int)[0] == info.setup_actions@[i as int]@);
            assert(acts.skip(i as int).drop_first() =~= acts.skip(i + 1));
            match Self::parse_setup_action(&info.setup_actions[i]) {
                Some(rt) => {
                    return Ok(rt);
                },
                None => {},
            }
            i = i + 1;
        }
        Err(owned("워크플로우에서 런타임 환경을 찾을 수 없습니다 (setup-node, setup-java 등이 필요합니다)"))
    }

    /// The kind of a lowercased command for a language (see `classify`).
    pub fn classify_task(command: &[char], language: &str) -> (r: TaskType)
        ensures
            r == classify(command@, language@),
    {
        if str_eq(language, "node") {
            if contains_str(command, "npm ci") || contains_str(command, "npm install")
                || contains_str(command, "yarn install") {
                TaskType::InstallDependencies
            } else if contains_str(command, "npm run build") || contains_str(command, "npm build") {
                TaskType::Build
            } else if contains_str(command, "npm test") || contains_str(command, "npm run test") {
                TaskType::Test
            } else {
                TaskType::Other
            }
        } else if str_eq(language, "java") {
            if contains_str(command, "mvn package") || contains_str(command, "gradle build") {
                TaskType::Build
            } else if contains_str(command, "mvn test") || contains_str(command, "gradle test") {
                TaskType::Test
            } else {
                TaskType::Other
            }
        } else if str_eq(language, "python") {
            if contains_str(command, "pip install") {
                TaskType::InstallDependencies
            } else if contains_str(command, "pytest") || contains_str(command, "python -m unittest") {
                TaskType::Test
            } else {
                TaskType::Other
            }
        } else if str_eq(language, "go") {
            if contains_str(command, "go build") {
                TaskType::Build
            } else if contains_str(command, "go test") {
                TaskType::Test
            } else {
                TaskType::Other
            }
        } else {
            TaskType::Other
        }
    }

    /// Whether a trimmed line does real work (see `meaningful_line`).
    fn meaningful(t: &[char]) -> (r: bool)
        ensures
            r == meaningful_line(t@),
    {
        t.len() > 0 && !starts_with_str(t, "echo ") && !starts_with_str(t, "sleep ")
            && !contains_str(t, "curl -f http://localhost") && !starts_with_str(t, "#")
    }

    /// Whether some line of the command does real work.
    pub fn is_meaningful_command(command: &[char]) -> (r: bool)
        ensures
            r == is_meaningful(command@),
    {
        let ls = lines(command);
        let ghost lv = lines_seq(command@);
        let mut i: usize = 0;
        while i < ls.len()
            invariant
                i <= ls@.len(),
                views(ls@) == lv,
                lv == lines_seq(command@),
                forall|j: int| 0 <= j < i ==> !#[trigger] meaningful_line(trim_seq(lv[j])),
            decreases ls@.len() - i,
        {
            let t = trim(ls[i].as_slice());
            assert(lv[i as int] == ls@[i as int]@);
            if Self::meaningful(t.as_slice()) {
                return true;
            }
            i = i + 1;
        }
        false
    }

    /// The task a run step becomes, if its command does real work.
    pub fn parse_command(cmd: &RunCommand, runtime: &Runtime) -> (r: Option<Task>)
        ensures
            match r {
                Some(t) => task_of(cmd@, runtime@.language) == Some(t@),
                None => task_of(cmd@, runtime@.language) is None,
            },
    {
        let command = trim(chars(cmd.command.as_str()).as_slice());
        let lower = to_lowercase(command.as_slice());
        let task_type = Self::classify_task(lower.as_slice(), runtime.language.as_str());
        if Self::is_meaningful_command(lower.as_slice()) {
            let name = match &cmd.step_name {
                Some(n) => n.clone(),
                None => owned("Run command"),
            };
            Some(Task { name, task_type, command: from_chars(command.as_slice()) })
        } else {
            None
        }
    }

    /// The tasks of the run steps, in order (see `tasks_of`).
    pub fn analyze_tasks(info: &WorkflowInfo, runtime: &Runtime) -> (r: Vec<Task>)
        ensures
            r@.map_values(|t: Task| t@) == tasks_of(info@.run_commands, runtime@.language),
    {
        let ghost cmds = info@.run_commands;
        let mut tasks: Vec<Task> = Vec::new();
        let mut i: usize = 0;
        assert(cmds.take(0) =~= Seq::<RunCommandModel>::empty());
        assert(tasks@.map_values(|t: Task| t@) =~= Seq::<TaskModel>::empty());
        while i < info.run_commands.len()
            invariant
                i <= info.run_commands@.len(),
                cmds == info@.run_commands,
                cmds.len() == info.run_commands@.len(),
                tasks@.map_values(|t: Task| t@) == tasks_of(cmds.take(i as int), runtime@.language),
            decreases info.run_commands@.len() - i,
        {
            assert(cmds.take(i + 1).drop_last() =~= cmds.take(i as int));
            assert(cmds.take(i + 1).last() == info.run_commands@[i as int]@);
            let ghost before = tasks@.map_values(|t: Task| t@);
            match Self::parse_command(&info.run_commands[i], runtime) {
                Some(t) => {
                    let ghost tm = t@;
                    tasks.push(t);
                    assert(tasks@.map_values(|t: Task| t@) =~= before.push(tm));
                },
                None => {},
            }
            i = i + 1;
        }
        assert(cmds.take(cmds.len() as int) =~= cmds);
        tasks
    }
}


impl WorkflowInterpreter {
    /// The kind of a Node.js project from its tasks (see `nodejs_type`).
    pub fn infer_nodejs_type(tasks: &[Task]) -> (r: ProjectType)
        ensures
            r == nodejs_type(tasks@.map_values(|t: Task| t@)),
    {
        let ghost ts = tasks@.map_values(|t: Task| t@);
        let mut node_exec = false;
        let mut frontend = false;
        let mut build = false;
        let mut dist = false;
        let mut i: usize = 0;
        while i < tasks.len()
            invariant
                i <= tasks@.len(),
                ts == tasks@.map_values(|t: Task| t@),
                node_exec <==> exists|j: int|
                    0 <= j < i && contains_seq(#[trigger] ts[j].command, "node "@) && contains_seq(
                        ts[j].command,
                        ".js"@,
                    ),
                frontend <==> exists|j: int|
                    0 <= j < i && #[trigger] ts[j].task_type == TaskType::Build && (contains_seq(
                        ts[j].command,
                        "vite"@,
                    ) || contains_seq(ts[j].command, "webpack"@) || contains_seq(
                        ts[j].command,
                        "react-scripts"@,
                    )),
                build <==> exists|j: int| 0 <= j < i && #[trigger] ts[j].task_type == TaskType::Build,
                dist <==> exists|j: int|
                    0 <= j < i && (contains_seq(#[trigger] ts[j].command, "dist/"@) || contains_seq(
                        ts[j].command,
                        "build/"@,
                    )),
            decreases tasks@.len() - i,
        {
            let c = chars(tasks[i].command.as_str());
            let tt = tasks[i].task_type;
            assert(ts[i as int].command == c@);
            assert(ts[i as int].task_type == tt);
            if contains_str(c.as_slice(), "node ") && contains_str(c.as_slice(), ".js") {
                node_exec = true;
            }
            if tt == TaskType::Build && (contains_str(c.as_slice(), "vite") || contains_str(
                c.as_slice(),
                "webpack",
            ) || contains_str(c.as_slice(), "react-scripts")) {
                frontend = true;
            }
            if tt == TaskType::Build {
                build = true;
            }
            if contains_str(c.as_slice(), "dist/") || contains_str(c.as_slice(), "build/") {
                dist = true;
            }
            i = i + 1;
        }
        if node_exec && !frontend {
            ProjectType::NodeJsBackend
        } else if frontend {
            ProjectType::NodeJsFrontend
        } else if build && dist {
            ProjectType::NodeJsFrontend
        } else if build {
            ProjectType::NodeJsFrontend
        } else {
            ProjectType::NodeJsBackend
        }
    }

    /// The kind of project for a runtime and its tasks (see `project_type_of`).
    pub fn infer_project_type(runtime: &Runtime, tasks: &[Task]) -> (r: ProjectType)
        ensures
            r == project_type_of(runtime@.language, tasks@.map_values(|t: Task| t@)),
    {
        let lang = runtime.language.as_str();
        if str_eq(lang, "node") {
            Self::infer_nodejs_type(tasks)
        } else if str_eq(lang, "java") {
            ProjectType::JavaSpringBoot
        } else if str_eq(lang, "python") {
            ProjectType::PythonDjango
        } else if str_eq(lang, "go") {
            ProjectType::GolangApi
        } else {
            ProjectType::Unknown
        }
    }

    /// The execution plan of a workflow: its first runtime, its meaningful
    /// commands classified for that runtime, the project kind they imply and
    /// the port they name. A workflow that sets up no runtime is refused.
    pub fn interpret(info: &WorkflowInfo) -> (r: Result<ExecutionPlan, String>)
        ensures
            match first_runtime(info@.setup_actions) {
                Some(rt) => r matches Ok(p) && p@ =~~= plan_of(info@.run_commands, rt),
                None => r matches Err(e) && e@ == no_runtime_error(),
            },
    {
        let runtime = match Self::detect_runtime(info) {
            Ok(rt) => rt,
            Err(e) => return Err(e),
        };
        let tasks = Self::analyze_tasks(info, &runtime);
        let project_type = Self::infer_project_type(&runtime, tasks.as_slice());
        let detected_port = Self::detect_port(info);
        Ok(ExecutionPlan { project_type, runtime, tasks, detected_port })
    }
}

/// A Node.js project whose tasks build something and never start a node
/// script is a frontend: it is served as static files, not run as a server.
pub proof fn law_built_node_project_is_frontend(tasks: Seq<TaskModel>, b: int)
    requires
        0 <= b < tasks.len(),
        tasks[b].task_type == TaskType::Build,
        forall|i: int|
            0 <= i < tasks.len() ==> !(contains_seq(#[trigger] tasks[i].command, "node "@) && contains_seq(
                tasks[i].command,
                ".js"@,
            )),
    ensures
        project_type_of("node"@, tasks) == ProjectType::NodeJsFrontend,
{
    assert(has_build_task(tasks));
}

/// A Node.js project that bundles a frontend (a build task running vite,
/// webpack or react-scripts) is a frontend, whatever else it runs.
pub proof fn law_bundled_node_project_is_frontend(tasks: Seq<TaskModel>, b: int)
    requires
        0 <= b < tasks.len(),
        tasks[b].task_type == TaskType::Build,
        contains_seq(tasks[b].command, "vite"@) || contains_seq(tasks[b].command, "webpack"@) || contains_seq(
            tasks[b].command,
            "react-scripts"@,
        ),
    ensures
        project_type_of("node"@, tasks) == ProjectType::NodeJsFrontend,
{
    assert(has_frontend_build(tasks));
}

} // verus!
