//! Turns an execution plan into the build and runtime configuration of a
//! project: the images, the build command, the runtime command, the health
//! check path and the port.
use vstd::prelude::*;
use crate::interpreter::{
    ExecutionPlan, ExecutionPlanModel, ProjectType, Task, TaskModel, TaskType, first_runtime,
    plan_of, runtime_of, port_number, port_of_commands, port_after, port_in_text, or_port,
};
use crate::workflow::{RunCommandModel, SetupActionModel};
use crate::text::{
    append_chars, append_str, chars, contains_seq, contains_str, from_chars, join, join_seq, lines,
    lines_seq, split_whitespace, starts_with_seq, starts_with_str, str_eq, trim, trim_seq, views,
    words_seq, lemma_views_push, occurs_at,
};
use crate::workflow::opt_view;

verus! {

/// How to build and run a project.
#[derive(Debug, Clone)]
pub struct ProjectConfig {
    /// A readable name of the kind of project.
    pub project_type: String,
    /// The image the build runs in.
    pub build_image: String,
    /// The shell command that builds and copies the output to `/output/`.
    pub build_command: String,
    /// Which dependency cache the build uses.
    pub cache_type: String,
    /// The image the project runs in.
    pub runtime_image: String,
    /// The command that starts the project.
    pub runtime_command: String,
    /// The path probed for health.
    pub health_check_url: String,
    /// The folder of the repository the project lives in, if not the root.
    pub working_directory: Option<String>,
    /// The port the project listens on inside its container.
    pub runtime_port: u16,
}

/// A project configuration as plain values.
#[verifier::ext_equal]
pub struct ProjectConfigModel {
    pub project_type: Seq<char>,
    pub build_image: Seq<char>,
    pub build_command: Seq<char>,
    pub cache_type: Seq<char>,
    pub runtime_image: Seq<char>,
    pub runtime_command: Seq<char>,
    pub health_check_url: Seq<char>,
    pub working_directory: Option<Seq<char>>,
    pub runtime_port: u16,
}

impl View for ProjectConfig {
    type V = ProjectConfigModel;

    open spec fn view(&self) -> ProjectConfigModel {
        ProjectConfigModel {
            project_type: self.project_type@,
            build_image: self.build_image@,
            build_command: self.build_command@,
            cache_type: self.cache_type@,
            runtime_image: self.runtime_image@,
            runtime_command: self.runtime_command@,
            health_check_url: self.health_check_url@,
            working_directory: opt_view(self.working_directory),
            runtime_port: self.runtime_port,
        }
    }
}

/// The readable name of a kind of project.
pub open spec fn project_type_label(t: ProjectType) -> Seq<char> {
    match t {
        ProjectType::NodeJsBackend => "Node.js (Backend)"@,
        ProjectType::NodeJsFrontend => "Node.js (Frontend)"@,
        ProjectType::JavaSpringBoot => "Java (Spring Boot)"@,
        ProjectType::PythonDjango => "Python (Django)"@,
        ProjectType::GolangApi => "Go (API)"@,
        ProjectType::RustCargo => "Rust (Cargo)"@,
        ProjectType::Unknown => "Unknown"@,
    }
}

/// The build and runtime images for a language, version and kind of
/// project; none for a language other than node, java, python and go.
pub open spec fn images_of(language: Seq<char>, version: Seq<char>, t: ProjectType) -> Option<(Seq<char>, Seq<char>)> {
    if language == "node"@ {
        Some(
            (
                "node:"@ + version,
                if t == ProjectType::NodeJsFrontend {
                    "nginx:alpine"@
                } else {
                    "node:"@ + version + "-slim"@
                },
            ),
        )
    } else if language == "java"@ {
        Some(("gradle:8-jdk"@ + version, "eclipse-temurin:"@ + version + "-jre"@))
    } else if language == "python"@ {
        Some(("python:"@ + version, "python:"@ + version + "-slim"@))
    } else if language == "go"@ {
        Some(("golang:"@ + version, "gcr.io/distroless/base-debian11"@))
    } else {
        None
    }
}

/// The commands of the tasks of kind `k`, in order.
pub open spec fn commands_of_kind(tasks: Seq<TaskModel>, k: TaskType) -> Seq<Seq<char>>
    decreases tasks.len(),
{
    if tasks.len() == 0 {
        seq![]
    } else {
        let prev = commands_of_kind(tasks.drop_last(), k);
        if tasks.last().task_type == k {
            prev.push(tasks.last().command)
        } else {
            prev
        }
    }
}

/// The command that copies the build output of a kind of project to `/output/`.
pub open spec fn copy_command_of(t: ProjectType) -> Seq<char> {
    match t {
        ProjectType::NodeJsBackend => "cp -r src node_modules package*.json /output/"@,
        ProjectType::NodeJsFrontend => "cp -r dist/* /output/ 2>/dev/null || cp -r build/* /output/"@,
        ProjectType::JavaSpringBoot => "find build/libs target -name '*.jar' ! -name '*-plain.jar' -exec cp {} /output/app.jar \\;"@,
        ProjectType::PythonDjango => "cp -r . /output/"@,
        ProjectType::GolangApi => "cp main /output/ 2>/dev/null || cp app /output/"@,
        ProjectType::RustCargo => "cp target/release/* /output/ 2>/dev/null || true"@,
        ProjectType::Unknown => "cp -r dist/* /output/ 2>/dev/null || cp -r build/* /output/ 2>/dev/null || cp -r . /output/"@,
    }
}

/// The steps of the build: the install commands, then (but for a Node.js
/// backend) the build commands, then `gradle clean build` for a Spring Boot
/// project without one, then the copy of the output.
pub open spec fn build_steps(plan: ExecutionPlanModel) -> Seq<Seq<char>> {
    let installs = commands_of_kind(plan.tasks, TaskType::InstallDependencies);
    let builds = if plan.project_type != ProjectType::NodeJsBackend {
        commands_of_kind(plan.tasks, TaskType::Build)
    } else {
        seq![]
    };
    let fallback = if plan.project_type == ProjectType::JavaSpringBoot && builds.len() == 0 {
        seq!["gradle clean build"@]
    } else {
        seq![]
    };
    installs + builds + fallback + seq![copy_command_of(plan.project_type)]
}

/// The build command: the build steps joined with ` && `.
pub open spec fn build_command_of(plan: ExecutionPlanModel) -> Seq<char> {
    join_seq(build_steps(plan), " && "@)
}

/// A word that ends a node command line: a comment, `&` or `;`.
pub open spec fn ends_command(w: Seq<char>) -> bool {
    starts_with_seq(w, "#"@) || w == "&"@ || w == ";"@
}

/// The index of the first word that ends the command, or the number of words.
pub open spec fn first_stop(ws: Seq<Seq<char>>) -> nat
    decreases ws.len(),
{
    if ws.len() == 0 || ends_command(ws[0]) {
        0
    } else {
        1 + first_stop(ws.drop_first())
    }
}

/// The first trimmed line that starts with `node `.
pub open spec fn first_node_line(ls: Seq<Seq<char>>) -> Option<Seq<char>>
    decreases ls.len(),
{
    if ls.len() == 0 {
        None
    } else if starts_with_seq(trim_seq(ls[0]), "node "@) {
        Some(trim_seq(ls[0]))
    } else {
        first_node_line(ls.drop_first())
    }
}

/// The node invocation in a command: its first line that starts with
/// `node `, up to a comment, `&` or `;`, with single spaces between words.
pub open spec fn node_command_of(command: Seq<char>) -> Option<Seq<char>> {
    match first_node_line(lines_seq(command)) {
        Some(l) => {
            let ws = words_seq(l);
            Some(join_seq(ws.take(first_stop(ws) as int), " "@))
        },
        None => None,
    }
}

/// A command that starts a node script.
pub open spec fn starts_node_script(c: Seq<char>) -> bool {
    contains_seq(c, "node "@) && contains_seq(c, ".js"@)
}

/// The command of the first task that starts a node script.
pub open spec fn first_node_task(tasks: Seq<TaskModel>) -> Option<Seq<char>>
    decreases tasks.len(),
{
    if tasks.len() == 0 {
        None
    } else if starts_node_script(tasks[0].command) {
        Some(tasks[0].command)
    } else {
        first_node_task(tasks.drop_first())
    }
}

/// The command that starts a project of kind `t`; none for an unknown kind.
pub open spec fn runtime_command_of(t: ProjectType, tasks: Seq<TaskModel>) -> Option<Seq<char>> {
    match t {
        ProjectType::NodeJsFrontend => Some("nginx -c /app/nginx.conf"@),
        ProjectType::NodeJsBackend => Some(
            match first_node_task(tasks) {
                Some(c) => match node_command_of(c) {
                    Some(n) => n,
                    None => "node src/index.js"@,
                },
                None => "node src/index.js"@,
            },
        ),
        ProjectType::JavaSpringBoot => Some("java -jar /app/app.jar"@),
        ProjectType::PythonDjango => Some("python manage.py runserver 0.0.0.0:8000"@),
        ProjectType::GolangApi => Some("./main"@),
        ProjectType::RustCargo => Some("./main"@),
        ProjectType::Unknown => None,
    }
}

/// The dependency cache of a language.
pub open spec fn cache_type_of(language: Seq<char>) -> Seq<char> {
    if language == "node"@ {
        "npm"@
    } else if language == "java"@ {
        "gradle"@
    } else if language == "python"@ {
        "pip"@
    } else if language == "go"@ {
        "go"@
    } else {
        "none"@
    }
}

/// The health check path of a kind of project.
pub open spec fn health_check_of(t: ProjectType) -> Seq<char> {
    match t {
        ProjectType::NodeJsBackend => "/health"@,
        ProjectType::JavaSpringBoot => "/actuator/health"@,
        ProjectType::PythonDjango => "/health/"@,
        _ => "/"@,
    }
}

/// The port a kind of project listens on by default.
pub open spec fn default_port_of(t: ProjectType) -> u16 {
    match t {
        ProjectType::NodeJsBackend => 3000,
        ProjectType::NodeJsFrontend => 80,
        ProjectType::JavaSpringBoot => 8080,
        ProjectType::PythonDjango => 8000,
        ProjectType::GolangApi => 8080,
        ProjectType::RustCargo => 8080,
        ProjectType::Unknown => 8080,
    }
}

/// The error for a language without images.
pub open spec fn unsupported_language_error(language: Seq<char>) -> Seq<char> {
    "지원하지 않는 언어: "@ + language
}

/// The error for a plan of unknown kind.
pub open spec fn unknown_type_error() -> Seq<char> {
    "프로젝트 타입을 알 수 없어 런타임 커맨드를 생성할 수 없습니다"@
}

/// The configuration of a plan, or why there is none.
pub open spec fn config_of(plan: ExecutionPlanModel) -> Result<ProjectConfigModel, Seq<char>> {
    match images_of(plan.runtime.language, plan.runtime.version, plan.project_type) {
        None => Err(unsupported_language_error(plan.runtime.language)),
        Some(images) => match runtime_command_of(plan.project_type, plan.tasks) {
            None => Err(unknown_type_error()),
            Some(rc) => Ok(
                ProjectConfigModel {
                    project_type: project_type_label(plan.project_type),
                    build_image: images.0,
                    build_command: build_command_of(plan),
                    cache_type: cache_type_of(plan.runtime.language),
                    runtime_image: images.1,
                    runtime_command: rc,
                    health_check_url: health_check_of(plan.project_type),
                    working_directory: None,
                    runtime_port: match plan.detected_port {
                        Some(p) => p,
                        None => default_port_of(plan.project_type),
                    },
                },
            ),
        },
    }
}


/// An owned copy of `s`.
fn owned(s: &str) -> (r: String)
    ensures
        r@ == s@,
{
    s.to_owned()
}

/// `a` followed by `b`.
fn cat(a: &str, b: &str) -> (r: String)
    ensures
        r@ == a@ + b@,
{
    let mut v = chars(a);
    append_str(&mut v, b);
    from_chars(v.as_slice())
}

/// `a`, `b` and `c` in a row.
fn cat3(a: &str, b: &str, c: &str) -> (r: String)
    ensures
        r@ == a@ + b@ + c@,
{
    let mut v = chars(a);
    append_str(&mut v, b);
    append_str(&mut v, c);
    from_chars(v.as_slice())
}

/// Turns execution plans into project configurations.
pub struct ConfigBuilder;

impl ConfigBuilder {
    /// The readable name of a kind of project.
    pub fn format_project_type(t: ProjectType) -> (r: String)
        ensures
            r@ == project_type_label(t),
    {
        match t {
            ProjectType::NodeJsBackend => owned("Node.js (Backend)"),
            ProjectType::NodeJsFrontend => owned("Node.js (Frontend)"),
            ProjectType::JavaSpringBoot => owned("Java (Spring Boot)"),
            ProjectType::PythonDjango => owned("Python (Django)"),
            ProjectType::GolangApi => owned("Go (API)"),
            ProjectType::RustCargo => owned("Rust (Cargo)"),
            ProjectType::Unknown => owned("Unknown"),
        }
    }

    /// The build and runtime images of a plan (see `images_of`).
    pub fn determine_images(plan: &ExecutionPlan) -> (r: Result<(String, String), String>)
        ensures
            match images_of(plan@.runtime.language, plan@.runtime.version, plan@.project_type) {
                Some(images) => r matches Ok(x) && x.0@ == images.0 && x.1@ == images.1,
                None => r matches Err(e) && e@ == unsupported_language_error(plan@.runtime.language),
            },
    {
        let lang = plan.runtime.language.as_str();
        let version = plan.runtime.version.as_str();
        if str_eq(lang, "node") {
            let build_image = cat("node:", version);
            let runtime_image = if plan.project_type == ProjectType::NodeJsFrontend {
                owned("nginx:alpine")
            } else {
                cat3("node:", version, "-slim")
            };
            Ok((build_image, runtime_image))
        } else if str_eq(lang, "java") {
            Ok((cat("gradle:8-jdk", version), cat3("eclipse-temurin:", version, "-jre")))
        } else if str_eq(lang, "python") {
            Ok((cat("python:", version), cat3("python:", version, "-slim")))
        } else if str_eq(lang, "go") {
            Ok((cat("golang:", version), owned("gcr.io/distroless/base-debian11")))
        } else {
            Err(cat("지원하지 않는 언어: ", lang))
        }
    }

    /// The command that copies the build output (see `copy_command_of`).
    pub fn generate_copy_command(plan: &ExecutionPlan) -> (r: String)
        ensures
            r@ == copy_command_of(plan@.project_type),
    {
        match plan.project_type {
            ProjectType::NodeJsBackend => owned("cp -r src node_modules package*.json /output/"),
            ProjectType::NodeJsFrontend => owned("cp -r dist/* /output/ 2>/dev/null || cp -r build/* /output/"),
            ProjectType::JavaSpringBoot => owned("find build/libs target -name '*.jar' ! -name '*-plain.jar' -exec cp {} /output/app.jar \\;"),
            ProjectType::PythonDjango => owned("cp -r . /output/"),
            ProjectType::GolangApi => owned("cp main /output/ 2>/dev/null || cp app /output/"),
            ProjectType::RustCargo => owned("cp target/release/* /output/ 2>/dev/null || true"),
            ProjectType::Unknown => owned("cp -r dist/* /output/ 2>/dev/null || cp -r build/* /output/ 2>/dev/null || cp -r . /output/"),
        }
    }

    /// Appends the commands of the tasks of kind `k` to `out`.
    fn push_commands_of_kind(out: &mut Vec<Vec<char>>, tasks: &Vec<Task>, k: TaskType)
        ensures
            views(final(out)@) == views(old(out)@) + commands_of_kind(
                tasks@.map_values(|t: Task| t@),
                k,
            ),
    {
        let ghost ts = tasks@.map_values(|t: Task| t@);
        let ghost start = views(out@);
        let mut i: usize = 0;
        assert(ts.take(0) =~= Seq::<TaskModel>::empty());
        assert(start + commands_of_kind(ts.take(0), k) =~= start);
        while i < tasks.len()
            invariant
                i <= tasks@.len(),
                ts == tasks@.map_values(|t: Task| t@),
                views(out@) == start + commands_of_kind(ts.take(i as int), k),
            decreases tasks@.len() - i,
        {
            assert(ts.take(i + 1).drop_last() =~= ts.take(i as int));
            assert(ts.take(i + 1).last() == tasks@[i as int]@);
            if tasks[i].task_type == k {
                let c = chars(tasks[i].command.as_str());
                proof {
                    lemma_views_push(out@, c);
                }
                let ghost before = commands_of_kind(ts.take(i as int), k);
                out.push(c);
                assert(start + before.push(tasks@[i as int].command@) =~= (start + before).push(
                    tasks@[i as int].command@,
                ));
            }
            i = i + 1;
        }
        assert(ts.take(tasks@.len() as int) =~= ts);
    }

    /// The build command of a plan (see `build_command_of`); never refused.
    pub fn generate_build_command(plan: &ExecutionPlan) -> (r: Result<String, String>)
        ensures
            r matches Ok(s) && s@ == build_command_of(plan@),
    {
        let ghost ts = plan@.tasks;
        let mut commands: Vec<Vec<char>> = Vec::new();
        assert(views(commands@) =~= Seq::<Seq<char>>::empty());
        Self::push_commands_of_kind(&mut commands, &plan.tasks, TaskType::InstallDependencies);
        let ghost installs = views(commands@);
        assert(installs =~= commands_of_kind(ts, TaskType::InstallDependencies));
        let mut has_build_command = false;
        if plan.project_type != ProjectType::NodeJsBackend {
            let n0 = commands.len();
            Self::push_commands_of_kind(&mut commands, &plan.tasks, TaskType::Build);
            has_build_command = commands.len() > n0;
        }
        let ghost builds = if plan@.project_type != ProjectType::NodeJsBackend {
            commands_of_kind(ts, TaskType::Build)
        } else {
            Seq::<Seq<char>>::empty()
        };
        assert(views(commands@) =~= installs + builds);
        assert(has_build_command == (builds.len() > 0));
        let ghost mid = views(commands@);
        if plan.project_type == ProjectType::JavaSpringBoot && !has_build_command {
            let g = chars("gradle clean build");
            proof {
                lemma_views_push(commands@, g);
            }
            commands.push(g);
        }
        let ghost fallback = if plan@.project_type == ProjectType::JavaSpringBoot && builds.len() == 0 {
            seq!["gradle clean build"@]
        } else {
            Seq::<Seq<char>>::empty()
        };
        assert(views(commands@) =~= mid + fallback);
        let copy = chars(Self::generate_copy_command(plan).as_str());
        let ghost before_copy = views(commands@);
        proof {
            lemma_views_push(commands@, copy);
        }
        commands.push(copy);
        assert(views(commands@) =~= build_steps(plan@));
        let joined = join(&commands, " && ");
        Ok(from_chars(joined.as_slice()))
    }

    /// Whether a word ends a node command line.
    fn ends_command_exec(w: &[char]) -> (r: bool)
        ensures
            r == ends_command(w@),
    {
        let amp = chars("&");
        let semi = chars(";");
        starts_with_str(w, "#") || crate::text::chars_eq(w, amp.as_slice()) || crate::text::chars_eq(
            w,
            semi.as_slice(),
        )
    }

    /// The first trimmed line of a command that starts with `node `.
    fn find_node_line(command: &[char]) -> (r: Option<Vec<char>>)
        ensures
            match r {
                Some(l) => first_node_line(lines_seq(command@)) == Some(l@),
                None => first_node_line(lines_seq(command@)) is None,
            },
    {
        let ls = lines(command);
        let ghost lv = lines_seq(command@);
        let mut i: usize = 0;
        assert(lv.skip(0) =~= lv);
        while i < ls.len()
            invariant
                i <= ls@.len(),
                views(ls@) == lv,
                lv == lines_seq(command@),
                first_node_line(lv) == first_node_line(lv.skip(i as int)),
            decreases ls@.len() - i,
        {
            let t = trim(ls[i].as_slice());
            assert(lv.skip(i as int)[0] == ls@[i as int]@);
            assert(lv.skip(i as int).drop_first() =~= lv.skip(i + 1));
            if starts_with_str(t.as_slice(), "node ") {
                return Some(t);
            }
            i = i + 1;
        }
        assert(lv.skip(i as int) =~= Seq::<Seq<char>>::empty());
        None
    }

    /// The node invocation in a command (see `node_command_of`).
    pub fn extract_node_command(command: &[char]) -> (r: Option<Vec<char>>)
        ensures
            match r {
                Some(c) => node_command_of(command@) == Some(c@),
                None => node_command_of(command@) is None,
            },
    {
        let line = match Self::find_node_line(command) {
            Some(t) => t,
            None => return None,
        };
        let words = split_whitespace(line.as_slice());
        let ghost ws = words_seq(line@);
        let mut k: usize = 0;
        assert(ws.skip(0) =~= ws);
        while k < words.len() && !Self::ends_command_exec(words[k].as_slice())
            invariant
                k <= words@.len(),
                views(words@) == ws,
                first_stop(ws) == k + first_stop(ws.skip(k as int)),
            decreases words@.len() - k,
        {
            assert(ws.skip(k as int)[0] == words@[k as int]@);
            assert(ws.skip(k as int).drop_first() =~= ws.skip(k + 1));
            k = k + 1;
        }
        proof {
            if k < words@.len() {
                assert(ws.skip(k as int)[0] == words@[k as int]@);
            } else {
                assert(ws.skip(k as int) =~= Seq::<Seq<char>>::empty());
            }
        }
        let mut kept: Vec<Vec<char>> = Vec::new();
        let mut j: usize = 0;
        while j < k
            invariant
                j <= k,
                k <= words@.len(),
                views(words@) == ws,
                views(kept@) == ws.take(j as int),
            decreases k - j,
        {
            let w = crate::text::slice_range(words[j].as_slice(), 0, words[j].len());
            proof {
                lemma_views_push(kept@, w);
                assert(w@ =~= words@[j as int]@);
                assert(ws.take(j + 1) =~= ws.take(j as int).push(ws[j as int]));
            }
            kept.push(w);
            j = j + 1;
        }
        Some(join(&kept, " "))
    }

    /// The runtime command of a plan (see `runtime_command_of`).
    pub fn generate_runtime_command(plan: &ExecutionPlan) -> (r: Result<String, String>)
        ensures
            match runtime_command_of(plan@.project_type, plan@.tasks) {
                Some(c) => r matches Ok(s) && s@ == c,
                None => r matches Err(e) && e@ == unknown_type_error(),
            },
    {
        match plan.project_type {
            ProjectType::NodeJsFrontend => Ok(owned("nginx -c /app/nginx.conf")),
            ProjectType::NodeJsBackend => {
                let ghost ts = plan@.tasks;
                let mut i: usize = 0;
                assert(ts.skip(0) =~= ts);
                while i < plan.tasks.len()
                    invariant
                        i <= plan.tasks@.len(),
                        ts == plan@.tasks,
                        ts.len() == plan.tasks@.len(),
                        plan.project_type == ProjectType::NodeJsBackend,
                        first_node_task(ts) == first_node_task(ts.skip(i as int)),
                    decreases plan.tasks@.len() - i,
                {
                    let c = chars(plan.tasks[i].command.as_str());
                    assert(ts.skip(i as int)[0] == plan.tasks@[i as int]@);
                    assert(ts.skip(i as int).drop_first() =~= ts.skip(i + 1));
                    if contains_str(c.as_slice(), "node ") && contains_str(c.as_slice(), ".js") {
                        assert(first_node_task(ts) == Some(c@));
                        let found = Self::extract_node_command(c.as_slice());
                        match found {
                            Some(n) => {
                                return Ok(from_chars(n.as_slice()));
                            },
                            None => {
                                return Ok(owned("node src/index.js"));
                            },
                        }
                    }
                    i = i + 1;
                }
                assert(ts.skip(i as int) =~= Seq::<TaskModel>::empty());
                Ok(owned("node src/index.js"))
            },
            ProjectType::JavaSpringBoot => Ok(owned("java -jar /app/app.jar")),
            ProjectType::PythonDjango => Ok(owned("python manage.py runserver 0.0.0.0:8000")),
            ProjectType::GolangApi => Ok(owned("./main")),
            ProjectType::RustCargo => Ok(owned("./main")),
            ProjectType::Unknown => Err(owned("프로젝트 타입을 알 수 없어 런타임 커맨드를 생성할 수 없습니다")),
        }
    }

    /// The dependency cache of a language.
    pub fn determine_cache_type(language: &str) -> (r: String)
        ensures
            r@ == cache_type_of(language@),
    {
        if str_eq(language, "node") {
            owned("npm")
        } else if str_eq(language, "java") {
            owned("gradle")
        } else if str_eq(language, "python") {
            owned("pip")
        } else if str_eq(language, "go") {
            owned("go")
        } else {
            owned("none")
        }
    }

    /// The health check path of a kind of project.
    pub fn determine_health_check(t: ProjectType) -> (r: String)
        ensures
            r@ == health_check_of(t),
    {
        match t {
            ProjectType::NodeJsBackend => owned("/health"),
            ProjectType::JavaSpringBoot => owned("/actuator/health"),
            ProjectType::PythonDjango => owned("/health/"),
            _ => owned("/"),
        }
    }

    /// The default port of a kind of project.
    pub fn determine_default_port(t: ProjectType) -> (r: u16)
        ensures
            r == default_port_of(t),
    {
        match t {
            ProjectType::NodeJsBackend => 3000,
            ProjectType::NodeJsFrontend => 80,
            ProjectType::JavaSpringBoot => 8080,
            ProjectType::PythonDjango => 8000,
            ProjectType::GolangApi => 8080,
            ProjectType::RustCargo => 8080,
            ProjectType::Unknown => 8080,
        }
    }

    /// The configuration of a plan (see `config_of`): refused for a language
    /// without images, then for a plan of unknown kind.
    pub fn build(plan: &ExecutionPlan) -> (r: Result<ProjectConfig, String>)
        ensures
            match config_of(plan@) {
                Ok(c) => r matches Ok(x) && x@ =~~= c,
                Err(e) => r matches Err(x) && x@ == e,
            },
    {
        let project_type = Self::format_project_type(plan.project_type);
        let (build_image, runtime_image) = match Self::determine_images(plan) {
            Ok(images) => images,
            Err(e) => return Err(e),
        };
        let build_command = match Self::generate_build_command(plan) {
            Ok(c) => c,
            Err(e) => return Err(e),
        };
        let runtime_command = match Self::generate_runtime_command(plan) {
            Ok(c) => c,
            Err(e) => return Err(e),
        };
        let health_check_url = Self::determine_health_check(plan.project_type);
        let runtime_port = match plan.detected_port {
            Some(p) => p,
            None => Self::determine_default_port(plan.project_type),
        };
        Ok(
            ProjectConfig {
                project_type,
                build_image,
                build_command,
                cache_type: Self::determine_cache_type(plan.runtime.language.as_str()),
                runtime_image,
                runtime_command,
                health_check_url,
                working_directory: None,
                runtime_port,
            },
        )
    }
}


/// The runtime found in setup actions is one of the four languages with images.
proof fn lemma_first_runtime_language(actions: Seq<SetupActionModel>)
    ensures
        first_runtime(actions) matches Some(rt) ==> (rt.language == "node"@ || rt.language
            == "java"@ || rt.language == "python"@ || rt.language == "go"@),
    decreases actions.len(),
{
    if actions.len() > 0 {
        lemma_first_runtime_language(actions.drop_first());
    }
}

/// Every plan that interpreting a workflow yields can be configured: its
/// language has images and its kind of project is known.
pub proof fn law_interpreted_plan_configures(actions: Seq<SetupActionModel>, cmds: Seq<RunCommandModel>)
    requires
        first_runtime(actions) is Some,
    ensures
        config_of(plan_of(cmds, first_runtime(actions)->0)) is Ok,
{
    lemma_first_runtime_language(actions);
}

/// The port found in run commands lies in 1024..=65535.
proof fn lemma_port_of_commands_range(cmds: Seq<RunCommandModel>)
    ensures
        port_of_commands(cmds) matches Some(p) ==> 1024 <= p,
    decreases cmds.len(),
{
    if cmds.len() > 0 {
        lemma_port_of_commands_range(cmds.drop_first());
    }
}

/// The port of a configured plan is the port its commands name, which is
/// never a privileged one, or the default port of its kind of project.
pub proof fn law_configured_port(cmds: Seq<RunCommandModel>, rt: crate::interpreter::RuntimeModel)
    ensures
        config_of(plan_of(cmds, rt)) matches Ok(c) ==> (c.runtime_port == default_port_of(
            plan_of(cmds, rt).project_type,
        ) || 1024 <= c.runtime_port),
{
    lemma_port_of_commands_range(cmds);
}

/// Every task of kind `k` has its command among the commands of that kind.
proof fn lemma_kind_member(tasks: Seq<TaskModel>, k: TaskType, i: int)
    requires
        0 <= i < tasks.len(),
        tasks[i].task_type == k,
    ensures
        exists|j: int|
            0 <= j < commands_of_kind(tasks, k).len() && #[trigger] commands_of_kind(tasks, k)[j]
                == tasks[i].command,
    decreases tasks.len(),
{
    let prev = commands_of_kind(tasks.drop_last(), k);
    if i == tasks.len() - 1 {
        assert(commands_of_kind(tasks, k)[prev.len() as int] == tasks[i].command);
    } else {
        lemma_kind_member(tasks.drop_last(), k, i);
        let j = choose|j: int| 0 <= j < prev.len() && #[trigger] prev[j] == tasks.drop_last()[i].command;
        assert(commands_of_kind(tasks, k)[j] == prev[j]);
    }
}

/// Each part of a joined text occurs in it.
proof fn lemma_join_contains(parts: Seq<Seq<char>>, sep: Seq<char>, j: int)
    requires
        0 <= j < parts.len(),
    ensures
        contains_seq(join_seq(parts, sep), parts[j]),
    decreases parts.len(),
{
    let whole = join_seq(parts, sep);
    if parts.len() == 1 {
        assert(whole == parts[0]);
        assert(whole.subrange(0, parts[j].len() as int) =~= parts[j]);
        assert(occurs_at(whole, parts[j], 0));
    } else {
        let front = join_seq(parts.drop_last(), sep);
        assert(whole == front + sep + parts.last());
        if j == parts.len() - 1 {
            let at: int = (front.len() + sep.len()) as int;
            assert(whole.subrange(at, at + parts[j].len()) =~= parts[j]);
            assert(occurs_at(whole, parts[j], at));
        } else {
            lemma_join_contains(parts.drop_last(), sep, j);
            let at = choose|at: int| occurs_at(front, parts.drop_last()[j], at);
            assert(whole.subrange(at, at + parts[j].len()) =~= front.subrange(at, at + parts[j].len()));
            assert(occurs_at(whole, parts[j], at));
        }
    }
}

/// The build of any project but a Node.js backend runs the command of every
/// build task: the build command contains it, as a step that comes after
/// the step of every install task and before the final step, which copies
/// the output.
pub proof fn law_build_tasks_run(plan: ExecutionPlanModel, i: int)
    requires
        plan.project_type != ProjectType::NodeJsBackend,
        0 <= i < plan.tasks.len(),
        plan.tasks[i].task_type == TaskType::Build,
    ensures
        contains_seq(build_command_of(plan), plan.tasks[i].command),
        build_steps(plan).last() == copy_command_of(plan.project_type),
        exists|j: int|
            #![trigger build_steps(plan)[j]]
            0 <= j < build_steps(plan).len() - 1 && build_steps(plan)[j] == plan.tasks[i].command && forall|k: int|
                0 <= k < plan.tasks.len() && #[trigger] plan.tasks[k].task_type
                    == TaskType::InstallDependencies ==> exists|m: int|
                    0 <= m < j && #[trigger] build_steps(plan)[m] == plan.tasks[k].command,
{
    let steps = build_steps(plan);
    let installs = commands_of_kind(plan.tasks, TaskType::InstallDependencies);
    let builds = commands_of_kind(plan.tasks, TaskType::Build);
    let fallback = if plan.project_type == ProjectType::JavaSpringBoot && builds.len() == 0 {
        seq!["gradle clean build"@]
    } else {
        seq![]
    };
    assert(steps == installs + builds + fallback + seq![copy_command_of(plan.project_type)]);
    lemma_kind_member(plan.tasks, TaskType::Build, i);
    let jb = choose|jb: int| 0 <= jb < builds.len() && #[trigger] builds[jb] == plan.tasks[i].command;
    let j = installs.len() + jb;
    assert(steps[j] == builds[jb]);
    assert forall|k: int|
        0 <= k < plan.tasks.len() && #[trigger] plan.tasks[k].task_type == TaskType::InstallDependencies implies exists|m: int|
            0 <= m < j && #[trigger] steps[m] == plan.tasks[k].command by {
        lemma_kind_member(plan.tasks, TaskType::InstallDependencies, k);
        let m = choose|m: int| 0 <= m < installs.len() && #[trigger] installs[m] == plan.tasks[k].command;
        assert(steps[m] == installs[m]);
    }
    lemma_join_contains(steps, " && "@, j);
}

} // verus!
