//! Decides how to build a repository from its file list: from its GitHub
//! Actions workflows when it has any, else from the files it holds.
use vstd::prelude::*;
use crate::config::{ConfigBuilder, ProjectConfig, ProjectConfigModel, config_of};
use crate::interpreter::{WorkflowInterpreter, first_runtime, plan_of};
use crate::text::{
    chars, contains_seq, contains_str, ends_with_seq, ends_with_str, from_chars, starts_with,
    starts_with_seq, str_eq, trim_end_seq, lit, append_str,
};
use crate::workflow::{WorkflowParser, active_for_branch, opt_view, workflow_info};
use crate::yaml::{YamlValue, yaml_parsed};

verus! {

/// Decides the build configuration of a repository.
pub struct ProjectDetector;

/// A configuration with no working directory.
pub open spec fn config_model(
    project_type: Seq<char>,
    build_image: Seq<char>,
    build_command: Seq<char>,
    cache_type: Seq<char>,
    runtime_image: Seq<char>,
    runtime_command: Seq<char>,
    health_check_url: Seq<char>,
    runtime_port: u16,
) -> ProjectConfigModel {
    ProjectConfigModel {
        project_type,
        build_image,
        build_command,
        cache_type,
        runtime_image,
        runtime_command,
        health_check_url,
        working_directory: None,
        runtime_port,
    }
}

/// Some file name ends with `suffix`.
pub open spec fn any_ends_with(files: Seq<Seq<char>>, suffix: Seq<char>) -> bool {
    exists|i: int| 0 <= i < files.len() && ends_with_seq(#[trigger] files[i], suffix)
}

/// Some file name contains `part`.
pub open spec fn any_contains(files: Seq<Seq<char>>, part: Seq<char>) -> bool {
    exists|i: int| 0 <= i < files.len() && contains_seq(#[trigger] files[i], part)
}

/// Some file name is `name`.
pub open spec fn any_is(files: Seq<Seq<char>>, name: Seq<char>) -> bool {
    exists|i: int| 0 <= i < files.len() && #[trigger] files[i] == name
}

/// The configuration of a Node.js project without a workflow: a frontend
/// when it has an `index.html` or a `public` folder, else a backend.
pub open spec fn nodejs_config(files: Seq<Seq<char>>) -> ProjectConfigModel {
    if any_ends_with(files, "index.html"@) || any_contains(files, "/public/"@) {
        config_model(
            "Node.js (Frontend)"@,
            "node:20"@,
            "npm install && npm run build && cp -r dist/* /output/ 2>/dev/null || cp -r build/* /output/ 2>/dev/null || echo 'Build output copied'"@,
            "npm"@,
            "nginx:alpine"@,
            "nginx -c /app/nginx.conf"@,
            "/"@,
            80,
        )
    } else {
        config_model(
            "Node.js (Backend)"@,
            "node:20"@,
            "npm install && npm run build && cp -r dist/* /output/ && cp package*.json /output/"@,
            "npm"@,
            "node:20-slim"@,
            "node dist/index.js"@,
            "/health"@,
            3000,
        )
    }
}

/// The configuration of a Gradle project.
pub open spec fn gradle_config() -> ProjectConfigModel {
    config_model(
        "Gradle (Spring Boot)"@,
        "gradle:8-jdk17"@,
        "gradle clean build && find build/libs -name '*.jar' ! -name '*-plain.jar' -exec cp {} /output/app.jar \\;"@,
        "gradle"@,
        "eclipse-temurin:17-jre"@,
        "java -jar app.jar"@,
        "/actuator/health"@,
        8080,
    )
}

/// The configuration of a Maven project.
pub open spec fn maven_config() -> ProjectConfigModel {
    config_model(
        "Maven (Spring Boot)"@,
        "maven:3.9-eclipse-temurin-17"@,
        "mvn clean package -DskipTests && cp target/*.jar /output/app.jar"@,
        "maven"@,
        "eclipse-temurin:17-jre"@,
        "java -jar app.jar"@,
        "/actuator/health"@,
        8080,
    )
}

/// The configuration of a Rust project.
pub open spec fn rust_config() -> ProjectConfigModel {
    config_model(
        "Rust"@,
        "rust:1.75"@,
        "cargo build --release && find target/release -maxdepth 1 -type f -executable -exec cp {} /output/ \\;"@,
        "rust"@,
        "debian:bookworm-slim"@,
        "./app"@,
        "/health"@,
        8080,
    )
}

/// The configuration of a Go project.
pub open spec fn go_config() -> ProjectConfigModel {
    config_model(
        "Go"@,
        "golang:1.21"@,
        "go build -o app . && cp app /output/"@,
        "go"@,
        "debian:bookworm-slim"@,
        "./app"@,
        "/health"@,
        8080,
    )
}

/// The start command of a Python project: Django, else FastAPI, else Flask,
/// else `main.py`, by the file names it has.
pub open spec fn python_command(files: Seq<Seq<char>>) -> Seq<char> {
    if any_contains(files, "django"@) {
        "python manage.py runserver 0.0.0.0:8000"@
    } else if any_contains(files, "fastapi"@) {
        "uvicorn main:app --host 0.0.0.0 --port 8000"@
    } else if any_contains(files, "flask"@) {
        "python app.py"@
    } else {
        "python main.py"@
    }
}

/// The configuration of a Python project.
pub open spec fn python_config(files: Seq<Seq<char>>) -> ProjectConfigModel {
    config_model(
        "Python"@,
        "python:3.11"@,
        "pip install -r requirements.txt && cp -r . /output/"@,
        "pip"@,
        "python:3.11-slim"@,
        python_command(files),
        "/health"@,
        8000,
    )
}

/// The configuration of a prebuilt static site.
pub open spec fn static_site_config() -> ProjectConfigModel {
    config_model(
        "Static Site (pre-built)"@,
        "alpine:latest"@,
        "cp -r . /output/"@,
        "none"@,
        "nginx:alpine"@,
        "nginx -c /app/nginx.conf"@,
        "/"@,
        80,
    )
}

/// The configuration of a project with a Dockerfile.
pub open spec fn dockerfile_config() -> ProjectConfigModel {
    config_model(
        "Dockerfile"@,
        "docker:24-cli"@,
        "docker build -t app ."@,
        "none"@,
        "app"@,
        ""@,
        "/"@,
        8080,
    )
}

/// The error when nothing tells how to build a repository.
pub open spec fn undetectable_error() -> Seq<char> {
    "Unable to detect project type. Please configure manually."@
}

/// The configuration of a repository without workflows, by the first of
/// these its files show: a Dockerfile, `package.json`, a Gradle build, a
/// `pom.xml`, a `Cargo.toml`, a `go.mod`, Python requirements, a top-level
/// `index.html`.
pub open spec fn fallback_config(files: Seq<Seq<char>>) -> Result<ProjectConfigModel, Seq<char>> {
    if any_ends_with(files, "Dockerfile"@) || any_ends_with(files, "dockerfile"@) {
        Ok(dockerfile_config())
    } else if any_ends_with(files, "package.json"@) {
        Ok(nodejs_config(files))
    } else if any_ends_with(files, "build.gradle"@) || any_ends_with(files, "build.gradle.kts"@) {
        Ok(gradle_config())
    } else if any_ends_with(files, "pom.xml"@) {
        Ok(maven_config())
    } else if any_ends_with(files, "Cargo.toml"@) {
        Ok(rust_config())
    } else if any_ends_with(files, "go.mod"@) {
        Ok(go_config())
    } else if any_ends_with(files, "requirements.txt"@) || any_ends_with(files, "pyproject.toml"@) {
        Ok(python_config(files))
    } else if any_is(files, "index.html"@) {
        Ok(static_site_config())
    } else {
        Err(undetectable_error())
    }
}

/// `c` with its working directory set.
pub open spec fn with_directory(c: ProjectConfigModel, dir: Option<Seq<char>>) -> ProjectConfigModel {
    ProjectConfigModel { working_directory: dir, ..c }
}

/// `p` without trailing slashes (as `trim_end_matches('/')`).
pub open spec fn trim_slashes(p: Seq<char>) -> Seq<char>
    decreases p.len(),
{
    if p.len() > 0 && p.last() == '/' {
        trim_slashes(p.drop_last())
    } else {
        p
    }
}

/// The working directory a path filter names: the filter without trailing
/// slashes, unless nothing is left.
pub open spec fn working_directory_of(path_filter: Option<Seq<char>>) -> Option<Seq<char>> {
    match path_filter {
        Some(p) => if trim_slashes(p).len() > 0 {
            Some(trim_slashes(p))
        } else {
            None
        },
        None => None,
    }
}

/// A file of the repository that is a workflow definition.
pub open spec fn is_workflow_file(f: Seq<char>) -> bool {
    contains_seq(f, ".github/workflows/"@) && (ends_with_seq(f, ".yml"@) || ends_with_seq(
        f,
        ".yaml"@,
    ))
}

/// The files kept by a path filter: those that start with it.
pub open spec fn kept_by_filter(f: Seq<char>, path_filter: Option<Seq<char>>) -> bool {
    match path_filter {
        Some(p) => starts_with_seq(f, p),
        None => true,
    }
}


/// The files of `paths` that a path filter keeps, in order.
pub open spec fn files_kept(paths: Seq<Seq<char>>, path_filter: Option<Seq<char>>) -> Seq<Seq<char>>
    decreases paths.len(),
{
    if paths.len() == 0 {
        seq![]
    } else {
        let prev = files_kept(paths.drop_last(), path_filter);
        if kept_by_filter(paths.last(), path_filter) {
            prev.push(paths.last())
        } else {
            prev
        }
    }
}

/// The workflow definitions among `files`, in order.
pub open spec fn workflow_files_of(files: Seq<Seq<char>>) -> Seq<Seq<char>>
    decreases files.len(),
{
    if files.len() == 0 {
        seq![]
    } else {
        let prev = workflow_files_of(files.drop_last());
        if is_workflow_file(files.last()) {
            prev.push(files.last())
        } else {
            prev
        }
    }
}

/// The texts of a vector of strings.
pub open spec fn texts(v: Seq<String>) -> Seq<Seq<char>> {
    v.map_values(|s: String| s@)
}

/// The text of an optional string slice.
pub open spec fn opt_str_view(o: Option<&str>) -> Option<Seq<char>> {
    match o {
        Some(s) => Some(s@),
        None => None,
    }
}

/// An owned copy of `s`.
fn owned(s: &str) -> (r: String)
    ensures
        r@ == s@,
{
    s.to_owned()
}

/// A configuration with no working directory.
fn make_config(
    project_type: &str,
    build_image: &str,
    build_command: &str,
    cache_type: &str,
    runtime_image: &str,
    runtime_command: String,
    health_check_url: &str,
    runtime_port: u16,
) -> (r: ProjectConfig)
    ensures
        r@ == config_model(
            project_type@,
            build_image@,
            build_command@,
            cache_type@,
            runtime_image@,
            runtime_command@,
            health_check_url@,
            runtime_port,
        ),
{
    ProjectConfig {
        project_type: owned(project_type),
        build_image: owned(build_image),
        build_command: owned(build_command),
        cache_type: owned(cache_type),
        runtime_image: owned(runtime_image),
        runtime_command,
        health_check_url: owned(health_check_url),
        working_directory: None,
        runtime_port,
    }
}

/// Whether some file name ends with `suffix`.
fn any_file_ends_with(files: &Vec<String>, suffix: &str) -> (r: bool)
    ensures
        r == any_ends_with(texts(files@), suffix@),
{
    let ghost fs = texts(files@);
    let mut i: usize = 0;
    while i < files.len()
        invariant
            i <= files@.len(),
            fs == texts(files@),
            forall|j: int| 0 <= j < i ==> !ends_with_seq(#[trigger] fs[j], suffix@),
        decreases files@.len() - i,
    {
        assert(fs[i as int] == files@[i as int]@);
        if ends_with_str(chars(files[i].as_str()).as_slice(), suffix) {
            return true;
        }
        i = i + 1;
    }
    false
}

/// Whether some file name contains `part`.
fn any_file_contains(files: &Vec<String>, part: &str) -> (r: bool)
    ensures
        r == any_contains(texts(files@), part@),
{
    let ghost fs = texts(files@);
    let mut i: usize = 0;
    while i < files.len()
        invariant
            i <= files@.len(),
            fs == texts(files@),
            forall|j: int| 0 <= j < i ==> !contains_seq(#[trigger] fs[j], part@),
        decreases files@.len() - i,
    {
        assert(fs[i as int] == files@[i as int]@);
        if contains_str(chars(files[i].as_str()).as_slice(), part) {
            return true;
        }
        i = i + 1;
    }
    false
}

/// Whether some file name is `name`.
fn any_file_is(files: &Vec<String>, name: &str) -> (r: bool)
    ensures
        r == any_is(texts(files@), name@),
{
    let ghost fs = texts(files@);
    let mut i: usize = 0;
    while i < files.len()
        invariant
            i <= files@.len(),
            fs == texts(files@),
            forall|j: int| 0 <= j < i ==> #[trigger] fs[j] != name@,
        decreases files@.len() - i,
    {
        assert(fs[i as int] == files@[i as int]@);
        if str_eq(files[i].as_str(), name) {
            return true;
        }
        i = i + 1;
    }
    false
}

impl ProjectDetector {
    /// The configuration of a Node.js project without a workflow.
    pub fn detect_nodejs(files: &Vec<String>) -> (r: ProjectConfig)
        ensures
            r@ == nodejs_config(texts(files@)),
    {
        if any_file_ends_with(files, "index.html") || any_file_contains(files, "/public/") {
            make_config(
                "Node.js (Frontend)",
                "node:20",
                "npm install && npm run build && cp -r dist/* /output/ 2>/dev/null || cp -r build/* /output/ 2>/dev/null || echo 'Build output copied'",
                "npm",
                "nginx:alpine",
                owned("nginx -c /app/nginx.conf"),
                "/",
                80,
            )
        } else {
            make_config(
                "Node.js (Backend)",
                "node:20",
                "npm install && npm run build && cp -r dist/* /output/ && cp package*.json /output/",
                "npm",
                "node:20-slim",
                owned("node dist/index.js"),
                "/health",
                3000,
            )
        }
    }

    /// The configuration of a Gradle project.
    pub fn detect_gradle() -> (r: ProjectConfig)
        ensures
            r@ == gradle_config(),
    {
        make_config(
            "Gradle (Spring Boot)",
            "gradle:8-jdk17",
            "gradle clean build && find build/libs -name '*.jar' ! -name '*-plain.jar' -exec cp {} /output/app.jar \\;",
            "gradle",
            "eclipse-temurin:17-jre",
            owned("java -jar app.jar"),
            "/actuator/health",
            8080,
        )
    }

    /// The configuration of a Maven project.
    pub fn detect_maven() -> (r: ProjectConfig)
        ensures
            r@ == maven_config(),
    {
        make_config(
            "Maven (Spring Boot)",
            "maven:3.9-eclipse-temurin-17",
            "mvn clean package -DskipTests && cp target/*.jar /output/app.jar",
            "maven",
            "eclipse-temurin:17-jre",
            owned("java -jar app.jar"),
            "/actuator/health",
            8080,
        )
    }

    /// The configuration of a Rust project.
    pub fn detect_rust() -> (r: ProjectConfig)
        ensures
            r@ == rust_config(),
    {
        make_config(
            "Rust",
            "rust:1.75",
            "cargo build --release && find target/release -maxdepth 1 -type f -executable -exec cp {} /output/ \\;",
            "rust",
            "debian:bookworm-slim",
            owned("./app"),
            "/health",
            8080,
        )
    }

    /// The configuration of a Go project.
    pub fn detect_go() -> (r: ProjectConfig)
        ensures
            r@ == go_config(),
    {
        make_config(
            "Go",
            "golang:1.21",
            "go build -o app . && cp app /output/",
            "go",
            "debian:bookworm-slim",
            owned("./app"),
            "/health",
            8080,
        )
    }

    /// The configuration of a Python project.
    pub fn detect_python(files: &Vec<String>) -> (r: ProjectConfig)
        ensures
            r@ == python_config(texts(files@)),
    {
        let has_flask = any_file_contains(files, "flask");
        let has_django = any_file_contains(files, "django");
        let has_fastapi = any_file_contains(files, "fastapi");
        let runtime_command = if has_django {
            owned("python manage.py runserver 0.0.0.0:8000")
        } else if has_fastapi {
            owned("uvicorn main:app --host 0.0.0.0 --port 8000")
        } else if has_flask {
            owned("python app.py")
        } else {
            owned("python main.py")
        };
        make_config(
            "Python",
            "python:3.11",
            "pip install -r requirements.txt && cp -r . /output/",
            "pip",
            "python:3.11-slim",
            runtime_command,
            "/health",
            8000,
        )
    }

    /// The configuration of a prebuilt static site.
    pub fn detect_static_site() -> (r: ProjectConfig)
        ensures
            r@ == static_site_config(),
    {
        make_config(
            "Static Site (pre-built)",
            "alpine:latest",
            "cp -r . /output/",
            "none",
            "nginx:alpine",
            owned("nginx -c /app/nginx.conf"),
            "/",
            80,
        )
    }

    /// The configuration of a project with a Dockerfile.
    pub fn detect_from_dockerfile() -> (r: ProjectConfig)
        ensures
            r@ == dockerfile_config(),
    {
        make_config(
            "Dockerfile",
            "docker:24-cli",
            "docker build -t app .",
            "none",
            "app",
            owned(""),
            "/",
            8080,
        )
    }

    /// The configuration of a repository without workflows (see `fallback_config`).
    pub fn detect_from_files(files: &Vec<String>) -> (r: Result<ProjectConfig, String>)
        ensures
            match fallback_config(texts(files@)) {
                Ok(c) => r matches Ok(x) && x@ == c,
                Err(e) => r matches Err(x) && x@ == e,
            },
    {
        if any_file_ends_with(files, "Dockerfile") || any_file_ends_with(files, "dockerfile") {
            Ok(Self::detect_from_dockerfile())
        } else if any_file_ends_with(files, "package.json") {
            Ok(Self::detect_nodejs(files))
        } else if any_file_ends_with(files, "build.gradle") || any_file_ends_with(
            files,
            "build.gradle.kts",
        ) {
            Ok(Self::detect_gradle())
        } else if any_file_ends_with(files, "pom.xml") {
            Ok(Self::detect_maven())
        } else if any_file_ends_with(files, "Cargo.toml") {
            Ok(Self::detect_rust())
        } else if any_file_ends_with(files, "go.mod") {
            Ok(Self::detect_go())
        } else if any_file_ends_with(files, "requirements.txt") || any_file_ends_with(
            files,
            "pyproject.toml",
        ) {
            Ok(Self::detect_python(files))
        } else if any_file_is(files, "index.html") {
            Ok(Self::detect_static_site())
        } else {
            Err(owned("Unable to detect project type. Please configure manually."))
        }
    }
}


/// The workflow names tried first, best first.
pub open spec fn priority_names() -> Seq<Seq<char>> {
    seq!["build.yml"@, "deploy.yml"@, "ci.yml"@, "cd.yml"@, "main.yml"@]
}

/// The rank of a workflow path: the index of the first priority name it ends with.
pub open spec fn priority_of(f: Seq<char>) -> Option<nat> {
    if ends_with_seq(f, "build.yml"@) {
        Some(0)
    } else if ends_with_seq(f, "deploy.yml"@) {
        Some(1)
    } else if ends_with_seq(f, "ci.yml"@) {
        Some(2)
    } else if ends_with_seq(f, "cd.yml"@) {
        Some(3)
    } else if ends_with_seq(f, "main.yml"@) {
        Some(4)
    } else {
        None
    }
}

/// `a` comes before `b` in code point order (as `Ord` for strings).
pub open spec fn lex_lt(a: Seq<char>, b: Seq<char>) -> bool
    decreases a.len(),
{
    if a.len() == 0 {
        b.len() > 0
    } else if b.len() == 0 {
        false
    } else if a[0] != b[0] {
        (a[0] as u32) < (b[0] as u32)
    } else {
        lex_lt(a.drop_first(), b.drop_first())
    }
}

/// Workflow `a` is tried strictly before workflow `b`: ranked ones first, by
/// rank; unranked ones after, by name.
pub open spec fn tried_before(a: Seq<char>, b: Seq<char>) -> bool {
    match (priority_of(a), priority_of(b)) {
        (Some(x), Some(y)) => x < y,
        (Some(_), None) => true,
        (None, Some(_)) => false,
        (None, None) => lex_lt(a, b),
    }
}

/// Where `x` goes in `s`: before the first element it is tried before.
pub open spec fn insert_position(s: Seq<Seq<char>>, x: Seq<char>) -> nat
    decreases s.len(),
{
    if s.len() == 0 || tried_before(x, s[0]) {
        0
    } else {
        1 + insert_position(s.drop_first(), x)
    }
}

/// The workflows in the order they are tried (a stable sort by `tried_before`).
pub open spec fn sorted_workflows(s: Seq<Seq<char>>) -> Seq<Seq<char>>
    decreases s.len(),
{
    if s.len() == 0 {
        seq![]
    } else {
        let prev = sorted_workflows(s.drop_last());
        prev.insert(insert_position(prev, s.last()) as int, s.last())
    }
}

proof fn lemma_insert_position_bound(s: Seq<Seq<char>>, x: Seq<char>)
    ensures
        insert_position(s, x) <= s.len(),
    decreases s.len(),
{
    if s.len() > 0 {
        lemma_insert_position_bound(s.drop_first(), x);
    }
}

proof fn lemma_sorted_len(s: Seq<Seq<char>>)
    ensures
        sorted_workflows(s).len() == s.len(),
    decreases s.len(),
{
    if s.len() > 0 {
        lemma_sorted_len(s.drop_last());
        lemma_insert_position_bound(sorted_workflows(s.drop_last()), s.last());
    }
}

/// The rank of a workflow path (see `priority_of`).
fn priority_exec(f: &[char]) -> (r: Option<u8>)
    ensures
        match r {
            Some(k) => priority_of(f@) == Some(k as nat),
            None => priority_of(f@) is None,
        },
{
    if crate::text::ends_with_str(f, "build.yml") {
        Some(0)
    } else if crate::text::ends_with_str(f, "deploy.yml") {
        Some(1)
    } else if crate::text::ends_with_str(f, "ci.yml") {
        Some(2)
    } else if crate::text::ends_with_str(f, "cd.yml") {
        Some(3)
    } else if crate::text::ends_with_str(f, "main.yml") {
        Some(4)
    } else {
        None
    }
}

/// Whether `a` comes before `b` in code point order.
fn lex_less(a: &[char], b: &[char]) -> (r: bool)
    ensures
        r == lex_lt(a@, b@),
{
    let mut i: usize = 0;
    assert(a@.skip(0) =~= a@);
    assert(b@.skip(0) =~= b@);
    loop
        invariant
            i <= a@.len(),
            i <= b@.len(),
            lex_lt(a@, b@) == lex_lt(a@.skip(i as int), b@.skip(i as int)),
        decreases a@.len() - i,
    {
        if i == a.len() {
            return i < b.len();
        }
        if i == b.len() {
            return false;
        }
        let x = a[i];
        let y = b[i];
        assert(a@.skip(i as int)[0] == x);
        assert(b@.skip(i as int)[0] == y);
        if x != y {
            return (x as u32) < (y as u32);
        }
        assert(a@.skip(i as int).drop_first() =~= a@.skip(i + 1));
        assert(b@.skip(i as int).drop_first() =~= b@.skip(i + 1));
        i = i + 1;
    }
}

/// Whether workflow `a` is tried strictly before workflow `b`.
fn tried_before_exec(a: &[char], b: &[char]) -> (r: bool)
    ensures
        r == tried_before(a@, b@),
{
    match (priority_exec(a), priority_exec(b)) {
        (Some(x), Some(y)) => x < y,
        (Some(_), None) => true,
        (None, Some(_)) => false,
        (None, None) => lex_less(a, b),
    }
}

impl ProjectDetector {
    /// The working directory a path filter names (see `working_directory_of`).
    pub fn working_directory(path_filter: Option<&str>) -> (r: Option<String>)
        ensures
            opt_view(r) == working_directory_of(opt_str_view(path_filter)),
    {
        match path_filter {
            Some(p) => {
                let v = chars(p);
                let mut n = v.len();
                assert(v@ =~= v@.take(v@.len() as int));
                while n > 0 && v[n - 1] == '/'
                    invariant
                        n <= v@.len(),
                        trim_slashes(v@) == trim_slashes(v@.take(n as int)),
                    decreases n,
                {
                    assert(v@.take(n as int).drop_last() =~= v@.take(n - 1));
                    n = n - 1;
                }
                assert(v@ =~= v@.take(v@.len() as int));
                if n > 0 {
                    let t = crate::text::slice_range(v.as_slice(), 0, n);
                    assert(t@ =~= v@.take(n as int));
                    Some(from_chars(t.as_slice()))
                } else {
                    None
                }
            },
            None => None,
        }
    }

    /// The repository paths a path filter keeps (see `files_kept`).
    pub fn filter_files(paths: &Vec<String>, path_filter: Option<&str>) -> (r: Vec<String>)
        ensures
            texts(r@) == files_kept(texts(paths@), opt_str_view(path_filter)),
    {
        let ghost ps = texts(paths@);
        let ghost pf = opt_str_view(path_filter);
        let prefix: Option<Vec<char>> = match path_filter {
            Some(p) => Some(chars(p)),
            None => None,
        };
        let mut out: Vec<String> = Vec::new();
        let mut i: usize = 0;
        assert(ps.take(0) =~= Seq::<Seq<char>>::empty());
        assert(texts(out@) =~= Seq::<Seq<char>>::empty());
        while i < paths.len()
            invariant
                i <= paths@.len(),
                ps == texts(paths@),
                pf == opt_str_view(path_filter),
                match prefix {
                    Some(v) => pf == Some(v@),
                    None => pf is None,
                },
                texts(out@) == files_kept(ps.take(i as int), pf),
            decreases paths@.len() - i,
        {
            assert(ps.take(i + 1).drop_last() =~= ps.take(i as int));
            assert(ps.take(i + 1).last() == paths@[i as int]@);
            let keep = match &prefix {
                Some(v) => starts_with(chars(paths[i].as_str()).as_slice(), v.as_slice()),
                None => true,
            };
            if keep {
                let ghost before = texts(out@);
                out.push(paths[i].clone());
                assert(texts(out@) =~= before.push(paths@[i as int]@));
            }
            i = i + 1;
        }
        assert(ps.take(ps.len() as int) =~= ps);
        out
    }

    /// The workflow definitions among the files (see `workflow_files_of`).
    pub fn workflow_files(files: &Vec<String>) -> (r: Vec<String>)
        ensures
            texts(r@) == workflow_files_of(texts(files@)),
    {
        let ghost fs = texts(files@);
        let mut out: Vec<String> = Vec::new();
        let mut i: usize = 0;
        assert(fs.take(0) =~= Seq::<Seq<char>>::empty());
        assert(texts(out@) =~= Seq::<Seq<char>>::empty());
        while i < files.len()
            invariant
                i <= files@.len(),
                fs == texts(files@),
                texts(out@) == workflow_files_of(fs.take(i as int)),
            decreases files@.len() - i,
        {
            assert(fs.take(i + 1).drop_last() =~= fs.take(i as int));
            assert(fs.take(i + 1).last() == files@[i as int]@);
            let f = chars(files[i].as_str());
            if contains_str(f.as_slice(), ".github/workflows/") && (ends_with_str(f.as_slice(), ".yml")
                || ends_with_str(f.as_slice(), ".yaml")) {
                let ghost before = texts(out@);
                out.push(files[i].clone());
                assert(texts(out@) =~= before.push(files@[i as int]@));
            }
            i = i + 1;
        }
        assert(fs.take(fs.len() as int) =~= fs);
        out
    }

    /// The workflows in the order they are tried (see `sorted_workflows`).
    pub fn sort_workflows(files: &Vec<String>) -> (r: Vec<String>)
        ensures
            texts(r@) == sorted_workflows(texts(files@)),
    {
        let ghost fs = texts(files@);
        let mut out: Vec<String> = Vec::new();
        let mut i: usize = 0;
        assert(fs.take(0) =~= Seq::<Seq<char>>::empty());
        assert(texts(out@) =~= Seq::<Seq<char>>::empty());
        while i < files.len()
            invariant
                i <= files@.len(),
                fs == texts(files@),
                texts(out@) == sorted_workflows(fs.take(i as int)),
            decreases files@.len() - i,
        {
            assert(fs.take(i + 1).drop_last() =~= fs.take(i as int));
            assert(fs.take(i + 1).last() == files@[i as int]@);
            let x = chars(files[i].as_str());
            let ghost so = texts(out@);
            let mut p: usize = 0;
            assert(so.skip(0) =~= so);
            while p < out.len() && !tried_before_exec(x.as_slice(), chars(out[p].as_str()).as_slice())
                invariant
                    p <= out@.len(),
                    so == texts(out@),
                    insert_position(so, x@) == p + insert_position(so.skip(p as int), x@),
                decreases out@.len() - p,
            {
                assert(so.skip(p as int)[0] == out@[p as int]@);
                assert(so.skip(p as int).drop_first() =~= so.skip(p + 1));
                p = p + 1;
            }
            proof {
                if p < out@.len() {
                    assert(so.skip(p as int)[0] == out@[p as int]@);
                }
            }
            out.insert(p, files[i].clone());
            assert(texts(out@) =~= so.insert(p as int, files@[i as int]@));
            i = i + 1;
        }
        assert(fs.take(fs.len() as int) =~= fs);
        out
    }
}


/// The configuration a workflow document yields for `branch`: none when it
/// does not run for the branch or sets up no runtime.
pub open spec fn workflow_config(doc: YamlValue, branch: Seq<char>) -> Option<ProjectConfigModel> {
    if active_for_branch(doc, branch) {
        let info = workflow_info(doc);
        match first_runtime(info.setup_actions) {
            Some(rt) => match config_of(plan_of(info.run_commands, rt)) {
                Ok(c) => Some(c),
                Err(_) => None,
            },
            None => None,
        }
    } else {
        None
    }
}

/// The configuration a workflow text yields for `branch`: none when it is
/// not YAML, or its document yields none.
pub open spec fn workflow_text_config(content: Seq<char>, branch: Seq<char>) -> Option<ProjectConfigModel> {
    match yaml_parsed(content) {
        Some(doc) => workflow_config(doc, branch),
        None => None,
    }
}

/// The error when workflows exist but none yields a configuration.
pub open spec fn workflow_failure_error() -> Seq<char> {
    "워크플로우 파일이 있지만 설정을 생성할 수 없습니다: 워크플로우에서 프로젝트 설정을 생성할 수 없습니다. setup-node, setup-java 등의 액션이 필요합니다."@
}

/// At most the first five of `s`.
pub open spec fn first_five(s: Seq<Seq<char>>) -> Seq<Seq<char>> {
    if s.len() <= 5 {
        s
    } else {
        s.take(5)
    }
}

/// The first step of detection for a repository whose paths are `paths`.
pub enum Detection {
    /// Fetch these workflow files in order; the first that yields a
    /// configuration decides.
    TryWorkflows(Vec<String>),
    /// The file list decides.
    Decided(Result<ProjectConfig, String>),
}

/// The outcome of the first step: the workflows to try (at most five, in
/// the order they are tried) when the kept files hold any, else the
/// configuration the files show, with the working directory of the filter.
pub open spec fn detection_start_ok(
    r: Detection,
    paths: Seq<Seq<char>>,
    path_filter: Option<Seq<char>>,
) -> bool {
    let files = files_kept(paths, path_filter);
    let wfs = workflow_files_of(files);
    if wfs.len() > 0 {
        r matches Detection::TryWorkflows(v) && texts(v@) == first_five(sorted_workflows(wfs))
    } else {
        r matches Detection::Decided(res) && match fallback_config(files) {
            Ok(c) => res matches Ok(x) && x@ == with_directory(
                c,
                working_directory_of(path_filter),
            ),
            Err(e) => res matches Err(x) && x@ == e,
        }
    }
}

impl ProjectDetector {
    /// Sets the working directory of a configuration.
    pub fn with_working_directory(config: ProjectConfig, dir: Option<String>) -> (r: ProjectConfig)
        ensures
            r@ == with_directory(config@, opt_view(dir)),
    {
        ProjectConfig { working_directory: dir, ..config }
    }

    /// The configuration a fetched workflow text yields (see `workflow_text_config`).
    pub fn config_from_workflow(content: &str, branch: &str) -> (r: Option<ProjectConfig>)
        ensures
            match workflow_text_config(content@, branch@) {
                Some(c) => r matches Some(x) && x@ =~~= c,
                None => r is None,
            },
    {
        match WorkflowParser::is_active_for_branch(content, branch) {
            Ok(true) => {},
            _ => return None,
        }
        let info = match WorkflowParser::parse(content) {
            Ok(i) => i,
            Err(_) => return None,
        };
        let plan = match WorkflowInterpreter::interpret(&info) {
            Ok(p) => p,
            Err(_) => return None,
        };
        match ConfigBuilder::build(&plan) {
            Ok(c) => Some(c),
            Err(_) => None,
        }
    }

    /// The first step of detecting how to build a repository whose tree
    /// holds `paths` (see `detection_start_ok`).
    pub fn start(paths: &Vec<String>, path_filter: Option<&str>) -> (r: Detection)
        ensures
            detection_start_ok(r, texts(paths@), opt_str_view(path_filter)),
    {
        let dir = Self::working_directory(path_filter);
        let files = Self::filter_files(paths, path_filter);
        let wfs = Self::workflow_files(&files);
        if wfs.len() > 0 {
            let sorted = Self::sort_workflows(&wfs);
            proof {
                lemma_sorted_len(texts(wfs@));
            }
            let mut out: Vec<String> = Vec::new();
            let mut i: usize = 0;
            while i < sorted.len() && i < 5
                invariant
                    i <= sorted@.len(),
                    i <= 5,
                    texts(out@) == texts(sorted@).take(i as int),
                decreases sorted@.len() - i,
            {
                let ghost before = texts(out@);
                out.push(sorted[i].clone());
                assert(texts(out@) =~= before.push(sorted@[i as int]@));
                assert(texts(sorted@).take(i + 1) =~= texts(sorted@).take(i as int).push(
                    sorted@[i as int]@,
                ));
                i = i + 1;
            }
            assert(texts(sorted@).len() <= 5 ==> texts(sorted@).take(i as int) =~= texts(sorted@));
            Detection::TryWorkflows(out)
        } else {
            match Self::detect_from_files(&files) {
                Ok(c) => Detection::Decided(Ok(Self::with_working_directory(c, dir))),
                Err(e) => Detection::Decided(Err(e)),
            }
        }
    }

    /// The outcome once the workflows were tried: the configuration the first
    /// successful one yielded, with the working directory of the filter, or
    /// the error that workflows exist but none yields one.
    pub fn finish_with_workflows(found: Option<ProjectConfig>, path_filter: Option<&str>) -> (r: Result<ProjectConfig, String>)
        ensures
            match found {
                Some(c) => r matches Ok(x) && x@ == with_directory(
                    c@,
                    working_directory_of(opt_str_view(path_filter)),
                ),
                None => r matches Err(e) && e@ == workflow_failure_error(),
            },
    {
        match found {
            Some(c) => Ok(Self::with_working_directory(c, Self::working_directory(path_filter))),
            None => Err(owned("워크플로우 파일이 있지만 설정을 생성할 수 없습니다: 워크플로우에서 프로젝트 설정을 생성할 수 없습니다. setup-node, setup-java 등의 액션이 필요합니다.")),
        }
    }
}

/// A Node.js repository without workflows that holds an `index.html` (or a
/// `public` folder) is configured as a frontend: built with node, served by
/// nginx on port 80.
pub proof fn law_node_repository_with_page_is_frontend(files: Seq<Seq<char>>, page: int, manifest: int)
    requires
        0 <= page < files.len(),
        ends_with_seq(files[page], "index.html"@) || contains_seq(files[page], "/public/"@),
        0 <= manifest < files.len(),
        ends_with_seq(files[manifest], "package.json"@),
        forall|i: int|
            0 <= i < files.len() ==> !ends_with_seq(#[trigger] files[i], "Dockerfile"@) && !ends_with_seq(
                files[i],
                "dockerfile"@,
            ),
    ensures
        fallback_config(files) matches Ok(c) && c.project_type == "Node.js (Frontend)"@ && c.build_image
            == "node:20"@ && c.runtime_image == "nginx:alpine"@ && c.runtime_command
            == "nginx -c /app/nginx.conf"@ && c.runtime_port == 80,
{
    assert(any_ends_with(files, "package.json"@));
    assert(!any_ends_with(files, "Dockerfile"@));
    assert(!any_ends_with(files, "dockerfile"@));
    if ends_with_seq(files[page], "index.html"@) {
        assert(any_ends_with(files, "index.html"@));
    } else {
        assert(any_contains(files, "/public/"@));
    }
}

} // verus!
