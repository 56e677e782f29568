//! The build of a project: the shell command its build container runs, the
//! nginx configuration of static sites, and the checks on what it produced.
use vstd::prelude::*;
use crate::docker::{json_assignments, push_json_assignments, texts};
use crate::models::Project;
use crate::events::Event;
use crate::workflow::opt_view;
use crate::text::{
    append_chars, append_str, chars, contains_seq, contains_str, ends_with_seq, ends_with_str,
    from_chars, i64_text, int_text, join, join_seq, lowercase, starts_with_seq, starts_with_str,
    str_eq, to_lowercase, views, lemma_views_push,
};

verus! {

/// `s` with every occurrence of `from` (scanned left to right, not
/// overlapping) replaced by `to` (as `str::replace`, for a non-empty `from`).
pub open spec fn replace_all(s: Seq<char>, from: Seq<char>, to: Seq<char>) -> Seq<char>
    decreases s.len(),
{
    if from.len() == 0 || s.len() < from.len() {
        s
    } else if s.take(from.len() as int) == from {
        to + replace_all(s.skip(from.len() as int), from, to)
    } else {
        seq![s[0]] + replace_all(s.drop_first(), from, to)
    }
}

/// The repository address the build clones: with the GitHub token, when
/// there is one, written into a `https://github.com/` address.
pub open spec fn authenticated_repo_of(repo: Seq<char>, token: Option<Seq<char>>) -> Seq<char> {
    match token {
        Some(t) => if starts_with_seq(repo, "https://github.com/"@) {
            replace_all(repo, "https://github.com/"@, "https://"@ + t + "@github.com/"@)
        } else {
            repo
        },
        None => repo,
    }
}

/// The subfolder the build runs in, as a path suffix.
pub open spec fn working_dir_suffix(working_directory: Option<Seq<char>>) -> Seq<char> {
    match working_directory {
        Some(w) => "/"@ + w,
        None => seq![],
    }
}

/// The build's environment: CI settings, then the project's build variables.
pub open spec fn build_env_of(build_env_vars: Option<Seq<char>>) -> Seq<Seq<char>> {
    let base = seq!["CI=true"@, "SKIP_PREFLIGHT_CHECK=true"@];
    match build_env_vars {
        Some(t) => base + json_assignments(t, true),
        None => base,
    }
}

/// Each assignment as an `export`.
pub open spec fn exports_of(env: Seq<Seq<char>>) -> Seq<Seq<char>> {
    env.map_values(|v: Seq<char>| "export "@ + v)
}

/// The command that copies a Gradle build's jar.
pub open spec fn gradle_copy() -> Seq<char> {
    "JAR_FILE=$(find build/libs -name '*.jar' ! -name '*-plain.jar' | head -1) && if [ -n \"$JAR_FILE\" ]; then cp \"$JAR_FILE\" /output/app.jar; else echo 'ERROR: No JAR file found in build/libs' >&2 && exit 1; fi"@
}

/// The command that copies a Maven build's jar.
pub open spec fn maven_copy() -> Seq<char> {
    "JAR_FILE=$(find target -name '*.jar' ! -name '*-sources.jar' ! -name '*-javadoc.jar' | head -1) && if [ -n \"$JAR_FILE\" ]; then cp \"$JAR_FILE\" /output/app.jar; else echo 'ERROR: No JAR file found in target' >&2 && exit 1; fi"@
}

/// The command that copies a Node.js build's output folder.
pub open spec fn node_copy() -> Seq<char> {
    "if [ -d dist ]; then cp -r dist/. /output/; elif [ -d build ]; then cp -r build/. /output/; elif [ -d out ]; then cp -r out/. /output/; elif [ -d .next ]; then cp -r .next/. /output/; else echo 'ERROR: No build output directory found (dist/, build/, out/, or .next/)' >&2 && exit 1; fi"@
}

/// The command that copies the build output, by the kind of build the
/// image and command show; none when the command already copies to `/output/`.
pub open spec fn output_copy_of(build_image: Seq<char>, build_command: Seq<char>) -> Seq<char> {
    let image = lowercase(build_image);
    let cmd = lowercase(build_command);
    let is_node = contains_seq(image, "node"@) || contains_seq(cmd, "npm"@) || contains_seq(cmd, "yarn"@)
        || contains_seq(cmd, "pnpm"@);
    let is_gradle = contains_seq(image, "gradle"@) || contains_seq(cmd, "gradle"@);
    let is_maven = contains_seq(image, "maven"@) || contains_seq(cmd, "mvn"@);
    if contains_seq(build_command, "/output/"@) {
        seq![]
    } else if is_gradle {
        gradle_copy()
    } else if is_maven {
        maven_copy()
    } else if is_node {
        node_copy()
    } else {
        "cp -r . /output/"@
    }
}

/// The whole command of a build container: clone the branch, enter the
/// working folder, export the environment, build, then copy the output.
pub open spec fn full_build_command_of(
    branch: Seq<char>,
    repo: Seq<char>,
    working_dir: Seq<char>,
    exports: Seq<char>,
    build_command: Seq<char>,
    copy: Seq<char>,
) -> Seq<char> {
    let base = "git clone --depth 1 --branch "@ + branch + " "@ + repo + " /workspace && cd /workspace"@
        + working_dir + " && "@ + exports + " && "@ + build_command;
    if copy.len() == 0 {
        base
    } else {
        base + " && "@ + copy
    }
}

/// The command a project's build container runs, given the GitHub token.
pub open spec fn build_command_of(p: Project, token: Option<Seq<char>>) -> Seq<char> {
    full_build_command_of(
        p.branch@,
        authenticated_repo_of(p.repo@, token),
        working_dir_suffix(
            match p.working_directory {
                Some(w) => Some(w@),
                None => None,
            },
        ),
        join_seq(
            exports_of(
                build_env_of(
                    match p.build_env_vars {
                        Some(t) => Some(t@),
                        None => None,
                    },
                ),
            ),
            " && "@,
        ),
        p.build_command@,
        output_copy_of(p.build_image@, p.build_command@),
    )
}

/// The nginx configuration of a static site served on `port`.
pub open spec fn nginx_config_of(port: u16) -> Seq<char> {
    "\ndaemon off;\nworker_processes 1;\nerror_log /dev/stdout info;\n\nevents {\n    worker_connections 1024;\n}\n\nhttp {\n    include /etc/nginx/mime.types;\n    default_type application/octet-stream;\n    access_log /dev/stdout;\n\n    server {\n        listen "@
        + int_text(port as int)
        + ";\n        root /app;\n        index index.html;\n\n        location / {\n            try_files $uri $uri/ /index.html;\n        }\n    }\n}\n"@
}

/// Composes build commands.
pub struct BuildPlan;

impl BuildPlan {
    /// `s` with every occurrence of `from` replaced by `to`.
    pub fn replace_all(s: &[char], from: &[char], to: &[char]) -> (r: Vec<char>)
        ensures
            r@ == replace_all(s@, from@, to@),
    {
        let mut out: Vec<char> = Vec::new();
        if from.len() == 0 {
            append_chars(&mut out, s);
            return out;
        }
        let n = s.len();
        let mut i: usize = 0;
        assert(s@.skip(0) =~= s@);
        while i < n
            invariant
                n == s@.len(),
                i <= n,
                from@.len() > 0,
                replace_all(s@, from@, to@) == out@ + replace_all(s@.skip(i as int), from@, to@),
            decreases n - i,
        {
            let ghost rest = s@.skip(i as int);
            if n - i >= from.len() && crate::text::occurs_at_exec(s, from, i) {
                assert(rest.take(from@.len() as int) =~= from@);
                assert(rest.skip(from@.len() as int) =~= s@.skip(i + from@.len()));
                append_chars(&mut out, to);
                i = i + from.len();
            } else {
                if n - i >= from.len() {
                    assert(rest.take(from@.len() as int) != from@) by {
                        if rest.take(from@.len() as int) == from@ {
                            assert(s@.subrange(i as int, i + from@.len()) =~= rest.take(from@.len() as int));
                        }
                    }
                    assert(rest.drop_first() =~= s@.skip(i + 1));
                    out.push(s[i]);
                    i = i + 1;
                } else {
                    assert(replace_all(rest, from@, to@) == rest);
                    append_chars(&mut out, crate::text::slice_range(s, i, n).as_slice());
                    assert(s@.subrange(i as int, n as int) =~= rest);
                    assert(s@.skip(n as int) =~= Seq::<char>::empty());
                    i = n;
                }
            }
        }
        assert(s@.skip(n as int) =~= Seq::<char>::empty());
        out
    }

    /// The repository address the build clones (see `authenticated_repo_of`).
    pub fn authenticated_repo(repo: &str, token: Option<&str>) -> (r: String)
        ensures
            r@ == authenticated_repo_of(
                repo@,
                match token {
                    Some(t) => Some(t@),
                    None => None,
                },
            ),
    {
        match token {
            Some(t) => {
                let rv = chars(repo);
                if starts_with_str(rv.as_slice(), "https://github.com/") {
                    let mut to = chars("https://");
                    append_str(&mut to, t);
                    append_str(&mut to, "@github.com/");
                    let from = chars("https://github.com/");
                    let r = Self::replace_all(rv.as_slice(), from.as_slice(), to.as_slice());
                    from_chars(r.as_slice())
                } else {
                    repo.to_owned()
                }
            },
            None => repo.to_owned(),
        }
    }

    /// The build's environment (see `build_env_of`).
    pub fn build_env(build_env_vars: Option<&str>) -> (r: Vec<String>)
        ensures
            texts(r@) == build_env_of(
                match build_env_vars {
                    Some(t) => Some(t@),
                    None => None,
                },
            ),
    {
        let mut out: Vec<String> = Vec::new();
        out.push("CI=true".to_owned());
        out.push("SKIP_PREFLIGHT_CHECK=true".to_owned());
        assert(texts(out@) =~= seq!["CI=true"@, "SKIP_PREFLIGHT_CHECK=true"@]);
        match build_env_vars {
            Some(t) => push_json_assignments(&mut out, t, true),
            None => {},
        }
        out
    }

    /// The environment as `export` commands joined with ` && `.
    pub fn env_exports(env: &Vec<String>) -> (r: String)
        ensures
            r@ == join_seq(exports_of(texts(env@)), " && "@),
    {
        let mut parts: Vec<Vec<char>> = Vec::new();
        let mut i: usize = 0;
        while i < env.len()
            invariant
                i <= env@.len(),
                views(parts@) == exports_of(texts(env@)).take(i as int),
            decreases env@.len() - i,
        {
            let mut e = chars("export ");
            append_str(&mut e, env[i].as_str());
            proof {
                lemma_views_push(parts@, e);
                assert(exports_of(texts(env@)).take(i + 1) =~= exports_of(texts(env@)).take(
                    i as int,
                ).push(e@));
            }
            parts.push(e);
            i = i + 1;
        }
        assert(exports_of(texts(env@)).take(env@.len() as int) =~= exports_of(texts(env@)));
        from_chars(join(&parts, " && ").as_slice())
    }

    /// The command that copies the build output (see `output_copy_of`).
    pub fn output_copy_command(build_image: &str, build_command: &str) -> (r: String)
        ensures
            r@ == output_copy_of(build_image@, build_command@),
    {
        let image = to_lowercase(chars(build_image).as_slice());
        let cmd = to_lowercase(chars(build_command).as_slice());
        let is_node = contains_str(image.as_slice(), "node") || contains_str(cmd.as_slice(), "npm")
            || contains_str(cmd.as_slice(), "yarn") || contains_str(cmd.as_slice(), "pnpm");
        let is_gradle = contains_str(image.as_slice(), "gradle") || contains_str(cmd.as_slice(), "gradle");
        let is_maven = contains_str(image.as_slice(), "maven") || contains_str(cmd.as_slice(), "mvn");
        if contains_str(chars(build_command).as_slice(), "/output/") {
            return String::new();
        }
        let s = if is_gradle {
            "JAR_FILE=$(find build/libs -name '*.jar' ! -name '*-plain.jar' | head -1) && if [ -n \"$JAR_FILE\" ]; then cp \"$JAR_FILE\" /output/app.jar; else echo 'ERROR: No JAR file found in build/libs' >&2 && exit 1; fi"
        } else if is_maven {
            "JAR_FILE=$(find target -name '*.jar' ! -name '*-sources.jar' ! -name '*-javadoc.jar' | head -1) && if [ -n \"$JAR_FILE\" ]; then cp \"$JAR_FILE\" /output/app.jar; else echo 'ERROR: No JAR file found in target' >&2 && exit 1; fi"
        } else if is_node {
            "if [ -d dist ]; then cp -r dist/. /output/; elif [ -d build ]; then cp -r build/. /output/; elif [ -d out ]; then cp -r out/. /output/; elif [ -d .next ]; then cp -r .next/. /output/; else echo 'ERROR: No build output directory found (dist/, build/, out/, or .next/)' >&2 && exit 1; fi"
        } else {
            "cp -r . /output/"
        };
        s.to_owned()
    }

    /// The command a project's build container runs (see `build_command_of`).
    pub fn full_build_command(project: &Project, github_token: Option<&str>) -> (r: String)
        ensures
            r@ == build_command_of(
                *project,
                match github_token {
                    Some(t) => Some(t@),
                    None => None,
                },
            ),
    {
        let repo = Self::authenticated_repo(project.repo.as_str(), github_token);
        let env = Self::build_env(
            match &project.build_env_vars {
                Some(t) => Some(t.as_str()),
                None => None,
            },
        );
        let exports = Self::env_exports(&env);
        let copy = Self::output_copy_command(project.build_image.as_str(), project.build_command.as_str());
        let ghost wd = working_dir_suffix(opt_view(project.working_directory));
        let mut v = chars("git clone --depth 1 --branch ");
        append_str(&mut v, project.branch.as_str());
        append_str(&mut v, " ");
        append_str(&mut v, repo.as_str());
        append_str(&mut v, " /workspace && cd /workspace");
        let ghost before_wd = v@;
        match &project.working_directory {
            Some(w) => {
                append_str(&mut v, "/");
                append_str(&mut v, w.as_str());
                assert(v@ =~= before_wd + wd);
            },
            None => {
                assert(v@ =~= before_wd + wd);
            },
        }
        append_str(&mut v, " && ");
        append_str(&mut v, exports.as_str());
        append_str(&mut v, " && ");
        append_str(&mut v, project.build_command.as_str());
        if copy.as_str().unicode_len() > 0 {
            append_str(&mut v, " && ");
            append_str(&mut v, copy.as_str());
        }
        assert(v@ =~= build_command_of(
            *project,
            match github_token {
                Some(t) => Some(t@),
                None => None,
            },
        ));
        from_chars(v.as_slice())
    }

    /// Whether the project is served by nginx and needs its configuration.
    pub fn needs_nginx_config(runtime_image: &str) -> (r: bool)
        ensures
            r == contains_seq(runtime_image@, "nginx"@),
    {
        contains_str(chars(runtime_image).as_slice(), "nginx")
    }

    /// The nginx configuration of a static site (see `nginx_config_of`).
    pub fn nginx_config(port: u16) -> (r: String)
        ensures
            r@ == nginx_config_of(port),
    {
        let mut v = chars(
            "\ndaemon off;\nworker_processes 1;\nerror_log /dev/stdout info;\n\nevents {\n    worker_connections 1024;\n}\n\nhttp {\n    include /etc/nginx/mime.types;\n    default_type application/octet-stream;\n    access_log /dev/stdout;\n\n    server {\n        listen ",
        );
        append_chars(&mut v, i64_text(port as i64).as_slice());
        append_str(
            &mut v,
            ";\n        root /app;\n        index index.html;\n\n        location / {\n            try_files $uri $uri/ /index.html;\n        }\n    }\n}\n",
        );
        from_chars(v.as_slice())
    }
}


/// An entry of a build's output folder.
#[derive(Debug, Clone)]
pub struct OutputEntry {
    pub name: String,
    /// Its size in bytes, when its metadata could be read.
    pub size: Option<u64>,
    /// It was modified after the build started (false when that is unknown).
    pub modified_after_start: bool,
}

/// The total size of the entries whose size is known.
pub open spec fn total_size(es: Seq<OutputEntry>) -> int
    decreases es.len(),
{
    if es.len() == 0 {
        0
    } else {
        total_size(es.drop_last()) + match es.last().size {
            Some(n) => n as int,
            None => 0,
        }
    }
}

/// Some entry is named `name`.
pub open spec fn has_entry(es: Seq<OutputEntry>, name: Seq<char>) -> bool {
    exists|i: int| 0 <= i < es.len() && (#[trigger] es[i]).name@ == name
}

/// Some entry is a jar.
pub open spec fn has_jar(es: Seq<OutputEntry>) -> bool {
    exists|i: int| 0 <= i < es.len() && ends_with_seq((#[trigger] es[i]).name@, ".jar"@)
}

/// Some entry is new: modified during the build, or the nginx configuration
/// the build itself wrote.
pub open spec fn has_recent(es: Seq<OutputEntry>) -> bool {
    exists|i: int|
        0 <= i < es.len() && ((#[trigger] es[i]).modified_after_start || es[i].name@
            == "nginx.conf"@)
}

/// A runtime image that runs a JVM.
pub open spec fn is_jvm_runtime(runtime_lower: Seq<char>) -> bool {
    contains_seq(runtime_lower, "jre"@) || contains_seq(runtime_lower, "java"@) || contains_seq(
        runtime_lower,
        "openjdk"@,
    )
}

/// The least total output size a project's runtime calls for.
pub open spec fn min_output_size(runtime_lower: Seq<char>) -> int {
    if contains_seq(runtime_lower, "nginx"@) {
        100
    } else if is_jvm_runtime(runtime_lower) {
        1000
    } else {
        50
    }
}

/// A JVM project: built with Gradle or Maven, run on a JVM.
pub open spec fn is_jvm_project(build_image: Seq<char>, runtime_image: Seq<char>) -> bool {
    (contains_seq(lowercase(build_image), "gradle"@) || contains_seq(lowercase(build_image), "maven"@))
        && is_jvm_runtime(lowercase(runtime_image))
}

/// The checks on a build's output, in order: something was produced;
/// something is new; the total size is enough for the runtime; a static
/// site has an `index.html` (at the top or in a usual subfolder); a JVM
/// project has a jar. `Ok(true)` asks for `app.jar`'s header to be checked.
pub open spec fn output_check(
    es: Seq<OutputEntry>,
    build_image: Seq<char>,
    runtime_image: Seq<char>,
    index_in_subfolder: bool,
    app_jar_exists: bool,
) -> Result<bool, Seq<char>> {
    let rt = lowercase(runtime_image);
    let total = total_size(es);
    let min = min_output_size(rt);
    if es.len() == 0 {
        Err("Output directory is empty - build produced no files"@)
    } else if !has_recent(es) {
        Err(
            "No files were modified during this build. Output may contain stale artifacts from a previous build."@,
        )
    } else if total < min {
        Err(
            "Build output too small ("@ + int_text(total) + " bytes). Expected at least "@ + int_text(min)
                + " bytes for this project type."@,
        )
    } else if contains_seq(rt, "nginx"@) && !has_entry(es, "index.html"@) && !index_in_subfolder {
        Err(
            "Static web app build missing index.html. Found "@ + int_text(es.len() as int) + " files ("@
                + int_text(total) + " bytes) but no index.html"@,
        )
    } else if is_jvm_project(build_image, runtime_image) {
        if !app_jar_exists && !has_jar(es) {
            Err("Java project build missing JAR file. Expected app.jar in output directory."@)
        } else {
            Ok(app_jar_exists)
        }
    } else {
        Ok(false)
    }
}

/// A jar starts with the ZIP signature.
pub open spec fn jar_header_ok(content: Seq<u8>) -> bool {
    content.len() >= 4 && content[0] == 0x50 && content[1] == 0x4b && content[2] == 0x03 && content[3]
        == 0x04
}

impl BuildPlan {
    /// The checks on a build's output (see `output_check`); the entries'
    /// sizes must add up within 64 bits.
    pub fn validate_build_output(
        entries: &Vec<OutputEntry>,
        build_image: &str,
        runtime_image: &str,
        index_in_subfolder: bool,
        app_jar_exists: bool,
    ) -> (r: Result<bool, String>)
        requires
            total_size(entries@) <= u64::MAX,
        ensures
            match output_check(entries@, build_image@, runtime_image@, index_in_subfolder, app_jar_exists) {
                Ok(b) => r == Ok::<bool, String>(b),
                Err(e) => r matches Err(x) && x@ == e,
            },
    {
        let n = entries.len();
        let mut total: u64 = 0;
        let mut has_index = false;
        let mut jar = false;
        let mut recent = false;
        let mut i: usize = 0;
        assert(entries@.take(0) =~= Seq::<OutputEntry>::empty());
        while i < n
            invariant
                n == entries@.len(),
                i <= n,
                total_size(entries@) <= u64::MAX,
                total == total_size(entries@.take(i as int)),
                has_index == exists|j: int| 0 <= j < i && (#[trigger] entries@[j]).name@ == "index.html"@,
                jar == exists|j: int| 0 <= j < i && ends_with_seq((#[trigger] entries@[j]).name@, ".jar"@),
                recent == exists|j: int|
                    0 <= j < i && ((#[trigger] entries@[j]).modified_after_start || entries@[j].name@
                        == "nginx.conf"@),
            decreases n - i,
        {
            proof {
                assert(entries@.take(i + 1).drop_last() =~= entries@.take(i as int));
                lemma_total_size_prefix(entries@, i + 1);
            }
            let e = &entries[i];
            match e.size {
                Some(sz) => {
                    total = total + sz;
                },
                None => {},
            }
            if e.modified_after_start {
                recent = true;
            }
            if str_eq(e.name.as_str(), "index.html") {
                has_index = true;
            }
            if ends_with_str(chars(e.name.as_str()).as_slice(), ".jar") {
                jar = true;
            }
            if str_eq(e.name.as_str(), "nginx.conf") {
                recent = true;
            }
            i = i + 1;
        }
        assert(entries@.take(n as int) =~= entries@);
        if n == 0 {
            return Err("Output directory is empty - build produced no files".to_owned());
        }
        if !recent {
            return Err(
                "No files were modified during this build. Output may contain stale artifacts from a previous build.".to_owned(),
            );
        }
        let rt = to_lowercase(chars(runtime_image).as_slice());
        let bi = to_lowercase(chars(build_image).as_slice());
        let nginx = contains_str(rt.as_slice(), "nginx");
        let jvm_rt = contains_str(rt.as_slice(), "jre") || contains_str(rt.as_slice(), "java")
            || contains_str(rt.as_slice(), "openjdk");
        let min: u64 = if nginx {
            100
        } else if jvm_rt {
            1000
        } else {
            50
        };
        if total < min {
            let mut m = chars("Build output too small (");
            append_chars(&mut m, i64_text_u64(total).as_slice());
            append_str(&mut m, " bytes). Expected at least ");
            append_chars(&mut m, i64_text_u64(min).as_slice());
            append_str(&mut m, " bytes for this project type.");
            return Err(from_chars(m.as_slice()));
        }
        if nginx && !has_index && !index_in_subfolder {
            let mut m = chars("Static web app build missing index.html. Found ");
            append_chars(&mut m, i64_text_u64(n as u64).as_slice());
            append_str(&mut m, " files (");
            append_chars(&mut m, i64_text_u64(total).as_slice());
            append_str(&mut m, " bytes) but no index.html");
            return Err(from_chars(m.as_slice()));
        }
        if (contains_str(bi.as_slice(), "gradle") || contains_str(bi.as_slice(), "maven")) && jvm_rt {
            if !app_jar_exists && !jar {
                return Err(
                    "Java project build missing JAR file. Expected app.jar in output directory.".to_owned(),
                );
            }
            return Ok(app_jar_exists);
        }
        Ok(false)
    }

    /// The check of `app.jar`'s first bytes.
    pub fn check_jar_header(content: &[u8]) -> (r: Result<(), String>)
        ensures
            jar_header_ok(content@) ==> r is Ok,
            !jar_header_ok(content@) ==> (r matches Err(e) && e@
                == "app.jar appears to be corrupted (invalid ZIP header)"@),
    {
        if content.len() < 4 || content[0] != 0x50 || content[1] != 0x4b || content[2] != 0x03
            || content[3] != 0x04 {
            Err("app.jar appears to be corrupted (invalid ZIP header)".to_owned())
        } else {
            Ok(())
        }
    }

    /// The log events of a build's output lines, numbered from zero.
    pub fn log_events(build_id: i64, logs: &Vec<String>) -> (r: Vec<Event>)
        ensures
            r@.len() == logs@.len(),
            forall|i: int|
                0 <= i < r@.len() ==> (#[trigger] r@[i] matches Event::Log { build_id: b, line: l, line_number: k, .. }
                    && b == build_id && l == logs@[i] && k == i),
    {
        let mut out: Vec<Event> = Vec::new();
        let mut i: usize = 0;
        while i < logs.len()
            invariant
                i <= logs@.len(),
                out@.len() == i,
                forall|j: int|
                    0 <= j < i ==> (#[trigger] out@[j] matches Event::Log { build_id: b, line: l, line_number: k, .. }
                        && b == build_id && l == logs@[j] && k == j),
            decreases logs@.len() - i,
        {
            out.push(Event::log(build_id, logs[i].clone(), i));
            i = i + 1;
        }
        out
    }

    /// The error of a build that exited with `exit_code`.
    pub fn failure_message(exit_code: i64) -> (r: String)
        ensures
            r@ == "Build failed with exit code: "@ + int_text(exit_code as int),
    {
        let mut m = chars("Build failed with exit code: ");
        append_chars(&mut m, i64_text(exit_code).as_slice());
        from_chars(m.as_slice())
    }

    /// The error of a build whose output failed its checks.
    pub fn validation_failure_message(e: &str) -> (r: String)
        ensures
            r@ == "Build output validation failed: "@ + e@,
    {
        let mut m = chars("Build output validation failed: ");
        append_str(&mut m, e);
        from_chars(m.as_slice())
    }
}

/// The total size of a prefix grows by the size of its last entry.
proof fn lemma_total_size_prefix(es: Seq<OutputEntry>, k: int)
    requires
        0 < k <= es.len(),
    ensures
        total_size(es.take(k)) == total_size(es.take(k - 1)) + match es[k - 1].size {
            Some(n) => n as int,
            None => 0,
        },
        total_size(es.take(k)) <= total_size(es),
    decreases es.len() - k,
{
    assert(es.take(k).drop_last() =~= es.take(k - 1));
    if k < es.len() {
        lemma_total_size_prefix(es, k + 1);
    } else {
        assert(es.take(k) =~= es);
    }
}

/// The decimal form of a `u64`.
fn i64_text_u64(n: u64) -> (r: Vec<char>)
    ensures
        r@ == int_text(n as int),
{
    crate::text::u64_text(n)
}

} // verus!
