//! What the agent asks Docker for: image references, mounts, container
//! names and environments, and how a build container's exit reads.
use vstd::prelude::*;
use crate::text::{
    append_chars, append_str, chars, contains_str, contains_seq, from_chars, i64_text, int_text,
    lowercase, str_eq, to_lowercase,
};

verus! {

/// The outcome of a build container.
#[derive(Debug, Clone)]
pub struct BuildResult {
    /// The build exited with code 0.
    pub success: bool,
    pub exit_code: i64,
    /// Its output lines, in order.
    pub logs: Vec<String>,
    pub container_id: String,
}

impl BuildResult {
    /// The outcome of a build container that exited with `exit_code`.
    pub fn from_exit(exit_code: i64, logs: Vec<String>, container_id: String) -> (r: BuildResult)
        ensures
            r.success == (exit_code == 0),
            r.exit_code == exit_code,
            r.logs == logs,
            r.container_id == container_id,
    {
        BuildResult { success: exit_code == 0, exit_code, logs, container_id }
    }
}

/// The entries of a JSON object text, in the order `serde_json::Map` walks
/// them: the key, whether the value is a string, and the value's text (the
/// string itself, or the value's JSON form). None when the text is not a
/// JSON object.
pub uninterp spec fn json_object_entries(text: Seq<char>) -> Option<Seq<(Seq<char>, bool, Seq<char>)>>;

/// The plain values of JSON entries.
pub open spec fn entries_view(v: Seq<(String, bool, String)>) -> Seq<(Seq<char>, bool, Seq<char>)> {
    v.map_values(|e: (String, bool, String)| (e.0@, e.1, e.2@))
}

/// The entries of a JSON object text.
///
/// Trusted: `serde_json::from_str` into a `serde_json::Map`, walked in its
/// order, with `Value::to_string` for values that are not strings. The
/// result is named `json_object_entries`; the JSON grammar is not restated.
#[verifier::external_body]
fn json_entries(text: &str) -> (r: Option<Vec<(String, bool, String)>>)
    ensures
        match r {
            Some(v) => json_object_entries(text@) == Some(entries_view(v@)),
            None => json_object_entries(text@) is None,
        },
{
    match serde_json::from_str::<serde_json::Map<String, serde_json::Value>>(text) {
        Ok(map) => {
            let mut out = Vec::new();
            for (k, v) in map {
                match v {
                    serde_json::Value::String(s) => out.push((k, true, s)),
                    other => out.push((k, false, other.to_string())),
                }
            }
            Some(out)
        },
        Err(_) => None,
    }
}

/// `s` without leading and trailing `"` (as `trim_matches('"')`).
pub open spec fn trim_quotes(s: Seq<char>) -> Seq<char>
    decreases s.len(),
{
    if s.len() > 0 && s[0] == '"' {
        trim_quotes(s.drop_first())
    } else if s.len() > 0 && s.last() == '"' {
        trim_quotes(s.drop_last())
    } else {
        s
    }
}

/// The `KEY=value` text of an entry; with `trim`, a non-string value loses
/// its surrounding quotes.
pub open spec fn assignment_of(e: (Seq<char>, bool, Seq<char>), trim: bool) -> Seq<char> {
    e.0 + "="@ + if !e.1 && trim {
        trim_quotes(e.2)
    } else {
        e.2
    }
}

/// The assignments of the entries of a JSON object text, in order; none
/// when the text is not a JSON object.
pub open spec fn json_assignments(text: Seq<char>, trim: bool) -> Seq<Seq<char>> {
    match json_object_entries(text) {
        Some(es) => es.map_values(|e: (Seq<char>, bool, Seq<char>)| assignment_of(e, trim)),
        None => seq![],
    }
}

/// The texts of a vector of strings.
pub open spec fn texts(v: Seq<String>) -> Seq<Seq<char>> {
    v.map_values(|s: String| s@)
}

/// `s` without leading and trailing `"`.
fn trim_quotes_exec(s: &[char]) -> (r: Vec<char>)
    ensures
        r@ == trim_quotes(s@),
{
    let mut a: usize = 0;
    let mut b: usize = s.len();
    assert(s@.subrange(0, s@.len() as int) =~= s@);
    loop
        invariant
            a <= b <= s@.len(),
            trim_quotes(s@) == trim_quotes(s@.subrange(a as int, b as int)),
        decreases b - a,
    {
        let ghost cur = s@.subrange(a as int, b as int);
        if a < b && s[a] == '"' {
            assert(cur.drop_first() =~= s@.subrange(a + 1, b as int));
            a = a + 1;
        } else if a < b && s[b - 1] == '"' {
            assert(cur.drop_last() =~= s@.subrange(a as int, b - 1));
            b = b - 1;
        } else {
            return crate::text::slice_range(s, a, b);
        }
    }
}

/// Appends the `KEY=value` assignments of a JSON object text to `out`.
pub fn push_json_assignments(out: &mut Vec<String>, text: &str, trim: bool)
    ensures
        texts(final(out)@) == texts(old(out)@) + json_assignments(text@, trim),
{
    let ghost start = texts(out@);
    match json_entries(text) {
        Some(es) => {
            let ghost ev = entries_view(es@);
            let mut i: usize = 0;
            assert(start + ev.map_values(|e: (Seq<char>, bool, Seq<char>)| assignment_of(e, trim)).take(0) =~= start);
            while i < es.len()
                invariant
                    i <= es@.len(),
                    ev == entries_view(es@),
                    texts(out@) == start + ev.map_values(
                        |e: (Seq<char>, bool, Seq<char>)| assignment_of(e, trim),
                    ).take(i as int),
                decreases es@.len() - i,
            {
                let mut v = chars(es[i].0.as_str());
                append_str(&mut v, "=");
                if !es[i].1 && trim {
                    let t = trim_quotes_exec(chars(es[i].2.as_str()).as_slice());
                    append_chars(&mut v, t.as_slice());
                } else {
                    append_str(&mut v, es[i].2.as_str());
                }
                let ghost before = texts(out@);
                assert(v@ == assignment_of(ev[i as int], trim));
                out.push(from_chars(v.as_slice()));
                assert(texts(out@) =~= before.push(v@));
                assert(ev.map_values(|e: (Seq<char>, bool, Seq<char>)| assignment_of(e, trim)).take(
                    i + 1,
                ) =~= ev.map_values(|e: (Seq<char>, bool, Seq<char>)| assignment_of(e, trim)).take(
                    i as int,
                ).push(v@));
                i = i + 1;
            }
            assert(ev.map_values(|e: (Seq<char>, bool, Seq<char>)| assignment_of(e, trim)).take(
                es@.len() as int,
            ) =~= ev.map_values(|e: (Seq<char>, bool, Seq<char>)| assignment_of(e, trim)));
        },
        None => {
            assert(texts(out@) =~= start + Seq::<Seq<char>>::empty());
        },
    }
}


/// The reference an image is looked up by: as given when it names a tag,
/// else with `:latest`.
pub open spec fn image_reference_of(image: Seq<char>) -> Seq<char> {
    if contains_seq(image, ":"@) {
        image
    } else {
        image + ":latest"@
    }
}

/// Some local image carries the reference of `image` among its tags.
pub open spec fn image_present(tags: Seq<Seq<Seq<char>>>, image: Seq<char>) -> bool {
    exists|i: int, j: int|
        0 <= i < tags.len() && 0 <= j < tags[i].len() && #[trigger] tags[i][j] == image_reference_of(
            image,
        )
}

/// Where a build's dependency cache is mounted, by cache kind.
pub open spec fn cache_mount_of(cache_type: Seq<char>) -> Seq<char> {
    if cache_type == "gradle"@ {
        "/root/.gradle"@
    } else if cache_type == "maven"@ {
        "/root/.m2"@
    } else if cache_type == "npm"@ {
        "/root/.npm"@
    } else if cache_type == "pip"@ {
        "/root/.cache/pip"@
    } else if cache_type == "cargo"@ {
        "/usr/local/cargo/registry"@
    } else {
        "/cache"@
    }
}

/// The mounts of a build container: its output folder, the Docker socket,
/// and the cache folder when there is one.
pub open spec fn build_binds_of(host_output: Seq<char>, host_cache: Option<Seq<char>>, cache_type: Seq<char>) -> Seq<Seq<char>> {
    let base = seq![host_output + ":/output"@, "/var/run/docker.sock:/var/run/docker.sock"@];
    match host_cache {
        Some(c) => base.push(c + ":"@ + cache_mount_of(cache_type)),
        None => base,
    }
}

/// The environment of a runtime container: its port, then the project's
/// variables.
pub open spec fn runtime_env_of(runtime_port: u16, env_vars: Option<Seq<char>>) -> Seq<Seq<char>> {
    let base = seq!["PORT="@ + int_text(runtime_port as int)];
    match env_vars {
        Some(t) => base + json_assignments(t, true),
        None => base,
    }
}

/// The data folder variables a persistent standalone container gets, by the
/// database its (lowercased) image names.
pub open spec fn persistent_env_of(image_lower: Seq<char>) -> Seq<Seq<char>> {
    let l = image_lower;
    if contains_seq(l, "postgres"@) || contains_seq(l, "timescale"@) {
        seq!["PGDATA=/data"@]
    } else if contains_seq(l, "mysql"@) || contains_seq(l, "mariadb"@) {
        seq!["MYSQL_DATADIR=/data"@]
    } else if contains_seq(l, "mongo"@) {
        seq!["MONGODB_DBPATH=/data"@]
    } else if contains_seq(l, "redis"@) {
        seq!["REDIS_DATA_DIR=/data"@]
    } else if contains_seq(l, "elasticsearch"@) || contains_seq(l, "opensearch"@) {
        seq!["path.data=/data"@]
    } else if contains_seq(l, "cassandra"@) || contains_seq(l, "scylla"@) {
        seq!["CASSANDRA_DATA_DIR=/data"@]
    } else if contains_seq(l, "couchdb"@) {
        seq!["COUCHDB_DATA_DIR=/data"@]
    } else if contains_seq(l, "influxdb"@) {
        seq!["INFLUXDB_DATA_DIR=/data"@, "INFLUXDB_META_DIR=/data/meta"@, "INFLUXDB_WAL_DIR=/data/wal"@]
    } else if contains_seq(l, "neo4j"@) {
        seq!["NEO4J_DATA=/data"@]
    } else if contains_seq(l, "rabbitmq"@) {
        seq!["RABBITMQ_MNESIA_BASE=/data"@]
    } else {
        seq![]
    }
}

/// The environment of a standalone container: its variables, then (when
/// its data persists) the data folder variables of its database.
pub open spec fn standalone_env_of(env_vars: Option<Seq<char>>, image: Seq<char>, persist_data: bool) -> Seq<Seq<char>> {
    let base = match env_vars {
        Some(t) => json_assignments(t, false),
        None => seq![],
    };
    if persist_data {
        base + persistent_env_of(lowercase(image))
    } else {
        base
    }
}

/// Builds and names containers.
pub struct ContainerPlan;

impl ContainerPlan {
    /// The reference an image is looked up by (see `image_reference_of`).
    pub fn image_reference(image: &str) -> (r: String)
        ensures
            r@ == image_reference_of(image@),
    {
        let v = chars(image);
        if contains_str(v.as_slice(), ":") {
            image.to_owned()
        } else {
            let mut w = v;
            append_str(&mut w, ":latest");
            from_chars(w.as_slice())
        }
    }

    /// Whether some local image, given by its tags, is `image`.
    pub fn image_is_present(tags: &Vec<Vec<String>>, image: &str) -> (r: bool)
        ensures
            r == image_present(tags@.map_values(|t: Vec<String>| texts(t@)), image@),
    {
        let reference = Self::image_reference(image);
        let ghost ts = tags@.map_values(|t: Vec<String>| texts(t@));
        let mut i: usize = 0;
        while i < tags.len()
            invariant
                i <= tags@.len(),
                ts == tags@.map_values(|t: Vec<String>| texts(t@)),
                reference@ == image_reference_of(image@),
                forall|a: int, b: int|
                    0 <= a < i && 0 <= b < ts[a].len() ==> #[trigger] ts[a][b] != image_reference_of(
                        image@,
                    ),
            decreases tags@.len() - i,
        {
            let mut j: usize = 0;
            assert(ts[i as int] == texts(tags@[i as int]@));
            while j < tags[i].len()
                invariant
                    i < tags@.len(),
                    j <= tags@[i as int]@.len(),
                    ts == tags@.map_values(|t: Vec<String>| texts(t@)),
                    ts[i as int] == texts(tags@[i as int]@),
                    reference@ == image_reference_of(image@),
                    forall|b: int| 0 <= b < j ==> #[trigger] ts[i as int][b] != image_reference_of(image@),
                decreases tags@[i as int]@.len() - j,
            {
                if str_eq(tags[i][j].as_str(), reference.as_str()) {
                    assert(ts[i as int][j as int] == image_reference_of(image@));
                    return true;
                }
                j = j + 1;
            }
            i = i + 1;
        }
        false
    }

    /// Where a build's dependency cache is mounted (see `cache_mount_of`).
    pub fn cache_mount(cache_type: &str) -> (r: String)
        ensures
            r@ == cache_mount_of(cache_type@),
    {
        let s = if str_eq(cache_type, "gradle") {
            "/root/.gradle"
        } else if str_eq(cache_type, "maven") {
            "/root/.m2"
        } else if str_eq(cache_type, "npm") {
            "/root/.npm"
        } else if str_eq(cache_type, "pip") {
            "/root/.cache/pip"
        } else if str_eq(cache_type, "cargo") {
            "/usr/local/cargo/registry"
        } else {
            "/cache"
        };
        s.to_owned()
    }

    /// The mounts of a build container (see `build_binds_of`); `host_cache`
    /// is the cache folder on the host when it exists.
    pub fn build_binds(host_output: &str, host_cache: Option<&str>, cache_type: &str) -> (r: Vec<String>)
        ensures
            texts(r@) == build_binds_of(
                host_output@,
                match host_cache {
                    Some(c) => Some(c@),
                    None => None,
                },
                cache_type@,
            ),
    {
        let mut out: Vec<String> = Vec::new();
        let mut a = chars(host_output);
        append_str(&mut a, ":/output");
        out.push(from_chars(a.as_slice()));
        out.push("/var/run/docker.sock:/var/run/docker.sock".to_owned());
        match host_cache {
            Some(c) => {
                let mut b = chars(c);
                append_str(&mut b, ":");
                append_str(&mut b, Self::cache_mount(cache_type).as_str());
                out.push(from_chars(b.as_slice()));
            },
            None => {},
        }
        assert(texts(out@) =~= build_binds_of(
            host_output@,
            match host_cache {
                Some(c) => Some(c@),
                None => None,
            },
            cache_type@,
        ));
        out
    }

    /// The environment of a runtime container (see `runtime_env_of`).
    pub fn runtime_env(runtime_port: u16, env_vars: Option<&str>) -> (r: Vec<String>)
        ensures
            texts(r@) == runtime_env_of(
                runtime_port,
                match env_vars {
                    Some(t) => Some(t@),
                    None => None,
                },
            ),
    {
        let mut out: Vec<String> = Vec::new();
        let mut p = chars("PORT=");
        append_chars(&mut p, i64_text(runtime_port as i64).as_slice());
        out.push(from_chars(p.as_slice()));
        assert(texts(out@) =~= seq!["PORT="@ + int_text(runtime_port as int)]);
        match env_vars {
            Some(t) => push_json_assignments(&mut out, t, true),
            None => {},
        }
        out
    }

    /// The name of a project's runtime container for a slot.
    pub fn runtime_container_name(project_id: i64, slot: &str) -> (r: String)
        ensures
            r@ == "project-"@ + int_text(project_id as int) + "-"@ + slot@,
    {
        let mut v = chars("project-");
        append_chars(&mut v, i64_text(project_id).as_slice());
        append_str(&mut v, "-");
        append_str(&mut v, slot);
        from_chars(v.as_slice())
    }

    /// The name of a standalone container's Docker container.
    pub fn standalone_container_name(name: &str) -> (r: String)
        ensures
            r@ == "container-"@ + name@,
    {
        let mut v = chars("container-");
        append_str(&mut v, name);
        from_chars(v.as_slice())
    }

    /// The host folder that keeps a standalone container's data.
    pub fn standalone_data_dir(name: &str) -> (r: String)
        ensures
            r@ == "/data/easycicd/containers/"@ + name@ + "/data"@,
    {
        let mut v = chars("/data/easycicd/containers/");
        append_str(&mut v, name);
        append_str(&mut v, "/data");
        from_chars(v.as_slice())
    }

    /// The data folder variables of a persistent container's database.
    pub fn persistent_env(image: &str) -> (r: Vec<String>)
        ensures
            texts(r@) == persistent_env_of(lowercase(image@)),
    {
        let l = to_lowercase(chars(image).as_slice());
        let ls = l.as_slice();
        let mut out: Vec<String> = Vec::new();
        if contains_str(ls, "postgres") || contains_str(ls, "timescale") {
            out.push("PGDATA=/data".to_owned());
        } else if contains_str(ls, "mysql") || contains_str(ls, "mariadb") {
            out.push("MYSQL_DATADIR=/data".to_owned());
        } else if contains_str(ls, "mongo") {
            out.push("MONGODB_DBPATH=/data".to_owned());
        } else if contains_str(ls, "redis") {
            out.push("REDIS_DATA_DIR=/data".to_owned());
        } else if contains_str(ls, "elasticsearch") || contains_str(ls, "opensearch") {
            out.push("path.data=/data".to_owned());
        } else if contains_str(ls, "cassandra") || contains_str(ls, "scylla") {
            out.push("CASSANDRA_DATA_DIR=/data".to_owned());
        } else if contains_str(ls, "couchdb") {
            out.push("COUCHDB_DATA_DIR=/data".to_owned());
        } else if contains_str(ls, "influxdb") {
            out.push("INFLUXDB_DATA_DIR=/data".to_owned());
            out.push("INFLUXDB_META_DIR=/data/meta".to_owned());
            out.push("INFLUXDB_WAL_DIR=/data/wal".to_owned());
        } else if contains_str(ls, "neo4j") {
            out.push("NEO4J_DATA=/data".to_owned());
        } else if contains_str(ls, "rabbitmq") {
            out.push("RABBITMQ_MNESIA_BASE=/data".to_owned());
        }
        assert(texts(out@) =~= persistent_env_of(lowercase(image@)));
        out
    }

    /// The environment of a standalone container (see `standalone_env_of`).
    pub fn standalone_env(env_vars: Option<&str>, image: &str, persist_data: bool) -> (r: Vec<String>)
        ensures
            texts(r@) == standalone_env_of(
                match env_vars {
                    Some(t) => Some(t@),
                    None => None,
                },
                image@,
                persist_data,
            ),
    {
        let mut out: Vec<String> = Vec::new();
        assert(texts(out@) =~= Seq::<Seq<char>>::empty());
        match env_vars {
            Some(t) => {
                push_json_assignments(&mut out, t, false);
                assert(texts(out@) =~= json_assignments(t@, false));
            },
            None => {},
        }
        if persist_data {
            let extra = Self::persistent_env(image);
            let ghost before = texts(out@);
            let mut e = extra;
            out.append(&mut e);
            assert(texts(out@) =~= before + persistent_env_of(lowercase(image@)));
        }
        out
    }
}

} // verus!
