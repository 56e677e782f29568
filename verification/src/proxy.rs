//! Routing of the reverse proxy: which project or container a request goes
//! to, by subdomain or by the first path segment, and the upstream address.
use vstd::prelude::*;
use crate::models::{Container, ContainerStatus, Project, Slot};
use crate::text::{
    append_chars, append_str, chars, ends_with, ends_with_seq, ends_with_str, from_chars, i64_text,
    int_text, join, join_seq, slice_range, split_char, split_seq, str_eq, views, lemma_split_nonempty,
    lemma_views_push,
};

verus! {

/// Where a request is routed.
#[derive(Debug)]
pub enum RouteTarget {
    /// A project, by name; `is_subdomain` when the host named it.
    Project { name: String, is_subdomain: bool },
    /// A standalone container, by name (always named by the host).
    Container { name: String, is_subdomain: bool },
}

/// A route as plain values: a project (or else a container), its name, and
/// whether the host named it.
pub struct RouteModel {
    pub is_project: bool,
    pub name: Seq<char>,
    pub is_subdomain: bool,
}

impl View for RouteTarget {
    type V = RouteModel;

    open spec fn view(&self) -> RouteModel {
        match self {
            RouteTarget::Project { name, is_subdomain } => RouteModel {
                is_project: true,
                name: name@,
                is_subdomain: *is_subdomain,
            },
            RouteTarget::Container { name, is_subdomain } => RouteModel {
                is_project: false,
                name: name@,
                is_subdomain: *is_subdomain,
            },
        }
    }
}

/// Why the proxy answers a request itself.
#[derive(Debug, Clone, Copy, PartialEq, Eq, Structural)]
pub enum ProxyError {
    /// No route: the path has no first segment.
    NotFound,
    ProjectNotFound,
    ContainerNotFound,
    /// A lookup failed.
    Internal,
    ContainerNotRunning,
    BadRequest,
    /// The upstream could not be reached.
    BackendUnavailable,
    /// The upstream's answer could not be read.
    BackendUnreadable,
}

/// The status code of a proxy error.
pub open spec fn proxy_error_status(e: ProxyError) -> u16 {
    match e {
        ProxyError::NotFound => 404,
        ProxyError::ProjectNotFound => 404,
        ProxyError::ContainerNotFound => 404,
        ProxyError::Internal => 500,
        ProxyError::ContainerNotRunning => 503,
        ProxyError::BadRequest => 400,
        ProxyError::BackendUnavailable => 502,
        ProxyError::BackendUnreadable => 502,
    }
}

/// The plain-text body of a proxy error.
pub open spec fn proxy_error_text(e: ProxyError) -> Seq<char> {
    match e {
        ProxyError::NotFound => "Not found"@,
        ProxyError::ProjectNotFound => "Project not found"@,
        ProxyError::ContainerNotFound => "Container not found"@,
        ProxyError::Internal => "Internal error"@,
        ProxyError::ContainerNotRunning => "Container is not running"@,
        ProxyError::BadRequest => "Bad request"@,
        ProxyError::BackendUnavailable => "Service unavailable"@,
        ProxyError::BackendUnreadable => "Error reading response"@,
    }
}

impl ProxyError {
    /// The status code of the answer.
    pub fn status(&self) -> (r: u16)
        ensures
            r == proxy_error_status(*self),
    {
        match self {
            ProxyError::NotFound => 404,
            ProxyError::ProjectNotFound => 404,
            ProxyError::ContainerNotFound => 404,
            ProxyError::Internal => 500,
            ProxyError::ContainerNotRunning => 503,
            ProxyError::BadRequest => 400,
            ProxyError::BackendUnavailable => 502,
            ProxyError::BackendUnreadable => 502,
        }
    }

    /// The plain-text body of the answer.
    pub fn message(&self) -> (r: String)
        ensures
            r@ == proxy_error_text(*self),
    {
        let s = match self {
            ProxyError::NotFound => "Not found",
            ProxyError::ProjectNotFound => "Project not found",
            ProxyError::ContainerNotFound => "Container not found",
            ProxyError::Internal => "Internal error",
            ProxyError::ContainerNotRunning => "Container is not running",
            ProxyError::BadRequest => "Bad request",
            ProxyError::BackendUnavailable => "Service unavailable",
            ProxyError::BackendUnreadable => "Error reading response",
        };
        s.to_owned()
    }
}

/// `s` without its leading `c`s (as `trim_start_matches`).
pub open spec fn trim_leading(s: Seq<char>, c: char) -> Seq<char>
    decreases s.len(),
{
    if s.len() > 0 && s[0] == c {
        trim_leading(s.drop_first(), c)
    } else {
        s
    }
}

/// `s` without any number of trailing copies of `suffix` (as `trim_end_matches`).
pub open spec fn trim_suffix_all(s: Seq<char>, suffix: Seq<char>) -> Seq<char>
    decreases s.len(),
{
    if suffix.len() > 0 && ends_with_seq(s, suffix) {
        trim_suffix_all(s.take(s.len() - suffix.len()), suffix)
    } else {
        s
    }
}

/// The segments of a request path, after its leading slashes.
pub open spec fn path_parts(path: Seq<char>) -> Seq<Seq<char>> {
    split_seq(trim_leading(path, '/'), '/')
}

/// The host name of a `Host` header: the part before the first `:`.
pub open spec fn host_name(host: Seq<char>) -> Seq<char> {
    split_seq(host, ':')[0]
}

/// The route by the first path segment: the project it names, none if empty.
pub open spec fn path_route(path: Seq<char>) -> Option<RouteModel> {
    let first = path_parts(path)[0];
    if first.len() == 0 {
        None
    } else {
        Some(RouteModel { is_project: true, name: first, is_subdomain: false })
    }
}

/// The route of a request: when a base domain is set and the host is one of
/// its subdomains, `{name}-app` names a project and any other subdomain a
/// container; otherwise the first path segment names a project.
pub open spec fn route_of(path: Seq<char>, host: Option<Seq<char>>, base_domain: Option<Seq<char>>) -> Option<RouteModel> {
    match (host, base_domain) {
        (Some(h), Some(b)) => {
            let hn = host_name(h);
            let suffix = seq!['.'] + b;
            if ends_with_seq(hn, suffix) {
                let sub = trim_suffix_all(hn, suffix);
                if ends_with_seq(sub, "-app"@) {
                    Some(
                        RouteModel {
                            is_project: true,
                            name: trim_suffix_all(sub, "-app"@),
                            is_subdomain: true,
                        },
                    )
                } else {
                    Some(RouteModel { is_project: false, name: sub, is_subdomain: true })
                }
            } else {
                path_route(path)
            }
        },
        _ => path_route(path),
    }
}

/// The path the upstream sees: the whole path for subdomain routing, else
/// the path without its first segment.
pub open spec fn upstream_path(path: Seq<char>, is_subdomain: bool) -> Seq<char> {
    if is_subdomain {
        path
    } else {
        let parts = path_parts(path);
        if parts.len() > 1 {
            seq!['/'] + join_seq(parts.skip(1), "/"@)
        } else {
            "/"@
        }
    }
}

/// The upstream address of a request.
pub open spec fn upstream_uri(host: Seq<char>, port: int, path: Seq<char>, query: Option<Seq<char>>) -> Seq<char> {
    let base = "http://"@ + host + ":"@ + int_text(port) + path;
    match query {
        Some(q) => base + "?"@ + q,
        None => base,
    }
}

/// The container that serves the active slot of a project.
pub open spec fn project_container_name(id: i64, slot: Slot) -> Seq<char> {
    "project-"@ + int_text(id as int) + match slot {
        Slot::Blue => "-blue"@,
        Slot::Green => "-green"@,
    }
}


/// The text of an optional string slice.
pub open spec fn opt_text(o: Option<&str>) -> Option<Seq<char>> {
    match o {
        Some(s) => Some(s@),
        None => None,
    }
}

/// `s` without its leading `c`s.
fn trim_leading_exec(s: &[char], c: char) -> (r: Vec<char>)
    ensures
        r@ == trim_leading(s@, c),
{
    let n = s.len();
    let mut i: usize = 0;
    assert(s@.subrange(0, n as int) =~= s@);
    while i < n && s[i] == c
        invariant
            n == s@.len(),
            i <= n,
            trim_leading(s@, c) == trim_leading(s@.subrange(i as int, n as int), c),
        decreases n - i,
    {
        assert(s@.subrange(i as int, n as int).drop_first() =~= s@.subrange(i + 1, n as int));
        i = i + 1;
    }
    slice_range(s, i, n)
}

/// `s` without any number of trailing copies of `suffix`.
pub fn trim_suffix_all_exec(s: &[char], suffix: &[char]) -> (r: Vec<char>)
    ensures
        r@ == trim_suffix_all(s@, suffix@),
{
    let mut cur = slice_range(s, 0, s.len());
    assert(cur@ =~= s@);
    if suffix.len() == 0 {
        return cur;
    }
    while ends_with(cur.as_slice(), suffix)
        invariant
            suffix@.len() > 0,
            trim_suffix_all(s@, suffix@) == trim_suffix_all(cur@, suffix@),
        decreases cur@.len(),
    {
        let n = cur.len() - suffix.len();
        cur = slice_range(cur.as_slice(), 0, n);
    }
    cur
}

/// The first item of a split, copied.
fn first_piece(parts: &Vec<Vec<char>>) -> (r: Vec<char>)
    requires
        parts@.len() > 0,
    ensures
        r@ == parts@[0]@,
{
    slice_range(parts[0].as_slice(), 0, parts[0].len())
}

/// Routes the reverse proxy's requests.
pub struct ProxyRouter;

impl ProxyRouter {
    /// The route by the first path segment.
    fn route_by_path(path: &str) -> (r: Option<RouteTarget>)
        ensures
            match r {
                Some(t) => path_route(path@) == Some(t@),
                None => path_route(path@) is None,
            },
    {
        let trimmed = trim_leading_exec(chars(path).as_slice(), '/');
        let parts = split_char(trimmed.as_slice(), '/');
        proof {
            lemma_split_nonempty(trimmed@, '/');
        }
        assert(views(parts@)[0] == parts@[0]@);
        let first = first_piece(&parts);
        if first.len() == 0 {
            None
        } else {
            Some(RouteTarget::Project { name: from_chars(first.as_slice()), is_subdomain: false })
        }
    }

    /// The route of a request (see `route_of`); `host` is the `Host` header
    /// when it is present and readable.
    pub fn route_request(path: &str, host: Option<&str>, base_domain: Option<&str>) -> (r: Option<RouteTarget>)
        ensures
            match r {
                Some(t) => route_of(path@, opt_text(host), opt_text(base_domain)) == Some(t@),
                None => route_of(path@, opt_text(host), opt_text(base_domain)) is None,
            },
    {
        match (host, base_domain) {
            (Some(h), Some(b)) => {
                let pieces = split_char(chars(h).as_slice(), ':');
                proof {
                    lemma_split_nonempty(h@, ':');
                }
                assert(views(pieces@)[0] == pieces@[0]@);
                let hn = first_piece(&pieces);
                let mut suffix: Vec<char> = Vec::new();
                suffix.push('.');
                append_str(&mut suffix, b);
                assert(suffix@ =~= seq!['.'] + b@);
                if ends_with(hn.as_slice(), suffix.as_slice()) {
                    let sub = trim_suffix_all_exec(hn.as_slice(), suffix.as_slice());
                    if ends_with_str(sub.as_slice(), "-app") {
                        let app = chars("-app");
                        let name = trim_suffix_all_exec(sub.as_slice(), app.as_slice());
                        Some(RouteTarget::Project { name: from_chars(name.as_slice()), is_subdomain: true })
                    } else {
                        Some(RouteTarget::Container { name: from_chars(sub.as_slice()), is_subdomain: true })
                    }
                } else {
                    Self::route_by_path(path)
                }
            },
            _ => Self::route_by_path(path),
        }
    }

    /// The path the upstream sees (see `upstream_path`).
    pub fn target_path(path: &str, is_subdomain: bool) -> (r: String)
        ensures
            r@ == upstream_path(path@, is_subdomain),
    {
        if is_subdomain {
            return path.to_owned();
        }
        let trimmed = trim_leading_exec(chars(path).as_slice(), '/');
        let parts = split_char(trimmed.as_slice(), '/');
        if parts.len() > 1 {
            let mut rest: Vec<Vec<char>> = Vec::new();
            let mut i: usize = 1;
            assert(views(parts@).skip(1).take(0) =~= views(rest@));
            while i < parts.len()
                invariant
                    1 <= i <= parts@.len(),
                    views(rest@) == views(parts@).skip(1).take(i - 1),
                decreases parts@.len() - i,
            {
                let piece = slice_range(parts[i].as_slice(), 0, parts[i].len());
                proof {
                    lemma_views_push(rest@, piece);
                    assert(piece@ =~= parts@[i as int]@);
                    assert(views(parts@).skip(1).take(i as int) =~= views(parts@).skip(1).take(
                        i - 1,
                    ).push(parts@[i as int]@));
                }
                rest.push(piece);
                i = i + 1;
            }
            assert(views(parts@).skip(1).take(parts@.len() - 1) =~= views(parts@).skip(1));
            let joined = join(&rest, "/");
            let mut out: Vec<char> = Vec::new();
            out.push('/');
            append_chars(&mut out, joined.as_slice());
            assert(out@ =~= seq!['/'] + joined@);
            from_chars(out.as_slice())
        } else {
            "/".to_owned()
        }
    }

    /// The upstream address of a request (see `upstream_uri`).
    pub fn target_uri(host: &str, port: i32, path: &str, query: Option<&str>) -> (r: String)
        ensures
            r@ == upstream_uri(host@, port as int, path@, opt_text(query)),
    {
        let mut v = chars("http://");
        append_str(&mut v, host);
        append_str(&mut v, ":");
        let pt = i64_text(port as i64);
        append_chars(&mut v, pt.as_slice());
        append_str(&mut v, path);
        match query {
            Some(q) => {
                append_str(&mut v, "?");
                append_str(&mut v, q);
            },
            None => {},
        }
        from_chars(v.as_slice())
    }

    /// The container serving a project's active slot, and the port it listens on.
    pub fn project_upstream(project: &Project) -> (r: (String, i32))
        ensures
            r.0@ == project_container_name(project.id, project.active_slot),
            r.1 == project.runtime_port,
    {
        let mut v = chars("project-");
        let idt = i64_text(project.id);
        append_chars(&mut v, idt.as_slice());
        match project.active_slot {
            Slot::Blue => append_str(&mut v, "-blue"),
            Slot::Green => append_str(&mut v, "-green"),
        }
        (from_chars(v.as_slice()), project.runtime_port)
    }

    /// The Docker container of a standalone container and the port it listens
    /// on (its container port, else its port); refused unless it is running.
    pub fn container_upstream(container: &Container) -> (r: Result<(String, i32), ProxyError>)
        ensures
            container.status != ContainerStatus::Running ==> r == Err::<(String, i32), ProxyError>(
                ProxyError::ContainerNotRunning,
            ),
            container.status == ContainerStatus::Running ==> (r matches Ok(u) && u.0@ == "container-"@
                + container.name@ && u.1 == match container.container_port {
                Some(p) => p,
                None => container.port,
            }),
    {
        if container.status != ContainerStatus::Running {
            return Err(ProxyError::ContainerNotRunning);
        }
        let mut v = chars("container-");
        append_str(&mut v, container.name.as_str());
        let port = match container.container_port {
            Some(p) => p,
            None => container.port,
        };
        Ok((from_chars(v.as_slice()), port))
    }

    /// Whether a request header is forwarded upstream: all but `host` and
    /// `content-length`.
    pub fn forwards_header(name: &str) -> (r: bool)
        ensures
            r == (name@ != "host"@ && name@ != "content-length"@),
    {
        !str_eq(name, "host") && !str_eq(name, "content-length")
    }
}

/// A request whose host is not under the base domain (an address, another
/// name) is routed as if no host were given: by its first path segment,
/// which names a project; an empty first segment routes nowhere.
pub proof fn law_foreign_host_routes_by_path(path: Seq<char>, host: Seq<char>, base_domain: Seq<char>)
    requires
        !ends_with_seq(split_seq(host, ':')[0], seq!['.'] + base_domain),
    ensures
        route_of(path, Some(host), Some(base_domain)) == route_of(path, None, None),
        ({
            let first = split_seq(trim_leading(path, '/'), '/')[0];
            route_of(path, None, None) == if first.len() == 0 {
                None
            } else {
                Some(RouteModel { is_project: true, name: first, is_subdomain: false })
            }
        }),
{
}

} // verus!
