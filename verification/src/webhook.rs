//! GitHub push webhooks: the signature check, which projects a push
//! concerns, whether its changed files pass a project's path filter, and
//! the answer given.
use vstd::prelude::*;
use hmac::Mac;
use crate::models::{CreateBuild, Project};
use crate::proxy::{trim_suffix_all, trim_suffix_all_exec};
use crate::text::{
    append_chars, append_str, chars, contains, contains_seq, contains_str, find, first_occurrence,
    from_chars, join, join_seq, slice_range, split_char, split_seq, starts_with_seq,
    starts_with_str, str_eq, trim, trim_seq, views, lemma_views_push,
};
use crate::workflow::opt_view;
use crate::notify::opt_str;

verus! {

/// The payload of a push webhook.
#[derive(Debug, Clone)]
pub struct GithubWebhook {
    /// The pushed ref (`refs/heads/...`).
    pub git_ref: Option<String>,
    pub repository: Repository,
    pub head_commit: Option<Commit>,
    pub commits: Option<Vec<Commit>>,
}

/// The repository of a push.
#[derive(Debug, Clone)]
pub struct Repository {
    /// `owner/name`.
    pub full_name: String,
}

/// A pushed commit.
#[derive(Debug, Clone)]
pub struct Commit {
    pub id: String,
    pub message: String,
    pub author: Author,
    pub added: Vec<String>,
    pub modified: Vec<String>,
    pub removed: Vec<String>,
}

/// The author of a commit.
#[derive(Debug, Clone)]
pub struct Author {
    pub name: String,
    pub email: String,
}

/// The answer to a webhook.
#[derive(Debug, Clone)]
pub struct WebhookResponse {
    pub message: String,
    pub build_id: Option<i64>,
}

/// The texts of a vector of strings.
pub open spec fn texts(v: Seq<String>) -> Seq<Seq<char>> {
    v.map_values(|s: String| s@)
}

// ---------------------------------------------------------------------------
// Outside computations
// ---------------------------------------------------------------------------

/// The HMAC-SHA256 of `message`'s UTF-8 bytes under the key of `key`'s UTF-8 bytes.
pub uninterp spec fn hmac_sha256_of(key: Seq<char>, message: Seq<char>) -> Seq<u8>;

/// The HMAC-SHA256 of `message` under `key`.
///
/// Trusted: `Hmac::<Sha256>::new_from_slice` (which takes keys of any
/// length, so it never fails), `Mac::update` and `Mac::finalize`. The
/// result is named `hmac_sha256_of`; the claim beyond the name is that it
/// is 32 bytes, SHA-256's output size.
#[verifier::external_body]
fn hmac_sha256(key: &str, message: &str) -> (r: Vec<u8>)
    ensures
        r@ == hmac_sha256_of(key@, message@),
        r@.len() == 32,
{
    let mut mac = <hmac::Hmac<sha2::Sha256> as Mac>::new_from_slice(key.as_bytes()).expect("any key length");
    mac.update(message.as_bytes());
    mac.finalize().into_bytes().to_vec()
}

/// The lowercase hexadecimal digit of `d < 16`.
pub open spec fn hex_digit(d: u8) -> char {
    if d < 10 {
        (48 + d) as char
    } else {
        (87 + d) as char
    }
}

/// The lowercase hexadecimal form of bytes: two digits per byte, high first.
pub open spec fn hex_text(bytes: Seq<u8>) -> Seq<char>
    decreases bytes.len(),
{
    if bytes.len() == 0 {
        seq![]
    } else {
        hex_text(bytes.drop_last()) + seq![hex_digit(bytes.last() / 16), hex_digit(bytes.last() % 16)]
    }
}

/// The lowercase hexadecimal form of bytes.
///
/// Trusted: `hex::encode`, documented (and written in hex 0.4.3) to give two
/// lowercase digits per byte, from the table `0123456789abcdef`.
#[verifier::external_body]
fn hex_encode(bytes: &[u8]) -> (r: String)
    ensures
        r@ == hex_text(bytes@),
{
    hex::encode(bytes)
}

/// Whether `file` matches some of the glob `patterns`; none when a pattern
/// is not a valid glob or the set cannot be built.
pub uninterp spec fn glob_match_of(patterns: Seq<Seq<char>>, file: Seq<char>) -> Option<bool>;

/// Whether `file` matches some of the glob `patterns`.
///
/// Trusted: `globset::Glob::new` for each pattern, `GlobSetBuilder::build`
/// and `GlobSet::is_match` on the file. The result is named
/// `glob_match_of`; glob syntax is not restated.
#[verifier::external_body]
fn globs_match_file(patterns: &Vec<String>, file: &str) -> (r: Option<bool>)
    ensures
        r == glob_match_of(texts(patterns@), file@),
{
    let mut builder = globset::GlobSetBuilder::new();
    for p in patterns {
        match globset::Glob::new(p) {
            Ok(g) => { builder.add(g); },
            Err(_) => return None,
        }
    }
    match builder.build() {
        Ok(set) => Some(set.is_match(file)),
        Err(_) => None,
    }
}

/// Some file matches the globs: the glob set is valid and matches it.
pub open spec fn some_file_matches(globs: Seq<Seq<char>>, files: Seq<Seq<char>>) -> bool {
    exists|i: int| 0 <= i < files.len() && #[trigger] glob_match_of(globs, files[i]) == Some(true)
}

// ---------------------------------------------------------------------------
// The decisions
// ---------------------------------------------------------------------------

/// The branch of a pushed ref: what follows `refs/heads/`, else `main`.
pub open spec fn branch_of(git_ref: Option<Seq<char>>) -> Seq<char> {
    match git_ref {
        Some(r) => if starts_with_seq(r, "refs/heads/"@) {
            r.skip(11)
        } else {
            "main"@
        },
        None => "main"@,
    }
}

/// The text after the first `github.com/` of `t`, up to the next one.
pub open spec fn after_github(t: Seq<char>) -> Seq<char> {
    let sep = "github.com/"@;
    if contains_seq(t, sep) {
        let i = choose|i: int| first_occurrence(t, sep, i);
        let rest = t.skip(i + sep.len());
        if contains_seq(rest, sep) {
            let j = choose|j: int| first_occurrence(rest, sep, j);
            rest.take(j)
        } else {
            rest
        }
    } else {
        seq![]
    }
}

/// The `owner/name` of a stored repository address (`.git` and trailing
/// slashes dropped); empty when it is not a GitHub address.
pub open spec fn repo_path_of(repo: Seq<char>) -> Seq<char> {
    after_github(trim_suffix_all(trim_suffix_all(repo, ".git"@), "/"@))
}

/// A project is the target of a push to `full_name`'s `branch`.
pub open spec fn project_matches(p: Project, full_name: Seq<char>, branch: Seq<char>) -> bool {
    repo_path_of(p.repo@).len() > 0 && repo_path_of(p.repo@) == full_name && p.branch@ == branch
}

/// A path filter entry as a glob: a plain folder name covers everything under it.
pub open spec fn expand_pattern(p: Seq<char>) -> Seq<char> {
    if !contains_seq(p, "*"@) && !contains_seq(p, "?"@) {
        trim_suffix_all(p, "/"@) + "/**"@
    } else {
        p
    }
}

/// The globs of a path filter: its comma-separated entries, trimmed and expanded.
pub open spec fn filter_globs(filter: Seq<char>) -> Seq<Seq<char>> {
    split_seq(filter, ',').map_values(|p: Seq<char>| expand_pattern(trim_seq(p)))
}

/// Whether changed files pass a path filter: an empty filter or `*` passes
/// everything; otherwise some file must match some glob, and an invalid
/// glob passes nothing.
pub open spec fn path_filter_passes(filter: Seq<char>, files: Seq<Seq<char>>) -> bool {
    if filter.len() == 0 || trim_seq(filter) == "*"@ {
        true
    } else {
        some_file_matches(filter_globs(filter), files)
    }
}

/// The files a commit touched: added, then modified, then removed.
pub open spec fn changed_files_of(c: Commit) -> Seq<Seq<char>> {
    texts(c.added@) + texts(c.modified@) + texts(c.removed@)
}

/// The error of a failed signature check, if any: the secret must be set,
/// the header present and of the form `sha256=<hex>`, and the hex the
/// HMAC-SHA256 of the body under the secret.
pub open spec fn signature_error(secret: Option<Seq<char>>, header: Option<Seq<char>>, body: Seq<char>) -> Option<Seq<char>> {
    match secret {
        None => Some("Webhook secret not configured"@),
        Some(k) => match header {
            None => Some("Missing signature header"@),
            Some(h) => if !starts_with_seq(h, "sha256="@) {
                Some("Invalid signature format"@)
            } else if h.skip(7) != hex_text(hmac_sha256_of(k, body)) {
                Some("Signature mismatch"@)
            } else {
                None
            },
        },
    }
}

/// The answer once builds were queued for the named projects.
pub open spec fn response_message(names: Seq<Seq<char>>) -> Seq<char> {
    if names.len() == 0 {
        "No matching path filters"@
    } else if names.len() == 1 {
        "Build queued for "@ + names[0]
    } else {
        "Builds queued for: "@ + join_seq(names, ", "@)
    }
}


/// The first occurrence of `p` is the one `choose` picks.
proof fn lemma_first_occurrence_choose(s: Seq<char>, p: Seq<char>, i: int)
    requires
        first_occurrence(s, p, i),
    ensures
        (choose|j: int| first_occurrence(s, p, j)) == i,
{
    let j = choose|j: int| first_occurrence(s, p, j);
    assert(first_occurrence(s, p, j));
}

/// The branch of a pushed ref (see `branch_of`).
pub fn branch_from_ref(git_ref: Option<&str>) -> (r: String)
    ensures
        r@ == branch_of(
            match git_ref {
                Some(x) => Some(x@),
                None => None,
            },
        ),
{
    match git_ref {
        Some(x) => {
            let v = chars(x);
            if starts_with_str(v.as_slice(), "refs/heads/") {
                proof {
                    reveal_strlit("refs/heads/");
                }
                let rest = slice_range(v.as_slice(), 11, v.len());
                assert(rest@ =~= x@.skip(11));
                from_chars(rest.as_slice())
            } else {
                "main".to_owned()
            }
        },
        None => "main".to_owned(),
    }
}

/// The `owner/name` of a stored repository address (see `repo_path_of`).
pub fn repo_path(repo: &str) -> (r: Vec<char>)
    ensures
        r@ == repo_path_of(repo@),
{
    let git = chars(".git");
    let slash = chars("/");
    let a = trim_suffix_all_exec(chars(repo).as_slice(), git.as_slice());
    let t = trim_suffix_all_exec(a.as_slice(), slash.as_slice());
    let sep = chars("github.com/");
    let tl = t.len();
    match find(t.as_slice(), sep.as_slice()) {
        Some(i) => {
            proof {
                lemma_first_occurrence_choose(t@, sep@, i as int);
                assert(i + sep@.len() <= t@.len());
            }
            let rest = slice_range(t.as_slice(), i + sep.len(), tl);
            assert(rest@ =~= t@.skip(i + sep@.len()));
            let rl = rest.len();
            match find(rest.as_slice(), sep.as_slice()) {
                Some(j) => {
                    proof {
                        lemma_first_occurrence_choose(rest@, sep@, j as int);
                    }
                    let out = slice_range(rest.as_slice(), 0, j);
                    assert(out@ =~= rest@.take(j as int));
                    out
                },
                None => rest,
            }
        },
        None => Vec::new(),
    }
}

/// Whether a project is the target of a push to `full_name`'s `branch`.
pub fn project_matches_push(project: &Project, full_name: &str, branch: &str) -> (r: bool)
    ensures
        r == project_matches(*project, full_name@, branch@),
{
    let path = repo_path(project.repo.as_str());
    path.len() > 0 && crate::text::chars_eq(path.as_slice(), chars(full_name).as_slice()) && str_eq(
        project.branch.as_str(),
        branch,
    )
}

/// A path filter entry as a glob (see `expand_pattern`).
fn expand_pattern_exec(p: &[char]) -> (r: Vec<char>)
    ensures
        r@ == expand_pattern(p@),
{
    if !contains_str(p, "*") && !contains_str(p, "?") {
        let slash = chars("/");
        let mut t = trim_suffix_all_exec(p, slash.as_slice());
        crate::text::append_str(&mut t, "/**");
        t
    } else {
        slice_range(p, 0, p.len())
    }
}

/// Whether changed files pass a path filter (see `path_filter_passes`).
pub fn match_path_filter(pattern: &str, files: &Vec<String>) -> (r: bool)
    ensures
        r == path_filter_passes(pattern@, texts(files@)),
{
    let pv = chars(pattern);
    if pv.len() == 0 {
        return true;
    }
    let tp = trim(pv.as_slice());
    if crate::text::chars_eq(tp.as_slice(), chars("*").as_slice()) {
        return true;
    }
    let pieces = split_char(pv.as_slice(), ',');
    let mut globs: Vec<String> = Vec::new();
    let mut i: usize = 0;
    while i < pieces.len()
        invariant
            i <= pieces@.len(),
            views(pieces@) == split_seq(pattern@, ','),
            texts(globs@) == split_seq(pattern@, ',').map_values(
                |p: Seq<char>| expand_pattern(trim_seq(p)),
            ).take(i as int),
        decreases pieces@.len() - i,
    {
        let g = expand_pattern_exec(trim(pieces[i].as_slice()).as_slice());
        let ghost before = texts(globs@);
        assert(split_seq(pattern@, ',')[i as int] == pieces@[i as int]@);
        globs.push(from_chars(g.as_slice()));
        assert(texts(globs@) =~= before.push(g@));
        assert(split_seq(pattern@, ',').map_values(|p: Seq<char>| expand_pattern(trim_seq(p))).take(
            i + 1,
        ) =~= split_seq(pattern@, ',').map_values(|p: Seq<char>| expand_pattern(trim_seq(p))).take(
            i as int,
        ).push(g@));
        i = i + 1;
    }
    assert(split_seq(pattern@, ',').map_values(|p: Seq<char>| expand_pattern(trim_seq(p))).take(
        pieces@.len() as int,
    ) =~= filter_globs(pattern@));
    let mut k: usize = 0;
    while k < files.len()
        invariant
            k <= files@.len(),
            texts(globs@) == filter_globs(pattern@),
            forall|j: int| 0 <= j < k ==> glob_match_of(texts(globs@), #[trigger] texts(files@)[j]) != Some(true),
        decreases files@.len() - k,
    {
        match globs_match_file(&globs, files[k].as_str()) {
            Some(true) => {
                assert(files@[k as int]@ == texts(files@)[k as int]);
                return true;
            },
            _ => {},
        }
        k = k + 1;
    }
    false
}

/// Appends copies of `src` to `out`.
fn push_all(out: &mut Vec<String>, src: &Vec<String>)
    ensures
        texts(final(out)@) == texts(old(out)@) + texts(src@),
{
    let ghost start = texts(out@);
    let mut i: usize = 0;
    assert(texts(src@).take(0) =~= Seq::<Seq<char>>::empty());
    assert(start + texts(src@).take(0) =~= start);
    while i < src.len()
        invariant
            i <= src@.len(),
            texts(out@) == start + texts(src@).take(i as int),
        decreases src@.len() - i,
    {
        let ghost before = texts(out@);
        out.push(src[i].clone());
        assert(texts(out@) =~= before.push(src@[i as int]@));
        assert(start + texts(src@).take(i + 1) =~= (start + texts(src@).take(i as int)).push(
            src@[i as int]@,
        ));
        i = i + 1;
    }
    assert(texts(src@).take(src@.len() as int) =~= texts(src@));
}

/// The files a commit touched (see `changed_files_of`).
pub fn changed_files(commit: &Commit) -> (r: Vec<String>)
    ensures
        texts(r@) == changed_files_of(*commit),
{
    let mut out: Vec<String> = Vec::new();
    assert(texts(out@) =~= Seq::<Seq<char>>::empty());
    push_all(&mut out, &commit.added);
    push_all(&mut out, &commit.modified);
    push_all(&mut out, &commit.removed);
    assert(Seq::<Seq<char>>::empty() + texts(commit.added@) =~= texts(commit.added@));
    out
}

/// The indices of the projects that a push to `full_name`'s `branch` targets, in order.
pub fn matching_projects(projects: &Vec<Project>, full_name: &str, branch: &str) -> (r: Vec<usize>)
    ensures
        forall|k: int| 0 <= k < r@.len() ==> (r@[k] as int) < projects@.len(),
        forall|k: int, l: int| 0 <= k < l < r@.len() ==> r@[k] < r@[l],
        forall|i: int|
            0 <= i < projects@.len() ==> (project_matches(#[trigger] projects@[i], full_name@, branch@)
                <==> r@.contains(i as usize)),
{
    let mut out: Vec<usize> = Vec::new();
    let mut i: usize = 0;
    while i < projects.len()
        invariant
            i <= projects@.len(),
            forall|k: int| 0 <= k < out@.len() ==> (out@[k] as int) < i,
            forall|k: int, l: int| 0 <= k < l < out@.len() ==> out@[k] < out@[l],
            forall|j: int|
                0 <= j < i ==> (project_matches(#[trigger] projects@[j], full_name@, branch@)
                    <==> out@.contains(j as usize)),
        decreases projects@.len() - i,
    {
        let ghost before = out@;
        if project_matches_push(&projects[i], full_name, branch) {
            out.push(i);
            assert(out@[out@.len() - 1] == i);
            assert forall|j: int| 0 <= j < i implies (project_matches(
                #[trigger] projects@[j],
                full_name@,
                branch@,
            ) <==> out@.contains(j as usize)) by {
                if before.contains(j as usize) {
                    let k = choose|k: int| 0 <= k < before.len() && before[k] == j as usize;
                    assert(out@[k] == j as usize);
                }
                if out@.contains(j as usize) {
                    let k = choose|k: int| 0 <= k < out@.len() && out@[k] == j as usize;
                    assert(k < before.len());
                    assert(before[k] == j as usize);
                }
            }
        } else {
            assert(!out@.contains(i));
        }
        i = i + 1;
    }
    out
}

/// The build a push creates for a project: the commit's id and message,
/// and its author as `name <email>`.
pub fn build_request(project_id: i64, commit: &Commit) -> (r: CreateBuild)
    ensures
        r.project_id == project_id,
        r.commit_hash@ == commit.id@,
        opt_view(r.commit_message) == Some(commit.message@),
        opt_view(r.author) == Some(commit.author.name@ + " <"@ + commit.author.email@ + ">"@),
{
    let mut a = chars(commit.author.name.as_str());
    append_str(&mut a, " <");
    append_str(&mut a, commit.author.email.as_str());
    append_str(&mut a, ">");
    CreateBuild {
        project_id,
        commit_hash: commit.id.clone(),
        commit_message: Some(commit.message.clone()),
        author: Some(from_chars(a.as_slice())),
    }
}

/// The commit a manual build names: the workspace's `HEAD` as `git
/// rev-parse` printed it (trimmed), or `HEAD` itself when that gave nothing.
pub open spec fn manual_commit(rev_parse: Option<Seq<char>>) -> Seq<char> {
    match rev_parse {
        Some(o) => trim_seq(o),
        None => "HEAD"@,
    }
}

/// A detail of a manual build's commit (its subject or author, trimmed),
/// known only once the commit itself was resolved.
pub open spec fn manual_detail(commit: Seq<char>, detail: Option<Seq<char>>) -> Option<Seq<char>> {
    if commit == "HEAD"@ {
        None
    } else {
        match detail {
            Some(d) => Some(trim_seq(d)),
            None => None,
        }
    }
}

/// The build a manual trigger creates for a project, from what `git`
/// printed in its workspace (`None` where a command failed or the workspace
/// is missing): the commit `rev-parse HEAD` gave, and its subject and
/// author from `git log`.
pub fn manual_build_request(
    project_id: i64,
    rev_parse: Option<&str>,
    subject: Option<&str>,
    author: Option<&str>,
) -> (r: CreateBuild)
    ensures
        r.project_id == project_id,
        r.commit_hash@ == manual_commit(opt_str(rev_parse)),
        opt_view(r.commit_message) == manual_detail(manual_commit(opt_str(rev_parse)), opt_str(subject)),
        opt_view(r.author) == manual_detail(manual_commit(opt_str(rev_parse)), opt_str(author)),
{
    let commit = match rev_parse {
        Some(o) => trim(chars(o).as_slice()),
        None => chars("HEAD"),
    };
    let resolved = !str_eq(from_chars(commit.as_slice()).as_str(), "HEAD");
    let commit_message = match subject {
        Some(d) => if resolved {
            Some(from_chars(trim(chars(d).as_slice()).as_slice()))
        } else {
            None
        },
        None => None,
    };
    let author_text = match author {
        Some(d) => if resolved {
            Some(from_chars(trim(chars(d).as_slice()).as_slice()))
        } else {
            None
        },
        None => None,
    };
    CreateBuild { project_id, commit_hash: from_chars(commit.as_slice()), commit_message, author: author_text }
}

/// The check of a push's signature (see `signature_error`): `secret` is
/// the configured webhook secret and `header` the `x-hub-signature-256`
/// header when present and readable.
pub fn verify_signature(secret: Option<&str>, header: Option<&str>, body: &str) -> (r: Result<(), String>)
    ensures
        match signature_error(
            match secret {
                Some(k) => Some(k@),
                None => None,
            },
            match header {
                Some(h) => Some(h@),
                None => None,
            },
            body@,
        ) {
            Some(e) => r matches Err(x) && x@ == e,
            None => r is Ok,
        },
{
    let k = match secret {
        Some(k) => k,
        None => return Err("Webhook secret not configured".to_owned()),
    };
    let h = match header {
        Some(h) => h,
        None => return Err("Missing signature header".to_owned()),
    };
    let hv = chars(h);
    if !starts_with_str(hv.as_slice(), "sha256=") {
        return Err("Invalid signature format".to_owned());
    }
    proof {
        reveal_strlit("sha256=");
    }
    let given = slice_range(hv.as_slice(), 7, hv.len());
    assert(given@ =~= h@.skip(7));
    let mac = hmac_sha256(k, body);
    let expected = hex_encode(mac.as_slice());
    if !crate::text::chars_eq(given.as_slice(), chars(expected.as_str()).as_slice()) {
        return Err("Signature mismatch".to_owned());
    }
    Ok(())
}

/// The answer once builds were queued: none, one, or several projects.
pub fn queued_response(names: &Vec<String>, build_ids: &Vec<i64>) -> (r: WebhookResponse)
    requires
        names@.len() == build_ids@.len(),
    ensures
        r.message@ == response_message(texts(names@)),
        r.build_id == if build_ids@.len() == 0 {
            None
        } else {
            Some(build_ids@[0])
        },
{
    if names.len() == 0 {
        return WebhookResponse { message: "No matching path filters".to_owned(), build_id: None };
    }
    if names.len() == 1 {
        let mut m = chars("Build queued for ");
        append_str(&mut m, names[0].as_str());
        return WebhookResponse { message: from_chars(m.as_slice()), build_id: Some(build_ids[0]) };
    }
    let mut parts: Vec<Vec<char>> = Vec::new();
    let mut i: usize = 0;
    while i < names.len()
        invariant
            i <= names@.len(),
            views(parts@) == texts(names@).take(i as int),
        decreases names@.len() - i,
    {
        let c = chars(names[i].as_str());
        proof {
            lemma_views_push(parts@, c);
            assert(texts(names@).take(i + 1) =~= texts(names@).take(i as int).push(c@));
        }
        parts.push(c);
        i = i + 1;
    }
    assert(texts(names@).take(names@.len() as int) =~= texts(names@));
    let mut m = chars("Builds queued for: ");
    let j = join(&parts, ", ");
    append_chars(&mut m, j.as_slice());
    WebhookResponse { message: from_chars(m.as_slice()), build_id: Some(build_ids[0]) }
}

} // verus!
