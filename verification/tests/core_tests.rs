use agent::github::{decode_file_content, next_page, parse_repo_owner_name, repo_api};
use agent::models::{BuildStatus, ContainerStatus, DeploymentStatus, Project, ProtocolType, Slot, UpdateProject};
use agent::stored::{stored_string_list, string_list_json};
use agent::queue::BuildQueue;
use agent::settings::{setting_value, EmailWhitelist, WhitelistError};
use agent::webhook::{
    branch_from_ref, build_request, changed_files, manual_build_request, match_path_filter, matching_projects, queued_response, repo_path,
    verify_signature, Author, Commit,
};
use hmac::Mac;

fn project(id: i64, repo: &str, branch: &str) -> Project {
    Project {
        id,
        name: format!("app{}", id),
        repo: repo.to_string(),
        path_filter: "*".to_string(),
        branch: branch.to_string(),
        build_image: "node:20".to_string(),
        build_command: "npm ci".to_string(),
        cache_type: "npm".to_string(),
        working_directory: None,
        runtime_image: "node:20-slim".to_string(),
        runtime_command: "node src/index.js".to_string(),
        health_check_url: "/health".to_string(),
        runtime_port: 3000,
        build_env_vars: None,
        runtime_env_vars: None,
        blue_port: 10001,
        green_port: 10002,
        active_slot: Slot::Blue,
        blue_container_id: Some("blue-c".to_string()),
        green_container_id: None,
        deployment_status: DeploymentStatus::NotDeployed,
        github_webhook_id: None,
        discord_webhook_id: None,
        created_at: "2024-01-01T00:00:00Z".to_string(),
        updated_at: "2024-01-01T00:00:00Z".to_string(),
    }
}

fn strings(v: &[&str]) -> Vec<String> {
    v.iter().map(|s| s.to_string()).collect()
}

// --- models -----------------------------------------------------------------

#[test]
fn enum_labels_round_trip() {
    for s in [Slot::Blue, Slot::Green] {
        assert_eq!(Slot::parse(&s.label()), Ok(s));
    }
    for s in [BuildStatus::Queued, BuildStatus::Building, BuildStatus::Success, BuildStatus::Failed] {
        assert_eq!(BuildStatus::parse(&s.label()), Ok(s));
    }
    for s in [ContainerStatus::Running, ContainerStatus::Stopped] {
        assert_eq!(ContainerStatus::parse(&s.label()), Ok(s));
    }
    for s in [ProtocolType::Tcp, ProtocolType::Http] {
        assert_eq!(ProtocolType::parse(&s.label()), Ok(s));
    }
    assert_eq!(Slot::Blue.label(), "Blue");
    assert_eq!(BuildStatus::Queued.label(), "Queued");
    assert!(Slot::parse("purple").is_err());
    assert_eq!(Slot::parse_or_default("purple"), Slot::Blue);
    assert_eq!(ProtocolType::default_protocol(), ProtocolType::Tcp);
}

#[test]
fn project_slots_and_ports() {
    let p = project(1, "https://github.com/o/r", "main");
    assert_eq!(p.get_active_port(), 10001);
    assert_eq!(p.get_inactive_slot(), Slot::Green);
    assert_eq!(p.get_inactive_port(), 10002);
    assert_eq!(p.get_slot_port(&Slot::Green), 10002);
    assert_eq!(p.get_container_id(&Slot::Blue).map(|s| s.as_str()), Some("blue-c"));
    assert_eq!(p.get_container_id(&Slot::Green), None);
}

// --- build queue --------------------------------------------------------------

#[test]
fn queue_is_first_in_first_out_per_project() {
    let mut q = BuildQueue::new();
    q.enqueue(1, 10);
    q.enqueue(2, 20);
    q.enqueue(1, 11);
    assert_eq!(q.get_queue_length(1), 2);
    assert_eq!(q.get_queue_length(3), 0);
    assert_eq!(q.dequeue(1), Some(10));
    assert_eq!(q.dequeue(1), Some(11));
    assert_eq!(q.dequeue(1), None);
    assert_eq!(q.dequeue(2), Some(20));
    assert_eq!(q.dequeue(7), None);
}

#[test]
fn queue_processing_marks() {
    let mut q = BuildQueue::new();
    assert!(!q.is_processing(5));
    q.start_processing(5, 50);
    assert!(q.is_processing(5));
    q.finish_processing(5);
    assert!(!q.is_processing(5));
    q.finish_processing(5);
    assert!(!q.is_processing(5));
}

#[test]
fn queued_builds_are_listed() {
    let mut q = BuildQueue::new();
    q.enqueue(1, 10);
    q.enqueue(1, 11);
    q.enqueue(2, 20);
    let mut all = q.get_all_queued_builds();
    all.sort();
    assert_eq!(all, vec![(1, vec![10, 11]), (2, vec![20])]);
}

#[test]
fn ready_builds_start_one_per_project() {
    let mut q = BuildQueue::new();
    q.enqueue(1, 10);
    q.enqueue(1, 11);
    q.enqueue(2, 20);
    q.enqueue(3, 30);
    q.start_processing(3, 29);
    let started = q.take_ready_builds();
    assert_eq!(started, vec![(1, 10), (2, 20)]);
    assert!(q.is_processing(1));
    assert!(q.is_processing(2));
    assert_eq!(q.get_queue_length(1), 1);
    assert_eq!(q.get_queue_length(3), 1);
    // A project keeps its running build until it finishes.
    assert_eq!(q.take_ready_builds(), vec![]);
    q.finish_processing(1);
    assert_eq!(q.take_ready_builds(), vec![(1, 11)]);
}

// --- settings -----------------------------------------------------------------

#[test]
fn setting_values_are_trimmed() {
    assert_eq!(setting_value("  example.com \n").as_deref(), Some("example.com"));
    assert_eq!(setting_value("   "), None);
}

#[test]
fn empty_whitelist_allows_everyone() {
    assert!(EmailWhitelist::is_email_allowed(&vec![], "anyone@example.com"));
}

#[test]
fn whitelist_add_check_and_remove() {
    let list = EmailWhitelist::add_allowed_email(&vec![], "  Alice@Example.com ").unwrap();
    assert_eq!(list, strings(&["alice@example.com"]));
    assert!(EmailWhitelist::is_email_allowed(&list, "ALICE@example.com"));
    assert!(!EmailWhitelist::is_email_allowed(&list, "bob@example.com"));
    assert_eq!(EmailWhitelist::add_allowed_email(&list, "alice@EXAMPLE.com"), Err(WhitelistError::AlreadyAllowed));
    let removed = EmailWhitelist::remove_allowed_email(&list, "Alice@example.com").unwrap();
    assert!(removed.is_empty());
    assert_eq!(EmailWhitelist::remove_allowed_email(&removed, "alice@example.com"), Err(WhitelistError::NotFound));
}

#[test]
fn whitelist_refuses_invalid_addresses() {
    let e = EmailWhitelist::add_allowed_email(&vec![], "a@b").unwrap_err();
    assert_eq!(e, WhitelistError::InvalidEmail);
    assert_eq!(e.status(), 400);
    assert_eq!(e.message(), "Invalid email format");
    assert_eq!(EmailWhitelist::add_allowed_email(&vec![], "nobody.example.com"), Err(WhitelistError::InvalidEmail));
    assert_eq!(WhitelistError::AlreadyAllowed.status(), 409);
    assert_eq!(WhitelistError::NotFound.message(), "Email not found in whitelist");
}

// --- webhooks -------------------------------------------------------------------

fn hex_hmac(secret: &str, body: &str) -> String {
    let mut mac = hmac::Hmac::<sha2::Sha256>::new_from_slice(secret.as_bytes()).unwrap();
    mac.update(body.as_bytes());
    hex::encode(mac.finalize().into_bytes())
}

#[test]
fn signature_is_checked() {
    let body = "{\"ref\":\"refs/heads/main\"}";
    let good = format!("sha256={}", hex_hmac("s3cret", body));
    assert_eq!(verify_signature(Some("s3cret"), Some(&good), body), Ok(()));
    assert_eq!(verify_signature(None, Some(&good), body), Err("Webhook secret not configured".to_string()));
    assert_eq!(verify_signature(Some("s3cret"), None, body), Err("Missing signature header".to_string()));
    assert_eq!(verify_signature(Some("s3cret"), Some("sha1=abc"), body), Err("Invalid signature format".to_string()));
    assert_eq!(verify_signature(Some("other"), Some(&good), body), Err("Signature mismatch".to_string()));
}

#[test]
fn signature_of_known_vector() {
    // RFC 4231 test case 2: key "Jefe".
    let body = "what do ya want for nothing?";
    let header = "sha256=5bdcc146bf60754e6a042426089575c75a003f089d2739839dec58b964ec3843";
    assert_eq!(verify_signature(Some("Jefe"), Some(header), body), Ok(()));
}

#[test]
fn branches_of_refs() {
    assert_eq!(branch_from_ref(Some("refs/heads/feature/x")), "feature/x");
    assert_eq!(branch_from_ref(Some("refs/tags/v1")), "main");
    assert_eq!(branch_from_ref(None), "main");
}

#[test]
fn repository_paths() {
    let s: String = repo_path("https://github.com/owner/repo.git").into_iter().collect();
    assert_eq!(s, "owner/repo");
    let t: String = repo_path("https://github.com/owner/repo/").into_iter().collect();
    assert_eq!(t, "owner/repo");
    let u: String = repo_path("https://github.com/owner/repo.git/").into_iter().collect();
    assert_eq!(u, "owner/repo.git");
    let none: String = repo_path("owner/repo").into_iter().collect();
    assert_eq!(none, "");
}

#[test]
fn path_filters() {
    let files = strings(&["backend/src/main.rs", "README.md"]);
    assert!(match_path_filter("", &files));
    assert!(match_path_filter(" * ", &files));
    assert!(match_path_filter("backend", &files));
    assert!(match_path_filter("frontend/, backend/", &files));
    assert!(match_path_filter("*.md", &files));
    assert!(!match_path_filter("frontend", &files));
    assert!(!match_path_filter("[", &files));
}

#[test]
fn pushes_select_projects() {
    let projects = vec![
        project(1, "https://github.com/o/r.git", "main"),
        project(2, "https://github.com/o/other", "main"),
        project(3, "https://github.com/o/r", "dev"),
        project(4, "https://github.com/o/r/", "main"),
    ];
    assert_eq!(matching_projects(&projects, "o/r", "main"), vec![0, 3]);
    assert_eq!(matching_projects(&projects, "o/r", "dev"), vec![2]);
}

#[test]
fn commits_become_builds() {
    let c = Commit {
        id: "abc123".to_string(),
        message: "fix".to_string(),
        author: Author { name: "Ann".to_string(), email: "ann@example.com".to_string() },
        added: strings(&["a"]),
        modified: strings(&["m"]),
        removed: strings(&["r"]),
    };
    assert_eq!(changed_files(&c), strings(&["a", "m", "r"]));
    let b = build_request(9, &c);
    assert_eq!(b.project_id, 9);
    assert_eq!(b.commit_hash, "abc123");
    assert_eq!(b.commit_message.as_deref(), Some("fix"));
    assert_eq!(b.author.as_deref(), Some("Ann <ann@example.com>"));
}

#[test]
fn webhook_answers() {
    let none = queued_response(&vec![], &vec![]);
    assert_eq!(none.message, "No matching path filters");
    assert_eq!(none.build_id, None);
    let one = queued_response(&strings(&["web"]), &vec![7]);
    assert_eq!(one.message, "Build queued for web");
    assert_eq!(one.build_id, Some(7));
    let two = queued_response(&strings(&["web", "api"]), &vec![7, 8]);
    assert_eq!(two.message, "Builds queued for: web, api");
}

// --- GitHub -------------------------------------------------------------------------

#[test]
fn repository_addresses() {
    let p = |s: &str| parse_repo_owner_name(s);
    let on = Some(("owner".to_string(), "repo".to_string()));
    assert_eq!(p("https://github.com/owner/repo"), on);
    assert_eq!(p("https://github.com/owner/repo.git"), on);
    assert_eq!(p("git@github.com:owner/repo.git"), on);
    assert_eq!(p("owner/repo/"), on);
    assert_eq!(p("https://gitlab.com/owner/repo"), None);
    assert_eq!(p("justname"), None);
}

#[test]
fn listing_pages() {
    assert_eq!(next_page(1, 100), Some(2));
    assert_eq!(next_page(1, 99), None);
    assert_eq!(next_page(10, 100), None);
}

#[test]
fn file_contents_are_decoded() {
    assert_eq!(decode_file_content("aGVsbG8g\nd29ybGQ=\n", "base64"), Ok("hello world".to_string()));
    assert_eq!(decode_file_content("plain", "utf-8"), Ok("plain".to_string()));
    assert!(decode_file_content("!!!", "base64").is_err());
    assert!(decode_file_content("/w==", "base64").is_err());
    assert_eq!(repo_api("o", "r", "/contents/x"), "https://api.github.com/repos/o/r/contents/x");
}

#[test]
fn manual_builds_name_the_workspace_commit() {
    let b = manual_build_request(4, Some("abc123\n"), Some(" subject \n"), Some("Ann <a@x>\n"));
    assert_eq!(b.project_id, 4);
    assert_eq!(b.commit_hash, "abc123");
    assert_eq!(b.commit_message.as_deref(), Some("subject"));
    assert_eq!(b.author.as_deref(), Some("Ann <a@x>"));
    let b = manual_build_request(4, None, Some("subject"), Some("Ann"));
    assert_eq!(b.commit_hash, "HEAD");
    assert_eq!(b.commit_message, None);
    assert_eq!(b.author, None);
    let b = manual_build_request(4, Some("abc"), None, Some("Ann"));
    assert_eq!(b.commit_message, None);
    assert_eq!(b.author.as_deref(), Some("Ann"));
}

// --- stored lists ---------------------------------------------------------------------

#[test]
fn stored_lists_are_json_arrays() {
    assert_eq!(stored_string_list(Some("[\"a@x.io\",\"b@y.io\"]")), strings(&["a@x.io", "b@y.io"]));
    assert_eq!(stored_string_list(Some("not json")), Vec::<String>::new());
    assert_eq!(stored_string_list(Some("[1,2]")), Vec::<String>::new());
    assert_eq!(stored_string_list(None), Vec::<String>::new());
    let list = strings(&["a", "b\"c"]);
    let text = string_list_json(&list);
    assert_eq!(text, "[\"a\",\"b\\\"c\"]");
    assert_eq!(stored_string_list(Some(&text)), list);
}

#[test]
fn project_updates_keep_unset_fields() {
    let current = project(1, "https://github.com/o/r", "main");
    let upd = UpdateProject {
        name: Some("renamed".to_string()),
        repo: None,
        path_filter: None,
        branch: Some("dev".to_string()),
        build_image: None,
        build_command: None,
        cache_type: None,
        working_directory: Some("web".to_string()),
        build_env_vars: None,
        runtime_image: None,
        runtime_command: None,
        health_check_url: None,
        runtime_port: Some(8080),
        runtime_env_vars: None,
    };
    let p = upd.apply(current.clone());
    assert_eq!(p.name, "renamed");
    assert_eq!(p.branch, "dev");
    assert_eq!(p.repo, current.repo);
    assert_eq!(p.working_directory.as_deref(), Some("web"));
    assert_eq!(p.runtime_port, 8080);
    assert_eq!(p.blue_port, current.blue_port);
    assert_eq!(p.active_slot, current.active_slot);
    assert_eq!(p.blue_container_id, current.blue_container_id);
}
