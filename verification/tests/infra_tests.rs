use agent::builder::{BuildPlan, OutputEntry};
use agent::docker::{push_json_assignments, BuildResult, ContainerPlan};
use agent::maintenance::{
    allocate_container_port, first_free_port, ports_to_probe, reconcile_slot, ContainerJanitor, SlotStateTracker,
};
use agent::models::{Container, ContainerStatus, DeploymentStatus, Project, ProtocolType, Slot};
use agent::proxy::{trim_suffix_all_exec, ProxyError, ProxyRouter, RouteTarget};
use agent::events::Event;

fn strings(v: &[&str]) -> Vec<String> {
    v.iter().map(|s| s.to_string()).collect()
}

fn entry(name: &str, size: u64, fresh: bool) -> OutputEntry {
    OutputEntry { name: name.to_string(), size: Some(size), modified_after_start: fresh }
}

fn project() -> Project {
    Project {
        id: 7,
        name: "web".to_string(),
        repo: "https://github.com/o/web".to_string(),
        path_filter: "*".to_string(),
        branch: "main".to_string(),
        build_image: "node:20".to_string(),
        build_command: "npm ci && npm run build".to_string(),
        cache_type: "npm".to_string(),
        working_directory: Some("frontend".to_string()),
        runtime_image: "nginx:alpine".to_string(),
        runtime_command: "nginx".to_string(),
        health_check_url: "/".to_string(),
        runtime_port: 80,
        build_env_vars: Some("{\"API\":\"https://x\"}".to_string()),
        runtime_env_vars: None,
        blue_port: 10001,
        green_port: 10002,
        active_slot: Slot::Green,
        blue_container_id: None,
        green_container_id: None,
        deployment_status: DeploymentStatus::NotDeployed,
        github_webhook_id: None,
        discord_webhook_id: None,
        created_at: String::new(),
        updated_at: String::new(),
    }
}

// --- Docker -------------------------------------------------------------------------

#[test]
fn build_results_follow_exit_codes() {
    let ok = BuildResult::from_exit(0, strings(&["done"]), "c1".to_string());
    assert!(ok.success);
    let bad = BuildResult::from_exit(2, vec![], "c2".to_string());
    assert!(!bad.success);
    assert_eq!(bad.exit_code, 2);
}

#[test]
fn json_variables_become_assignments() {
    let env = ContainerPlan::runtime_env(3000, Some("{\"B\":\"x\",\"A\":1}"));
    assert_eq!(env, strings(&["PORT=3000", "A=1", "B=x"]));
    assert_eq!(ContainerPlan::runtime_env(8080, Some("not json")), strings(&["PORT=8080"]));
    assert_eq!(ContainerPlan::runtime_env(8080, None), strings(&["PORT=8080"]));
    let mut out = strings(&["X=1"]);
    push_json_assignments(&mut out, "{\"Q\":\"\\\"quoted\\\"\"}", true);
    assert_eq!(out, strings(&["X=1", "Q=\"quoted\""]));
}

#[test]
fn image_references_and_names() {
    assert_eq!(ContainerPlan::image_reference("nginx"), "nginx:latest");
    assert_eq!(ContainerPlan::image_reference("node:20"), "node:20");
    let tags = vec![strings(&["redis:7"]), strings(&["nginx:latest", "nginx:1"])];
    assert!(ContainerPlan::image_is_present(&tags, "nginx"));
    assert!(!ContainerPlan::image_is_present(&tags, "redis"));
    assert_eq!(ContainerPlan::runtime_container_name(7, "blue"), "project-7-blue");
    assert_eq!(ContainerPlan::standalone_container_name("db"), "container-db");
    assert_eq!(ContainerPlan::standalone_data_dir("db"), "/data/easycicd/containers/db/data");
}

#[test]
fn build_mounts() {
    assert_eq!(ContainerPlan::cache_mount("npm"), "/root/.npm");
    let binds = ContainerPlan::build_binds("/out", Some("/cache"), "gradle");
    assert_eq!(
        binds,
        strings(&["/out:/output", "/var/run/docker.sock:/var/run/docker.sock", "/cache:/root/.gradle"])
    );
    assert_eq!(ContainerPlan::build_binds("/out", None, "npm").len(), 2);
}

#[test]
fn standalone_environment() {
    assert_eq!(ContainerPlan::persistent_env("Postgres:16"), strings(&["PGDATA=/data"]));
    assert_eq!(ContainerPlan::persistent_env("alpine"), Vec::<String>::new());
    let env = ContainerPlan::standalone_env(Some("{\"PASSWORD\":\"pw\"}"), "mysql:8", true);
    assert_eq!(env, strings(&["PASSWORD=pw", "MYSQL_DATADIR=/data"]));
    assert_eq!(ContainerPlan::standalone_env(None, "mysql:8", false), Vec::<String>::new());
}

// --- Builds -------------------------------------------------------------------------

#[test]
fn build_commands() {
    let r: String = BuildPlan::replace_all(&['a', 'b', 'a'], &['a'], &['x', 'y']).into_iter().collect();
    assert_eq!(r, "xybxy");
    assert_eq!(
        BuildPlan::authenticated_repo("https://github.com/o/r", Some("tok")),
        "https://tok@github.com/o/r"
    );
    assert_eq!(BuildPlan::authenticated_repo("git@github.com:o/r", Some("tok")), "git@github.com:o/r");
    assert_eq!(BuildPlan::authenticated_repo("https://github.com/o/r", None), "https://github.com/o/r");
    let env = BuildPlan::build_env(Some("{\"A\":\"1\"}"));
    assert_eq!(env, strings(&["CI=true", "SKIP_PREFLIGHT_CHECK=true", "A=1"]));
    assert_eq!(BuildPlan::env_exports(&env), "export CI=true && export SKIP_PREFLIGHT_CHECK=true && export A=1");
    assert_eq!(BuildPlan::output_copy_command("alpine", "make && cp x /output/"), "");
}

#[test]
fn full_build_command_for_a_project() {
    let cmd = BuildPlan::full_build_command(&project(), Some("tok"));
    assert!(cmd.starts_with(
        "git clone --depth 1 --branch main https://tok@github.com/o/web /workspace && cd /workspace/frontend && export CI=true"
    ));
    assert!(cmd.contains("export API=https://x && npm ci && npm run build && if [ -d dist ]"));
}

#[test]
fn nginx_configuration() {
    assert!(BuildPlan::needs_nginx_config("nginx:alpine"));
    assert!(!BuildPlan::needs_nginx_config("NGINX:alpine"));
    assert!(!BuildPlan::needs_nginx_config("node:20"));
    let conf = BuildPlan::nginx_config(8081);
    assert!(conf.contains("listen 8081;"));
    assert!(conf.contains("try_files $uri $uri/ /index.html;"));
}

#[test]
fn build_output_checks() {
    let v = |es: Vec<OutputEntry>, b: &str, r: &str| BuildPlan::validate_build_output(&es, b, r, false, false);
    assert_eq!(v(vec![], "node:20", "node:20-slim"), Err("Output directory is empty - build produced no files".to_string()));
    assert!(v(vec![entry("a.js", 500, false)], "node:20", "node:20-slim").unwrap_err().starts_with("No files were modified"));
    assert_eq!(
        v(vec![entry("a.js", 10, true)], "node:20", "node:20-slim"),
        Err("Build output too small (10 bytes). Expected at least 50 bytes for this project type.".to_string())
    );
    assert_eq!(
        v(vec![entry("app.js", 500, true)], "node:20", "nginx:alpine"),
        Err("Static web app build missing index.html. Found 1 files (500 bytes) but no index.html".to_string())
    );
    assert_eq!(v(vec![entry("index.html", 500, true)], "node:20", "nginx:alpine"), Ok(false));
    assert_eq!(
        v(vec![entry("lib.txt", 5000, true)], "gradle:8-jdk17", "eclipse-temurin:17-jre"),
        Err("Java project build missing JAR file. Expected app.jar in output directory.".to_string())
    );
    assert_eq!(v(vec![entry("app-1.jar", 5000, true)], "gradle:8-jdk17", "eclipse-temurin:17-jre"), Ok(false));
    let es = vec![entry("app.jar", 5000, true)];
    assert_eq!(BuildPlan::validate_build_output(&es, "gradle:8-jdk17", "eclipse-temurin:17-jre", false, true), Ok(true));
    assert_eq!(BuildPlan::validate_build_output(&vec![entry("a", 200, true)], "node", "nginx", true, false), Ok(false));
}

#[test]
fn jar_headers() {
    assert_eq!(BuildPlan::check_jar_header(&[0x50, 0x4b, 0x03, 0x04, 0]), Ok(()));
    assert!(BuildPlan::check_jar_header(&[0x50, 0x4b]).is_err());
    assert!(BuildPlan::check_jar_header(b"<html>").is_err());
    assert_eq!(BuildPlan::failure_message(3), "Build failed with exit code: 3");
}

// --- Maintenance ---------------------------------------------------------------------

#[test]
fn standalone_ports() {
    assert_eq!(first_free_port(&vec![]), Some(15000));
    assert_eq!(first_free_port(&vec![15000, 15001, 15003]), Some(15002));
    let all: Vec<i32> = (15000..20000).collect();
    assert_eq!(first_free_port(&all), None);
    assert_eq!(allocate_container_port(&vec![15000]), Ok(15001));
    assert_eq!(allocate_container_port(&all), Err("No available ports in Container range (15000-19999)".to_string()));
    assert_eq!(ports_to_probe(10, 14, &vec![11, 13]), vec![10, 12, 14]);
    assert_eq!(ports_to_probe(5, 4, &vec![]), Vec::<u16>::new());
    assert_eq!(ports_to_probe(65534, 65535, &vec![]), vec![65534, 65535]);
}

#[test]
fn cleanup_choices() {
    let ids = vec![1, 2];
    let names = strings(&["db"]);
    assert!(ContainerJanitor::cleanup_removes("/build-42", "exited", &ids, &names));
    assert!(!ContainerJanitor::cleanup_removes("/build-42", "running", &ids, &names));
    assert!(ContainerJanitor::cleanup_removes("/project-3-blue", "dead", &ids, &names));
    assert!(!ContainerJanitor::cleanup_removes("/project-2-green", "exited", &ids, &names));
    assert!(!ContainerJanitor::cleanup_removes("/project-x-green", "exited", &ids, &names));
    assert!(ContainerJanitor::cleanup_removes("/container-cache", "created", &ids, &names));
    assert!(!ContainerJanitor::cleanup_removes("/container-db", "exited", &ids, &names));
    assert!(!ContainerJanitor::cleanup_removes("/other", "exited", &ids, &names));
    assert!(ContainerJanitor::startup_removes("/project-9-blue", &ids, &names));
    assert!(!ContainerJanitor::startup_removes("/project-1-blue", &ids, &names));
    assert!(ContainerJanitor::startup_removes("/container-my-cache", &ids, &names));
    assert!(!ContainerJanitor::startup_removes("/container-db", &ids, &names));
    assert!(!ContainerJanitor::startup_removes("/postgres", &ids, &names));
}

#[test]
fn slot_states_are_reported_on_change() {
    let mut t = SlotStateTracker::new();
    match t.observe(4, Slot::Blue, true) {
        Some(Event::ContainerStatus { project_id, container_id, slot, status, .. }) => {
            assert_eq!(project_id, 4);
            assert_eq!(container_id, "project-4-blue");
            assert_eq!(slot, Slot::Blue);
            assert_eq!(status, "running");
        }
        other => panic!("unexpected {:?}", other),
    }
    assert!(t.observe(4, Slot::Blue, true).is_none());
    assert!(t.observe(4, Slot::Green, true).is_some());
    match t.observe(4, Slot::Blue, false) {
        Some(Event::ContainerStatus { status, .. }) => assert_eq!(status, "stopped"),
        other => panic!("unexpected {:?}", other),
    }
}

#[test]
fn recorded_containers_are_reconciled() {
    assert_eq!(reconcile_slot(&Some("c".to_string()), true), (Some("c".to_string()), false));
    assert_eq!(reconcile_slot(&Some("c".to_string()), false), (None, true));
    assert_eq!(reconcile_slot(&None, true), (None, false));
}

// --- Proxy ------------------------------------------------------------------------------

#[test]
fn requests_are_routed() {
    match ProxyRouter::route_request("/web/api/x", None, None) {
        Some(RouteTarget::Project { name, is_subdomain }) => {
            assert_eq!(name, "web");
            assert!(!is_subdomain);
        }
        other => panic!("unexpected {:?}", other),
    }
    match ProxyRouter::route_request("/x", Some("web-app.example.com:443"), Some("example.com")) {
        Some(RouteTarget::Project { name, is_subdomain }) => {
            assert_eq!(name, "web");
            assert!(is_subdomain);
        }
        other => panic!("unexpected {:?}", other),
    }
    match ProxyRouter::route_request("/", Some("db.example.com"), Some("example.com")) {
        Some(RouteTarget::Container { name, is_subdomain }) => {
            assert_eq!(name, "db");
            assert!(is_subdomain);
        }
        other => panic!("unexpected {:?}", other),
    }
    assert!(ProxyRouter::route_request("/", None, None).is_none());
    assert!(ProxyRouter::route_request("/", Some("other.org"), Some("example.com")).is_none());
}

#[test]
fn upstream_addresses() {
    assert_eq!(ProxyRouter::target_path("/web/api/x", false), "/api/x");
    assert_eq!(ProxyRouter::target_path("/web", false), "/");
    assert_eq!(ProxyRouter::target_path("/api/x", true), "/api/x");
    assert_eq!(ProxyRouter::target_uri("project-7-blue", 80, "/a", Some("q=1")), "http://project-7-blue:80/a?q=1");
    assert_eq!(ProxyRouter::target_uri("h", 8080, "/", None), "http://h:8080/");
    assert_eq!(ProxyRouter::project_upstream(&project()), ("project-7-green".to_string(), 80));
    assert!(ProxyRouter::forwards_header("accept"));
    assert!(!ProxyRouter::forwards_header("host"));
    let s: String = trim_suffix_all_exec(&['a', '/', '/'], &['/']).into_iter().collect();
    assert_eq!(s, "a");
}

#[test]
fn container_upstreams() {
    let mut c = Container {
        id: 1,
        name: "db".to_string(),
        container_id: None,
        port: 15000,
        container_port: Some(5432),
        image: "postgres".to_string(),
        env_vars: None,
        command: None,
        persist_data: 1,
        protocol_type: ProtocolType::Tcp,
        status: ContainerStatus::Running,
        created_at: String::new(),
        updated_at: String::new(),
    };
    assert_eq!(ProxyRouter::container_upstream(&c), Ok(("container-db".to_string(), 5432)));
    c.status = ContainerStatus::Stopped;
    let e = ProxyRouter::container_upstream(&c).unwrap_err();
    assert_eq!(e, ProxyError::ContainerNotRunning);
    assert_eq!(e.status(), 503);
    assert_eq!(e.message(), "Container is not running");
}
