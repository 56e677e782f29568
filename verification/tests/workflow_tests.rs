use agent::config::ConfigBuilder;
use agent::interpreter::{ExecutionPlan, ProjectType, Runtime, Task, TaskType, WorkflowInterpreter};
use agent::workflow::WorkflowParser;
use agent::detector::ProjectDetector;

fn task(name: &str, task_type: TaskType, command: &str) -> Task {
    Task { name: name.to_string(), task_type, command: command.to_string() }
}

fn plan(project_type: ProjectType, language: &str, version: &str, tasks: Vec<Task>) -> ExecutionPlan {
    ExecutionPlan {
        project_type,
        runtime: Runtime { language: language.to_string(), version: version.to_string(), env: Vec::new() },
        tasks,
        detected_port: None,
    }
}

#[test]
fn test_build_nodejs_backend_config() {
    let plan = ExecutionPlan {
        project_type: ProjectType::NodeJsBackend,
        runtime: Runtime { language: "node".to_string(), version: "20".to_string(), env: Vec::new() },
        tasks: vec![
            Task { name: "Install".to_string(), task_type: TaskType::InstallDependencies, command: "npm ci".to_string() },
            Task { name: "Start".to_string(), task_type: TaskType::Other, command: "node src/index.js &".to_string() },
        ],
        detected_port: None,
    };

    let config = ConfigBuilder::build(&plan).unwrap();

    assert_eq!(config.project_type, "Node.js (Backend)");
    assert_eq!(config.build_image, "node:20");
    assert_eq!(config.runtime_image, "node:20-slim");
    assert!(config.build_command.contains("npm ci"));
    assert!(config.build_command.contains("cp -r src"));
    assert_eq!(config.runtime_command, "node src/index.js");
    assert_eq!(config.runtime_port, 3000);
}

#[test]
fn test_interpret_nodejs_backend() {
    let yaml = r#"
name: CI
on: push
jobs:
  test:
    steps:
      - uses: actions/setup-node@v4
        with:
          node-version: '20'
      - run: npm ci
      - run: node src/index.js &
"#;

    let info = WorkflowParser::parse(yaml).unwrap();
    let plan = WorkflowInterpreter::interpret(&info).unwrap();

    assert_eq!(plan.project_type, ProjectType::NodeJsBackend);
    assert_eq!(plan.runtime.language, "node");
    assert_eq!(plan.runtime.version, "20");
    assert!(plan.tasks.iter().any(|t| t.task_type == TaskType::InstallDependencies));
}

#[test]
fn test_interpret_nodejs_frontend() {
    let yaml = r#"
name: Build
on: push
jobs:
  build:
    steps:
      - uses: actions/setup-node@v4
        with:
          node-version: '18'
      - run: npm install
      - run: npm run build
"#;

    let info = WorkflowParser::parse(yaml).unwrap();
    let plan = WorkflowInterpreter::interpret(&info).unwrap();

    assert_eq!(plan.runtime.language, "node");
    assert!(plan.tasks.iter().any(|t| t.task_type == TaskType::Build));
}

#[test]
fn parser_collects_setup_actions_and_commands() {
    let yaml = r#"
jobs:
  build:
    steps:
      - uses: actions/checkout@v4
      - uses: actions/setup-java@v4
        with:
          java-version: '17'
          distribution: temurin
      - name: Build
        run: |
          ./gradlew build
          echo done
"#;
    let info = WorkflowParser::parse(yaml).unwrap();
    assert_eq!(info.setup_actions.len(), 1);
    assert_eq!(info.setup_actions[0].version.as_deref(), Some("17"));
    assert_eq!(info.setup_actions[0].distribution.as_deref(), Some("temurin"));
    assert_eq!(info.run_commands.len(), 1);
    assert_eq!(info.run_commands[0].command, "./gradlew build\necho done\n");
    assert_eq!(info.run_commands[0].step_name.as_deref(), Some("Build"));
}

#[test]
fn parser_keeps_only_text_parameters() {
    let yaml = "jobs:\n  b:\n    steps:\n      - uses: actions/setup-node@v4\n        with:\n          node-version: 20\n          cache: npm\n";
    let info = WorkflowParser::parse(yaml).unwrap();
    assert_eq!(info.setup_actions[0].version, None);
    assert_eq!(info.setup_actions[0].with, vec![("cache".to_string(), "npm".to_string())]);
}

#[test]
fn branch_filter_of_push_trigger() {
    let doc = "on:\n  push:\n    branches: [main, release]\n";
    assert_eq!(WorkflowParser::is_active_for_branch(doc, "main"), Ok(true));
    assert_eq!(WorkflowParser::is_active_for_branch(doc, "release"), Ok(true));
    assert_eq!(WorkflowParser::is_active_for_branch(doc, "dev"), Ok(false));
    assert_eq!(WorkflowParser::is_active_for_branch("on: push\n", "dev"), Ok(true));
}

#[test]
fn text_that_is_not_yaml_is_refused() {
    let bad = "jobs: [unclosed\n";
    assert!(WorkflowParser::parse(bad).unwrap_err().starts_with("Failed to parse YAML: "));
    assert!(WorkflowParser::is_active_for_branch(bad, "main").unwrap_err().starts_with("Failed to parse YAML: "));
}

#[test]
fn workflow_texts_yield_configurations() {
    let yaml = "on:\n  push:\n    branches: [main]\njobs:\n  b:\n    steps:\n      - uses: actions/setup-node@v4\n        with:\n          node-version: '20'\n      - run: npm ci\n      - run: node server.js\n";
    let c = ProjectDetector::config_from_workflow(yaml, "main").unwrap();
    assert_eq!(c.project_type, "Node.js (Backend)");
    assert_eq!(c.runtime_command, "node server.js");
    assert!(ProjectDetector::config_from_workflow(yaml, "dev").is_none());
    assert!(ProjectDetector::config_from_workflow("jobs: [", "main").is_none());
}

#[test]
fn interpret_without_runtime_is_an_error() {
    let info = WorkflowParser::parse("jobs:\n  b:\n    steps:\n      - run: make\n").unwrap();
    assert!(WorkflowInterpreter::interpret(&info).is_err());
}

#[test]
fn interpret_spring_boot_project() {
    let yaml = r#"
jobs:
  build:
    steps:
      - uses: actions/setup-java@v4
        with:
          java-version: '21'
      - run: ./gradlew bootJar
"#;
    let plan = WorkflowInterpreter::interpret(&WorkflowParser::parse(yaml).unwrap()).unwrap();
    assert_eq!(plan.runtime.language, "java");
    assert_eq!(plan.runtime.version, "21");
    assert_eq!(plan.project_type, ProjectType::JavaSpringBoot);
    let config = ConfigBuilder::build(&plan).unwrap();
    assert_eq!(config.runtime_port, 8080);
    assert_eq!(config.build_image, "gradle:8-jdk21");
    assert_eq!(config.runtime_image, "eclipse-temurin:21-jre");
    assert!(config.build_command.starts_with("gradle clean build && find build/libs"));
}

#[test]
fn port_patterns_are_read() {
    let chars: Vec<char> = "8080".chars().collect();
    assert_eq!(WorkflowInterpreter::parse_port_number(&chars), Some(8080));
    let none: Vec<char> = "99999".chars().collect();
    assert_eq!(WorkflowInterpreter::parse_port_number(&none), None);
    let text: Vec<char> = "PORT=4000 node server.js".chars().collect();
    assert_eq!(WorkflowInterpreter::extract_port_from_pattern(&text, "PORT="), Some(4000));
}

#[test]
fn task_classification() {
    let c: Vec<char> = "npm ci".chars().collect();
    assert_eq!(WorkflowInterpreter::classify_task(&c, "node"), TaskType::InstallDependencies);
    let b: Vec<char> = "npm run build".chars().collect();
    assert_eq!(WorkflowInterpreter::classify_task(&b, "node"), TaskType::Build);
    let t: Vec<char> = "npm test".chars().collect();
    assert_eq!(WorkflowInterpreter::classify_task(&t, "node"), TaskType::Test);
    let e: Vec<char> = "echo hi".chars().collect();
    assert!(!WorkflowInterpreter::is_meaningful_command(&e));
}

#[test]
fn frontend_config_uses_nginx() {
    let p = plan(
        ProjectType::NodeJsFrontend,
        "node",
        "18",
        vec![task("i", TaskType::InstallDependencies, "npm install"), task("b", TaskType::Build, "npm run build")],
    );
    let config = ConfigBuilder::build(&p).unwrap();
    assert_eq!(config.project_type, "Node.js (Frontend)");
    assert_eq!(config.build_image, "node:18");
    assert_eq!(config.runtime_image, "nginx:alpine");
    assert_eq!(config.runtime_port, 80);
    assert_eq!(config.cache_type, "npm");
}

#[test]
fn node_command_is_extracted() {
    let c: Vec<char> = "node server.js & # run in background".chars().collect();
    let r = ConfigBuilder::extract_node_command(&c).map(|v| v.into_iter().collect::<String>());
    assert_eq!(r.as_deref(), Some("node server.js"));
}
