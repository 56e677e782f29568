//! What a GitHub Actions workflow declares: its setup actions and run steps,
//! and whether it runs for a branch.
use vstd::prelude::*;
use crate::assoc::{assoc_insert, pairs_view, insert};
use crate::text::{append_str, chars, contains_seq, contains_str, from_chars, lowercase, starts_with_seq, to_lowercase, str_eq};
use crate::assoc::assoc_get;
use crate::yaml::{parse_yaml_text, yaml_parsed, YamlValue, yaml_get, yaml_map, yaml_seq, yaml_str, get, as_mapping, as_sequence, as_str, map_lookup, lookup};

verus! {

/// The toolchain a setup action installs.
#[derive(Debug, Clone, Copy, PartialEq, Eq, Structural)]
pub enum SetupActionType {
    Node,
    Java,
    Python,
    Go,
    Rust,
    Unknown,
}

/// A `setup-*` step of a workflow.
#[derive(Debug, Clone)]
pub struct SetupAction {
    pub action_type: SetupActionType,
    /// The action reference, as written after `uses:`.
    pub uses: String,
    /// The string parameters under `with:`, in document order.
    pub with: Vec<(String, String)>,
    pub version: Option<String>,
    pub distribution: Option<String>,
    /// The string parameters other than the version and the distribution.
    pub other_params: Vec<(String, String)>,
}

/// A `run:` step of a workflow.
#[derive(Debug, Clone)]
pub struct RunCommand {
    pub step_name: Option<String>,
    pub command: String,
}

/// What a workflow declares, in document order.
#[derive(Debug, Clone)]
pub struct WorkflowInfo {
    /// One setup action per toolchain; a later one replaces an earlier one of its kind.
    pub setup_actions: Vec<SetupAction>,
    pub run_commands: Vec<RunCommand>,
    /// The run commands that build.
    pub build_commands: Vec<String>,
    /// The run commands that test.
    pub test_commands: Vec<String>,
}

/// A setup action as plain values.
#[verifier::ext_equal]
pub struct SetupActionModel {
    pub action_type: SetupActionType,
    pub uses: Seq<char>,
    pub with: Seq<(Seq<char>, Seq<char>)>,
    pub version: Option<Seq<char>>,
    pub distribution: Option<Seq<char>>,
    pub other_params: Seq<(Seq<char>, Seq<char>)>,
}

/// A run step as plain values.
#[verifier::ext_equal]
pub struct RunCommandModel {
    pub step_name: Option<Seq<char>>,
    pub command: Seq<char>,
}

/// The workflow information as plain values.
#[verifier::ext_equal]
pub struct WorkflowInfoModel {
    pub setup_actions: Seq<SetupActionModel>,
    pub run_commands: Seq<RunCommandModel>,
    pub build_commands: Seq<Seq<char>>,
    pub test_commands: Seq<Seq<char>>,
}

/// The text of an optional string.
pub open spec fn opt_view(o: Option<String>) -> Option<Seq<char>> {
    match o {
        Some(s) => Some(s@),
        None => None,
    }
}

/// The texts of a vector of strings.
pub open spec fn strings_view(v: Seq<String>) -> Seq<Seq<char>> {
    v.map_values(|s: String| s@)
}

impl View for SetupAction {
    type V = SetupActionModel;

    open spec fn view(&self) -> SetupActionModel {
        SetupActionModel {
            action_type: self.action_type,
            uses: self.uses@,
            with: pairs_view(self.with@),
            version: opt_view(self.version),
            distribution: opt_view(self.distribution),
            other_params: pairs_view(self.other_params@),
        }
    }
}

impl View for RunCommand {
    type V = RunCommandModel;

    open spec fn view(&self) -> RunCommandModel {
        RunCommandModel { step_name: opt_view(self.step_name), command: self.command@ }
    }
}

impl View for WorkflowInfo {
    type V = WorkflowInfoModel;

    open spec fn view(&self) -> WorkflowInfoModel {
        WorkflowInfoModel {
            setup_actions: self.setup_actions@.map_values(|a: SetupAction| a@),
            run_commands: self.run_commands@.map_values(|c: RunCommand| c@),
            build_commands: strings_view(self.build_commands@),
            test_commands: strings_view(self.test_commands@),
        }
    }
}

/// The toolchain that an action reference sets up, if it is a setup action.
pub open spec fn setup_type_of(uses: Seq<char>) -> Option<SetupActionType> {
    if contains_seq(uses, "setup-node"@) {
        Some(SetupActionType::Node)
    } else if contains_seq(uses, "setup-java"@) {
        Some(SetupActionType::Java)
    } else if contains_seq(uses, "setup-python"@) {
        Some(SetupActionType::Python)
    } else if contains_seq(uses, "setup-go"@) {
        Some(SetupActionType::Go)
    } else if contains_seq(uses, "setup-rust"@) {
        Some(SetupActionType::Rust)
    } else {
        None
    }
}

/// The parameter names that carry a toolchain version.
pub open spec fn is_version_key(k: Seq<char>) -> bool {
    k == "node-version"@ || k == "java-version"@ || k == "python-version"@ || k == "go-version"@
}

/// The setup action built from the string parameters `pairs` (in order).
pub open spec fn setup_from_pairs(
    t: SetupActionType,
    uses: Seq<char>,
    pairs: Seq<(Seq<char>, Seq<char>)>,
) -> SetupActionModel
    decreases pairs.len(),
{
    if pairs.len() == 0 {
        SetupActionModel {
            action_type: t,
            uses,
            with: seq![],
            version: None,
            distribution: None,
            other_params: seq![],
        }
    } else {
        let m = setup_from_pairs(t, uses, pairs.drop_last());
        let k = pairs.last().0;
        let v = pairs.last().1;
        let m2 = SetupActionModel { with: assoc_insert(m.with, k, v), ..m };
        if is_version_key(k) {
            SetupActionModel { version: Some(v), ..m2 }
        } else if k == "distribution"@ {
            SetupActionModel { distribution: Some(v), ..m2 }
        } else {
            SetupActionModel { other_params: assoc_insert(m2.other_params, k, v), ..m2 }
        }
    }
}

/// The entries of a mapping whose key and value are both strings, in order.
pub open spec fn string_pairs(entries: Seq<(YamlValue, YamlValue)>) -> Seq<(Seq<char>, Seq<char>)>
    decreases entries.len(),
{
    if entries.len() == 0 {
        seq![]
    } else {
        let prev = string_pairs(entries.drop_last());
        match (yaml_str(entries.last().0), yaml_str(entries.last().1)) {
            (Some(k), Some(v)) => prev.push((k, v)),
            _ => prev,
        }
    }
}

/// The string parameters under `with:` of a step.
pub open spec fn step_with(step: YamlValue) -> Seq<(Seq<char>, Seq<char>)> {
    match yaml_get(step, "with"@) {
        Some(w) => match yaml_map(w) {
            Some(entries) => string_pairs(entries),
            None => seq![],
        },
        None => seq![],
    }
}

/// The setup action a step declares, if any.
pub open spec fn step_setup(step: YamlValue) -> Option<SetupActionModel> {
    match yaml_get(step, "uses"@) {
        Some(u) => match yaml_str(u) {
            Some(uses) => match setup_type_of(uses) {
                Some(t) => Some(setup_from_pairs(t, uses, step_with(step))),
                None => None,
            },
            None => None,
        },
        None => None,
    }
}

/// The string under `key` of a step, if any.
pub open spec fn step_text(step: YamlValue, key: Seq<char>) -> Option<Seq<char>> {
    match yaml_get(step, key) {
        Some(v) => yaml_str(v),
        None => None,
    }
}

/// A run command counts as a build command.
pub open spec fn is_build_run(run: Seq<char>) -> bool {
    let l = lowercase(run);
    contains_seq(l, "build"@) || contains_seq(l, "gradle"@) || contains_seq(l, "gradlew"@)
        || contains_seq(l, "mvn"@) || contains_seq(l, "npm run build"@) || contains_seq(
        l,
        "cargo build"@,
    )
}

/// A run command counts as a test command.
pub open spec fn is_test_run(run: Seq<char>) -> bool {
    contains_seq(lowercase(run), "test"@)
}

/// The index of the first action of type `t`, or -1.
pub open spec fn action_index(actions: Seq<SetupActionModel>, t: SetupActionType) -> int
    decreases actions.len(),
{
    if actions.len() == 0 {
        -1
    } else if actions[0].action_type == t {
        0
    } else {
        let i = action_index(actions.drop_first(), t);
        if i < 0 {
            -1
        } else {
            i + 1
        }
    }
}

/// The first action of type `t` is at the index found, and no earlier one has it.
pub proof fn lemma_action_index(actions: Seq<SetupActionModel>, t: SetupActionType)
    ensures
        -1 <= action_index(actions, t) < actions.len(),
        action_index(actions, t) >= 0 ==> actions[action_index(actions, t)].action_type == t,
        forall|j: int|
            0 <= j < actions.len() && (action_index(actions, t) < 0 || j < action_index(actions, t))
                ==> actions[j].action_type != t,
    decreases actions.len(),
{
    if actions.len() > 0 {
        lemma_action_index(actions.drop_first(), t);
        assert forall|j: int| 0 < j < actions.len() implies actions[j] == actions.drop_first()[j - 1] by {}
    }
}

/// `actions` with `a` recorded: it replaces the action of its type, else is added.
pub open spec fn put_action(actions: Seq<SetupActionModel>, a: SetupActionModel) -> Seq<SetupActionModel> {
    let i = action_index(actions, a.action_type);
    if i >= 0 {
        actions.update(i, a)
    } else {
        actions.push(a)
    }
}

/// The workflow information after reading one more step.
pub open spec fn apply_step(info: WorkflowInfoModel, step: YamlValue) -> WorkflowInfoModel {
    let i1 = match step_setup(step) {
        Some(a) => WorkflowInfoModel { setup_actions: put_action(info.setup_actions, a), ..info },
        None => info,
    };
    match step_text(step, "run"@) {
        Some(run) => WorkflowInfoModel {
            run_commands: i1.run_commands.push(
                RunCommandModel { step_name: step_text(step, "name"@), command: run },
            ),
            build_commands: if is_build_run(run) {
                i1.build_commands.push(run)
            } else {
                i1.build_commands
            },
            test_commands: if is_test_run(run) {
                i1.test_commands.push(run)
            } else {
                i1.test_commands
            },
            ..i1
        },
        None => i1,
    }
}

/// Nothing declared.
pub open spec fn empty_info() -> WorkflowInfoModel {
    WorkflowInfoModel {
        setup_actions: seq![],
        run_commands: seq![],
        build_commands: seq![],
        test_commands: seq![],
    }
}

/// The workflow information of a list of steps, read in order.
pub open spec fn info_of_steps(steps: Seq<YamlValue>) -> WorkflowInfoModel
    decreases steps.len(),
{
    if steps.len() == 0 {
        empty_info()
    } else {
        apply_step(info_of_steps(steps.drop_last()), steps.last())
    }
}

/// The steps of a job.
pub open spec fn job_steps(job: YamlValue) -> Seq<YamlValue> {
    match yaml_get(job, "steps"@) {
        Some(s) => match yaml_seq(s) {
            Some(items) => items,
            None => seq![],
        },
        None => seq![],
    }
}

/// The steps of all jobs, job after job.
pub open spec fn steps_of_jobs(jobs: Seq<(YamlValue, YamlValue)>) -> Seq<YamlValue>
    decreases jobs.len(),
{
    if jobs.len() == 0 {
        seq![]
    } else {
        steps_of_jobs(jobs.drop_last()) + job_steps(jobs.last().1)
    }
}

/// The steps of a workflow document.
pub open spec fn workflow_steps(doc: YamlValue) -> Seq<YamlValue> {
    match yaml_get(doc, "jobs"@) {
        Some(j) => match yaml_map(j) {
            Some(jobs) => steps_of_jobs(jobs),
            None => seq![],
        },
        None => seq![],
    }
}

/// What a workflow document declares.
pub open spec fn workflow_info(doc: YamlValue) -> WorkflowInfoModel {
    info_of_steps(workflow_steps(doc))
}


/// Reads GitHub Actions workflow documents.
pub struct WorkflowParser;

/// An owned copy of `s`.
fn owned(s: &str) -> (r: String)
    ensures
        r@ == s@,
{
    s.to_owned()
}

/// The optional string under `key` of a step, copied.
fn step_string(step: &YamlValue, key: &str) -> (r: Option<String>)
    ensures
        opt_view(r) == step_text(*step, key@),
{
    match get(step, key) {
        Some(v) => match as_str(v) {
            Some(s) => Some(s.clone()),
            None => None,
        },
        None => None,
    }
}

impl WorkflowParser {
    /// The toolchain that the action reference `uses` sets up.
    fn setup_type(uses: &str) -> (r: Option<SetupActionType>)
        ensures
            r == setup_type_of(uses@),
    {
        let u = chars(uses);
        if contains_str(&u, "setup-node") {
            Some(SetupActionType::Node)
        } else if contains_str(&u, "setup-java") {
            Some(SetupActionType::Java)
        } else if contains_str(&u, "setup-python") {
            Some(SetupActionType::Python)
        } else if contains_str(&u, "setup-go") {
            Some(SetupActionType::Go)
        } else if contains_str(&u, "setup-rust") {
            Some(SetupActionType::Rust)
        } else {
            None
        }
    }

    /// Whether `k` names a toolchain version parameter.
    fn version_key(k: &str) -> (r: bool)
        ensures
            r == is_version_key(k@),
    {
        str_eq(k, "node-version") || str_eq(k, "java-version") || str_eq(k, "python-version")
            || str_eq(k, "go-version")
    }

    /// The setup action that a step using `uses` declares.
    fn parse_setup_action(uses: &str, step: &YamlValue) -> (r: Option<SetupAction>)
        requires
            step_text(*step, "uses"@) == Some(uses@),
        ensures
            match r {
                Some(a) => step_setup(*step) == Some(a@),
                None => step_setup(*step) is None,
            },
    {
        let t = match Self::setup_type(uses) {
            Some(t) => t,
            None => return None,
        };
        let mut setup = SetupAction {
            action_type: t,
            uses: owned(uses),
            with: Vec::new(),
            version: None,
            distribution: None,
            other_params: Vec::new(),
        };
        assert(setup@ =~= setup_from_pairs(t, uses@, seq![]));
        match get(step, "with") {
            Some(w) => match as_mapping(w) {
                Some(entries) => {
                    let mut i: usize = 0;
                    assert(entries@.take(0) =~= seq![]);
                    while i < entries.len()
                        invariant
                            i <= entries@.len(),
                            setup@ =~= setup_from_pairs(t, uses@, string_pairs(entries@.take(i as int))),
                        decreases entries@.len() - i,
                    {
                        let ghost before = string_pairs(entries@.take(i as int));
                        assert(entries@.take(i + 1).drop_last() =~= entries@.take(i as int));
                        assert(entries@.take(i + 1).last() == entries@[i as int]);
                        match (as_str(&entries[i].0), as_str(&entries[i].1)) {
                            (Some(k), Some(v)) => {
                                let ghost kv = k@;
                                let ghost vv = v@;
                                assert(string_pairs(entries@.take(i + 1)) == before.push((kv, vv)));
                                assert(before.push((kv, vv)).drop_last() =~= before);
                                insert(&mut setup.with, k.clone(), v.clone());
                                if Self::version_key(k.as_str()) {
                                    setup.version = Some(v.clone());
                                } else if str_eq(k.as_str(), "distribution") {
                                    setup.distribution = Some(v.clone());
                                } else {
                                    insert(&mut setup.other_params, k.clone(), v.clone());
                                }
                                assert(setup@ =~= setup_from_pairs(t, uses@, before.push((kv, vv))));
                            },
                            _ => {
                                assert(string_pairs(entries@.take(i + 1)) == before);
                            },
                        }
                        i = i + 1;
                    }
                    assert(entries@.take(entries@.len() as int) =~= entries@);
                },
                None => {},
            },
            None => {},
        }
        Some(setup)
    }
}


/// The index of the first action of type `t`.
fn find_action(actions: &Vec<SetupAction>, t: SetupActionType) -> (r: Option<usize>)
    ensures
        match r {
            Some(i) => action_index(actions@.map_values(|a: SetupAction| a@), t) == i,
            None => action_index(actions@.map_values(|a: SetupAction| a@), t) == -1,
        },
{
    let ghost models = actions@.map_values(|a: SetupAction| a@);
    proof {
        lemma_action_index(models, t);
    }
    let mut i: usize = 0;
    while i < actions.len()
        invariant
            i <= actions@.len(),
            models == actions@.map_values(|a: SetupAction| a@),
            -1 <= action_index(models, t) < models.len(),
            action_index(models, t) >= 0 ==> models[action_index(models, t)].action_type == t,
            forall|j: int|
                0 <= j < models.len() && (action_index(models, t) < 0 || j < action_index(models, t))
                    ==> models[j].action_type != t,
            forall|j: int| 0 <= j < i ==> models[j].action_type != t,
        decreases actions@.len() - i,
    {
        assert(models[i as int].action_type == actions@[i as int].action_type);
        if actions[i].action_type == t {
            return Some(i);
        }
        i = i + 1;
    }
    None
}

impl WorkflowParser {
    /// Whether a run command builds (`is_build_run`).
    fn is_build(run_lower: &[char]) -> (r: bool)
        ensures
            r == (contains_seq(run_lower@, "build"@) || contains_seq(run_lower@, "gradle"@)
                || contains_seq(run_lower@, "gradlew"@) || contains_seq(run_lower@, "mvn"@)
                || contains_seq(run_lower@, "npm run build"@) || contains_seq(
                run_lower@,
                "cargo build"@,
            )),
    {
        contains_str(run_lower, "build") || contains_str(run_lower, "gradle") || contains_str(
            run_lower,
            "gradlew",
        ) || contains_str(run_lower, "mvn") || contains_str(run_lower, "npm run build")
            || contains_str(run_lower, "cargo build")
    }

    /// Records what one step declares.
    fn read_step(info: &mut WorkflowInfo, step: &YamlValue)
        ensures
            final(info)@ =~~= apply_step(old(info)@, *step),
    {
        match get(step, "uses") {
            Some(u) => match as_str(u) {
                Some(uses) => match Self::parse_setup_action(uses.as_str(), step) {
                    Some(a) => {
                        let ghost am = a@;
                        let ghost before = info.setup_actions@.map_values(|x: SetupAction| x@);
                        proof {
                            lemma_action_index(before, a.action_type);
                        }
                        match find_action(&info.setup_actions, a.action_type) {
                            Some(i) => {
                                info.setup_actions.set(i, a);
                                assert(info.setup_actions@.map_values(|x: SetupAction| x@)
                                    =~= before.update(i as int, am));
                            },
                            None => {
                                info.setup_actions.push(a);
                                assert(info.setup_actions@.map_values(|x: SetupAction| x@)
                                    =~= before.push(am));
                            },
                        }
                    },
                    None => {},
                },
                None => {},
            },
            None => {},
        }
        match get(step, "run") {
            Some(r) => match as_str(r) {
                Some(run) => {
                    let ghost cmds = info.run_commands@.map_values(|c: RunCommand| c@);
                    let ghost builds = strings_view(info.build_commands@);
                    let ghost tests = strings_view(info.test_commands@);
                    let name = step_string(step, "name");
                    let c = RunCommand { step_name: name, command: run.clone() };
                    let ghost cm = c@;
                    info.run_commands.push(c);
                    assert(info.run_commands@.map_values(|c: RunCommand| c@) =~= cmds.push(cm));
                    let lower = to_lowercase(chars(run.as_str()).as_slice());
                    if Self::is_build(lower.as_slice()) {
                        info.build_commands.push(run.clone());
                        assert(strings_view(info.build_commands@) =~= builds.push(run@));
                    }
                    if contains_str(lower.as_slice(), "test") {
                        info.test_commands.push(run.clone());
                        assert(strings_view(info.test_commands@) =~= tests.push(run@));
                    }
                },
                None => {},
            },
            None => {},
        }
    }

    /// What a workflow document declares: its setup actions (one per
    /// toolchain, the last one read winning, kept where the first stood),
    /// every `run:` step, and which of those build and which test.
    pub fn parse_document(doc: &YamlValue) -> (r: WorkflowInfo)
        ensures
            r@ =~~= workflow_info(*doc),
    {
        let mut info = WorkflowInfo {
            setup_actions: Vec::new(),
            run_commands: Vec::new(),
            build_commands: Vec::new(),
            test_commands: Vec::new(),
        };
        assert(info@ =~~= empty_info());
        match get(doc, "jobs") {
            Some(j) => match as_mapping(j) {
                Some(jobs) => {
                    let mut a: usize = 0;
                    assert(jobs@.take(0) =~= seq![]);
                    while a < jobs.len()
                        invariant
                            a <= jobs@.len(),
                            info@ =~~= info_of_steps(steps_of_jobs(jobs@.take(a as int))),
                        decreases jobs@.len() - a,
                    {
                        let ghost done = steps_of_jobs(jobs@.take(a as int));
                        assert(jobs@.take(a + 1).drop_last() =~= jobs@.take(a as int));
                        let steps_opt = match get(&jobs[a].1, "steps") {
                            Some(s) => as_sequence(s),
                            None => None,
                        };
                        match steps_opt {
                            Some(steps) => {
                                assert(job_steps(jobs@[a as int].1) == steps@);
                                let mut b: usize = 0;
                                assert(done + steps@.take(0) =~= done);
                                while b < steps.len()
                                    invariant
                                        b <= steps@.len(),
                                        info@ =~~= info_of_steps(done + steps@.take(b as int)),
                                    decreases steps@.len() - b,
                                {
                                    assert((done + steps@.take(b + 1)).drop_last() =~= done
                                        + steps@.take(b as int));
                                    assert((done + steps@.take(b + 1)).last() == steps@[b as int]);
                                    Self::read_step(&mut info, &steps[b]);
                                    b = b + 1;
                                }
                                assert(steps@.take(steps@.len() as int) =~= steps@);
                            },
                            None => {
                                assert(job_steps(jobs@[a as int].1) == Seq::<YamlValue>::empty());
                                assert(done + Seq::<YamlValue>::empty() =~= done);
                            },
                        }
                        a = a + 1;
                    }
                    assert(jobs@.take(jobs@.len() as int) =~= jobs@);
                },
                None => {},
            },
            None => {},
        }
        info
    }
}


/// A branch pattern of `push.branches` that admits `branch`.
pub open spec fn admits_branch(pattern: Seq<char>, branch: Seq<char>) -> bool {
    pattern == branch || pattern == "**"@ || pattern == "*"@
}

/// Some string item of `list` admits `branch`.
pub open spec fn branch_listed(list: Seq<YamlValue>, branch: Seq<char>) -> bool {
    exists|i: int|
        0 <= i < list.len() && match #[trigger] yaml_str(list[i]) {
            Some(p) => admits_branch(p, branch),
            None => false,
        }
}

/// Some string item of `list` is `push`, `pull_request` or `workflow_dispatch`.
pub open spec fn lists_trigger(list: Seq<YamlValue>) -> bool {
    exists|i: int|
        0 <= i < list.len() && match #[trigger] yaml_str(list[i]) {
            Some(t) => t == "push"@ || t == "pull_request"@ || t == "workflow_dispatch"@,
            None => false,
        }
}

/// Whether the workflow `doc` runs for pushes to `branch`, by its `on:` key:
/// a single event name always does; a mapping with `push` or `pull_request`
/// does unless `push.branches` is a list that admits no pattern matching the
/// branch (exact name, `*` or `**`); a mapping with only `workflow_dispatch`
/// does; a list does when it names `push`, `pull_request` or `workflow_dispatch`.
pub open spec fn active_for_branch(doc: YamlValue, branch: Seq<char>) -> bool {
    match yaml_get(doc, "on"@) {
        None => false,
        Some(on) => if yaml_str(on) is Some {
            true
        } else {
            match yaml_map(on) {
                Some(m) => if map_lookup(m, "push"@) is Some || map_lookup(m, "pull_request"@) is Some {
                    match map_lookup(m, "push"@) {
                        Some(push) => match yaml_get(push, "branches"@) {
                            Some(bs) => match yaml_seq(bs) {
                                Some(list) => branch_listed(list, branch),
                                None => true,
                            },
                            None => true,
                        },
                        None => true,
                    }
                } else {
                    map_lookup(m, "workflow_dispatch"@) is Some
                },
                None => match yaml_seq(on) {
                    Some(list) => lists_trigger(list),
                    None => false,
                },
            }
        },
    }
}

impl WorkflowParser {
    /// Whether a branch list admits `branch`.
    fn any_branch(list: &Vec<YamlValue>, branch: &str) -> (r: bool)
        ensures
            r == branch_listed(list@, branch@),
    {
        let mut i: usize = 0;
        while i < list.len()
            invariant
                i <= list@.len(),
                forall|j: int|
                    0 <= j < i ==> match #[trigger] yaml_str(list@[j]) {
                        Some(p) => !admits_branch(p, branch@),
                        None => true,
                    },
            decreases list@.len() - i,
        {
            match as_str(&list[i]) {
                Some(p) => {
                    if str_eq(p.as_str(), branch) || str_eq(p.as_str(), "**") || str_eq(p.as_str(), "*") {
                        assert(yaml_str(list@[i as int]) == Some(p@));
                        return true;
                    }
                },
                None => {},
            }
            i = i + 1;
        }
        false
    }

    /// Whether a trigger list names a push, pull request or manual trigger.
    fn any_trigger(list: &Vec<YamlValue>) -> (r: bool)
        ensures
            r == lists_trigger(list@),
    {
        let mut i: usize = 0;
        while i < list.len()
            invariant
                i <= list@.len(),
                forall|j: int|
                    0 <= j < i ==> match #[trigger] yaml_str(list@[j]) {
                        Some(t) => !(t == "push"@ || t == "pull_request"@ || t == "workflow_dispatch"@),
                        None => true,
                    },
            decreases list@.len() - i,
        {
            match as_str(&list[i]) {
                Some(t) => {
                    if str_eq(t.as_str(), "push") || str_eq(t.as_str(), "pull_request") || str_eq(
                        t.as_str(),
                        "workflow_dispatch",
                    ) {
                        assert(yaml_str(list@[i as int]) == Some(t@));
                        return true;
                    }
                },
                None => {},
            }
            i = i + 1;
        }
        false
    }

    /// Whether the workflow `doc` runs for `branch` (see `active_for_branch`).
    pub fn document_active_for_branch(doc: &YamlValue, branch: &str) -> (r: bool)
        ensures
            r == active_for_branch(*doc, branch@),
    {
        let on = match get(doc, "on") {
            Some(on) => on,
            None => return false,
        };
        if as_str(on).is_some() {
            return true;
        }
        match as_mapping(on) {
            Some(m) => {
                if lookup(m, "push").is_some() || lookup(m, "pull_request").is_some() {
                    match lookup(m, "push") {
                        Some(push) => match get(push, "branches") {
                            Some(bs) => match as_sequence(bs) {
                                Some(list) => Self::any_branch(list, branch),
                                None => true,
                            },
                            None => true,
                        },
                        None => true,
                    }
                } else {
                    lookup(m, "workflow_dispatch").is_some()
                }
            },
            None => match as_sequence(on) {
                Some(list) => Self::any_trigger(list),
                None => false,
            },
        }
    }
}

/// A workflow whose `on:` is a list naming `push`, `pull_request` or
/// `workflow_dispatch` runs for every branch alike.
pub proof fn law_listed_trigger_runs_for_every_branch(
    doc: YamlValue,
    on: YamlValue,
    list: Seq<YamlValue>,
    t: int,
    branch: Seq<char>,
)
    requires
        yaml_get(doc, "on"@) == Some(on),
        yaml_seq(on) == Some(list),
        0 <= t < list.len(),
        yaml_str(list[t]) == Some("push"@) || yaml_str(list[t]) == Some("pull_request"@) || yaml_str(list[t])
            == Some("workflow_dispatch"@),
    ensures
        active_for_branch(doc, branch),
{
    assert(yaml_str(on) is None);
    assert(yaml_map(on) is None);
    assert(lists_trigger(list)) by {
        assert(match yaml_str(list[t]) {
            Some(x) => x == "push"@ || x == "pull_request"@ || x == "workflow_dispatch"@,
            None => false,
        });
    }
}

/// The error of a workflow text that is not YAML: it starts with this.
pub open spec fn yaml_error_prefix() -> Seq<char> {
    "Failed to parse YAML: "@
}

/// The error that a text is not YAML, with the parser's message.
fn yaml_error(message: &str) -> (r: String)
    ensures
        starts_with_seq(r@, yaml_error_prefix()),
{
    let mut v = chars("Failed to parse YAML: ");
    let ghost prefix = v@;
    append_str(&mut v, message);
    proof {
        assert(v@.subrange(0, prefix.len() as int) =~= prefix);
    }
    from_chars(v.as_slice())
}

impl WorkflowParser {
    /// What the workflow text `content` declares (see `workflow_info`);
    /// refused when it is not YAML.
    pub fn parse(content: &str) -> (r: Result<WorkflowInfo, String>)
        ensures
            match yaml_parsed(content@) {
                Some(doc) => r matches Ok(w) && w@ =~~= workflow_info(doc),
                None => r matches Err(e) && starts_with_seq(e@, yaml_error_prefix()),
            },
    {
        match parse_yaml_text(content) {
            Ok(doc) => Ok(Self::parse_document(&doc)),
            Err(m) => Err(yaml_error(m.as_str())),
        }
    }

    /// Whether the workflow text `content` runs for `branch` (see
    /// `active_for_branch`); refused when it is not YAML.
    pub fn is_active_for_branch(content: &str, branch: &str) -> (r: Result<bool, String>)
        ensures
            match yaml_parsed(content@) {
                Some(doc) => r == Ok::<bool, String>(active_for_branch(doc, branch@)),
                None => r matches Err(e) && starts_with_seq(e@, yaml_error_prefix()),
            },
    {
        match parse_yaml_text(content) {
            Ok(doc) => Ok(Self::document_active_for_branch(&doc, branch)),
            Err(m) => Err(yaml_error(m.as_str())),
        }
    }
}

} // verus!
