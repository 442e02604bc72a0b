//! From a build task to something that can be debugged.
//!
//! A task that runs `zig build run` or `zig test ...` is first turned into a
//! debug scenario whose build step compiles without running; once that step
//! has run, the same task is turned into the request that launches what it
//! built. A task of any other shape yields no scenario, which is no error,
//! and no launch request, which is one.

use vstd::prelude::*;
use crate::json::null_text;
use crate::path::{file_name, final_segment, join, joined, with_forward_slashes};
use crate::platform::Os;
use crate::resolve::ZigExtension;
use crate::text::same_text;

verus! {

/// A task: a command with its arguments, environment and working directory.
#[derive(Clone, Debug, PartialEq, Eq)]
pub struct TaskTemplate {
    /// The name shown for the task.
    pub label: String,
    /// The executable to spawn.
    pub command: String,
    pub args: Vec<String>,
    pub env: Vec<(String, String)>,
    pub cwd: Option<String>,
}

/// A task that builds what is to be debugged.
pub type BuildTaskTemplate = TaskTemplate;

/// A [`TaskTemplate`] with its texts as sequences of characters.
pub struct TaskTemplateView {
    pub label: Seq<char>,
    pub command: Seq<char>,
    pub args: Seq<Seq<char>>,
    pub env: Seq<(Seq<char>, Seq<char>)>,
    pub cwd: Option<Seq<char>>,
}

impl View for TaskTemplate {
    type V = TaskTemplateView;

    open spec fn view(&self) -> TaskTemplateView {
        TaskTemplateView {
            label: self.label@,
            command: self.command@,
            args: self.args.deep_view(),
            env: self.env.deep_view(),
            cwd: self.cwd.deep_view(),
        }
    }
}

/// A build task given in full, with the locator that is to find its product.
#[derive(Clone, Debug, PartialEq, Eq)]
pub struct BuildTaskDefinitionTemplatePayload {
    pub locator_name: Option<String>,
    pub template: BuildTaskTemplate,
}

/// The build step of a debug scenario.
#[derive(Clone, Debug, PartialEq, Eq)]
pub enum BuildTaskDefinition {
    /// A task known by its name.
    ByName(String),
    /// A task given in full.
    Template(BuildTaskDefinitionTemplatePayload),
}

/// How to reach a debug adapter over TCP, as far as it is fixed.
#[derive(Clone, Copy, Debug, PartialEq, Eq, Structural)]
pub struct TcpArgumentsTemplate {
    pub port: Option<u16>,
    pub host: Option<u32>,
    pub timeout: Option<u64>,
}

/// What to debug: a label, the adapter, an optional build step, and the
/// adapter's configuration as JSON text.
#[derive(Clone, Debug, PartialEq, Eq)]
pub struct DebugScenario {
    pub label: String,
    pub adapter: String,
    pub build: Option<BuildTaskDefinition>,
    pub config: String,
    pub tcp_connection: Option<TcpArgumentsTemplate>,
}

/// A [`BuildTaskDefinition`] with its texts as sequences of characters.
pub enum BuildTaskDefinitionView {
    ByName(Seq<char>),
    Template { locator_name: Option<Seq<char>>, template: TaskTemplateView },
}

impl View for BuildTaskDefinition {
    type V = BuildTaskDefinitionView;

    open spec fn view(&self) -> BuildTaskDefinitionView {
        match self {
            BuildTaskDefinition::ByName(name) => BuildTaskDefinitionView::ByName(name@),
            BuildTaskDefinition::Template(payload) => BuildTaskDefinitionView::Template {
                locator_name: payload.locator_name.deep_view(),
                template: payload.template@,
            },
        }
    }
}

/// A [`DebugScenario`] with its texts as sequences of characters.
pub struct DebugScenarioView {
    pub label: Seq<char>,
    pub adapter: Seq<char>,
    pub build: Option<BuildTaskDefinitionView>,
    pub config: Seq<char>,
    pub tcp_connection: Option<TcpArgumentsTemplate>,
}

impl View for DebugScenario {
    type V = DebugScenarioView;

    open spec fn view(&self) -> DebugScenarioView {
        DebugScenarioView {
            label: self.label@,
            adapter: self.adapter@,
            build: match self.build {
                Some(build) => Some(build@),
                None => None,
            },
            config: self.config@,
            tcp_connection: self.tcp_connection,
        }
    }
}

/// A request to start a program under the debugger.
#[derive(Clone, Debug, PartialEq, Eq)]
pub struct LaunchRequest {
    pub program: String,
    pub cwd: Option<String>,
    pub args: Vec<String>,
    pub envs: Vec<(String, String)>,
}

/// A request to debug a process that runs already.
#[derive(Clone, Copy, Debug, PartialEq, Eq, Structural)]
pub struct AttachRequest {
    pub process_id: Option<u32>,
}

/// What the debugger is asked to do.
#[derive(Clone, Debug, PartialEq, Eq)]
pub enum DebugRequest {
    Launch(LaunchRequest),
    Attach(AttachRequest),
}

/// A [`LaunchRequest`] with its texts as sequences of characters.
pub struct LaunchRequestView {
    pub program: Seq<char>,
    pub cwd: Option<Seq<char>>,
    pub args: Seq<Seq<char>>,
    pub envs: Seq<(Seq<char>, Seq<char>)>,
}

impl View for LaunchRequest {
    type V = LaunchRequestView;

    open spec fn view(&self) -> LaunchRequestView {
        LaunchRequestView {
            program: self.program@,
            cwd: self.cwd.deep_view(),
            args: self.args.deep_view(),
            envs: self.envs.deep_view(),
        }
    }
}

/// A [`DebugRequest`] with its texts as sequences of characters.
pub enum DebugRequestView {
    Launch(LaunchRequestView),
    Attach(AttachRequest),
}

impl View for DebugRequest {
    type V = DebugRequestView;

    open spec fn view(&self) -> DebugRequestView {
        match self {
            DebugRequest::Launch(request) => DebugRequestView::Launch(request@),
            DebugRequest::Attach(request) => DebugRequestView::Attach(*request),
        }
    }
}

/// Why a task gives no launch request.
#[derive(Clone, Copy, Debug, PartialEq, Eq, Structural)]
pub enum LocatorError {
    /// The task's working directory names no project.
    NoProjectName,
    /// The task is neither a build nor a test.
    UnsupportedTask,
}

/// The text a locator error is reported with.
pub open spec fn locator_message(error: LocatorError) -> Seq<char> {
    match error {
        LocatorError::NoProjectName => "Failed to get project name"@,
        LocatorError::UnsupportedTask => "Unsupported build task"@,
    }
}

impl LocatorError {
    /// The text this error is reported with.
    pub fn message(&self) -> (r: String)
        ensures
            r@ == locator_message(*self),
    {
        match self {
            LocatorError::NoProjectName => String::from_str("Failed to get project name"),
            LocatorError::UnsupportedTask => String::from_str("Unsupported build task"),
        }
    }
}

/// What a build task is for, as far as a scenario can be made of it.
#[derive(Clone, Copy, Debug, PartialEq, Eq, Structural)]
pub enum BuildTaskIntent {
    /// `build run`: build the project, then debug what was built.
    BuildRun,
    /// `test ...`: compile the tests without running them, then debug them.
    TestNoExec,
    /// Anything else.
    Unsupported,
}

/// What a task that was built is launched as.
#[derive(Clone, Copy, Debug, PartialEq, Eq, Structural)]
pub enum LaunchTarget {
    /// `build ...`: the project's binary.
    ProjectBinary,
    /// `test ...`: the test binary.
    TestBinary,
    /// Anything else.
    Unsupported,
}

/// Whether the argument at `index` is there and reads `word`.
pub open spec fn argument_is(args: Seq<Seq<char>>, index: int, word: Seq<char>) -> bool {
    0 <= index < args.len() && args[index] == word
}

/// What the arguments of a task ask for: `build run` and `test` are
/// understood, `build` with anything else behind it is not.
pub open spec fn intent_of(args: Seq<Seq<char>>) -> BuildTaskIntent {
    if argument_is(args, 0, "build"@) {
        if argument_is(args, 1, "run"@) {
            BuildTaskIntent::BuildRun
        } else {
            BuildTaskIntent::Unsupported
        }
    } else if argument_is(args, 0, "test"@) {
        BuildTaskIntent::TestNoExec
    } else {
        BuildTaskIntent::Unsupported
    }
}

/// What a task is launched as: the first argument alone decides.
pub open spec fn launch_target_of(args: Seq<Seq<char>>) -> LaunchTarget {
    if argument_is(args, 0, "build"@) {
        LaunchTarget::ProjectBinary
    } else if argument_is(args, 0, "test"@) {
        LaunchTarget::TestBinary
    } else {
        LaunchTarget::Unsupported
    }
}

/// The path that tests are compiled to: `zig_test` in the current directory.
pub open spec fn test_exe_path(current_dir: Seq<char>) -> Seq<char> {
    joined(current_dir, "zig_test"@)
}

/// The name of the project a task belongs to: the name its working
/// directory ends in.
pub open spec fn project_name(cwd: Option<Seq<char>>, os: Os) -> Option<Seq<char>> {
    match cwd {
        Some(cwd) => final_segment(with_forward_slashes(cwd, os)),
        None => None,
    }
}

/// `text` between single quotes.
pub open spec fn quoted(text: Seq<char>) -> Seq<char> {
    seq!['\''] + text + seq!['\'']
}

/// The argument that names where the test binary is written. On Windows the
/// path gets `.exe` and stands in quotes.
pub open spec fn emit_bin_argument(os: Os, exe: Seq<char>) -> Seq<char> {
    match os {
        Os::Windows => "-femit-bin="@ + quoted(exe + ".exe"@),
        Os::Mac | Os::Linux => "-femit-bin="@ + exe,
    }
}

/// The arguments that compile a test task without running it: the task's
/// own, then `--test-no-exec` and where to write the binary. On Windows every
/// argument behind `test` is quoted.
pub open spec fn test_arguments(args: Seq<Seq<char>>, os: Os, exe: Seq<char>) -> Seq<Seq<char>> {
    let own = match os {
        Os::Windows => seq!["test"@] + Seq::new(
            (args.len() - 1) as nat,
            |i: int| quoted(args[i + 1]),
        ),
        Os::Mac | Os::Linux => args,
    };
    own.push("--test-no-exec"@).push(emit_bin_argument(os, exe))
}

/// The build step for a task, if its arguments are understood.
pub open spec fn template_of(task: TaskTemplateView, os: Os, current_dir: Option<Seq<char>>) -> Option<
    TaskTemplateView,
> {
    match intent_of(task.args) {
        BuildTaskIntent::BuildRun => Some(
            TaskTemplateView {
                label: "zig build"@,
                command: "zig"@,
                args: seq!["build"@],
                env: task.env,
                cwd: task.cwd,
            },
        ),
        BuildTaskIntent::TestNoExec => Some(
            TaskTemplateView {
                label: "zig test --test-no-exec"@,
                command: "zig"@,
                args: test_arguments(task.args, os, test_exe_path(current_dir.unwrap())),
                env: task.env,
                cwd: task.cwd,
            },
        ),
        BuildTaskIntent::Unsupported => None,
    }
}

/// Whether a build task's scenario depends on the current directory: that of
/// a test run by `zig` does.
pub open spec fn scenario_needs_current_dir(task: TaskTemplateView) -> bool {
    task.command == "zig"@ && intent_of(task.args) == BuildTaskIntent::TestNoExec
}

/// The scenario for a task: none unless the command is `zig` and the
/// arguments are understood; else the adapter and label as given, an empty
/// configuration (`null`), and the build step with the locator's name.
pub open spec fn scenario_of(
    locator_name: Seq<char>,
    task: TaskTemplateView,
    resolved_label: Seq<char>,
    debug_adapter_name: Seq<char>,
    os: Os,
    current_dir: Option<Seq<char>>,
) -> Option<DebugScenarioView> {
    if task.command != "zig"@ {
        None
    } else {
        match template_of(task, os, current_dir) {
            Some(template) => Some(
                DebugScenarioView {
                    label: resolved_label,
                    adapter: debug_adapter_name,
                    build: Some(
                        BuildTaskDefinitionView::Template {
                            locator_name: Some(locator_name),
                            template,
                        },
                    ),
                    config: "null"@,
                    tcp_connection: None,
                },
            ),
            None => None,
        }
    }
}

/// The request that launches what a task built: for a build, the binary
/// named after the project under `zig-out/bin/`; for a test, the test binary;
/// each in the task's working directory and environment, without arguments.
pub open spec fn launch_of(task: TaskTemplateView, os: Os, current_dir: Option<Seq<char>>) -> Result<
    DebugRequestView,
    LocatorError,
> {
    match launch_target_of(task.args) {
        LaunchTarget::ProjectBinary => match project_name(task.cwd, os) {
            Some(name) => Ok(
                DebugRequestView::Launch(
                    LaunchRequestView {
                        program: "zig-out/bin/"@ + name,
                        cwd: task.cwd,
                        args: Seq::empty(),
                        envs: task.env,
                    },
                ),
            ),
            None => Err(LocatorError::NoProjectName),
        },
        LaunchTarget::TestBinary => Ok(
            DebugRequestView::Launch(
                LaunchRequestView {
                    program: test_exe_path(current_dir.unwrap()),
                    cwd: task.cwd,
                    args: Seq::empty(),
                    envs: task.env,
                },
            ),
        ),
        LaunchTarget::Unsupported => Err(LocatorError::UnsupportedTask),
    }
}

/// A scenario, or none, with its texts as sequences of characters.
pub open spec fn scenario_view(scenario: Option<DebugScenario>) -> Option<DebugScenarioView> {
    match scenario {
        Some(s) => Some(s@),
        None => None,
    }
}

/// A template, or none, with its texts as sequences of characters.
pub open spec fn template_view(template: Option<TaskTemplate>) -> Option<TaskTemplateView> {
    match template {
        Some(t) => Some(t@),
        None => None,
    }
}

/// A request or an error, with its texts as sequences of characters.
pub open spec fn request_view(request: Result<DebugRequest, LocatorError>) -> Result<
    DebugRequestView,
    LocatorError,
> {
    match request {
        Ok(r) => Ok(r@),
        Err(e) => Err(e),
    }
}

fn argument_reads(args: &Vec<String>, index: usize, word: &str) -> (r: bool)
    ensures
        r == argument_is(args.deep_view(), index as int, word@),
{
    index < args.len() && same_text(args[index].as_str(), word)
}

fn push_text(texts: &mut Vec<String>, text: String)
    ensures
        final(texts).deep_view() == old(texts).deep_view().push(text@),
{
    texts.push(text);
    assert(texts.deep_view() =~= old(texts).deep_view().push(text@));
}

fn quote(text: &str) -> (r: String)
    ensures
        r@ == quoted(text@),
{
    let mut r = String::new();
    r.push('\'');
    r.append(text);
    r.push('\'');
    assert(r@ =~= quoted(text@));
    r
}

/// What the arguments of a task ask for.
pub fn classify(args: &Vec<String>) -> (r: BuildTaskIntent)
    ensures
        r == intent_of(args.deep_view()),
{
    if argument_reads(args, 0, "build") {
        if argument_reads(args, 1, "run") {
            BuildTaskIntent::BuildRun
        } else {
            BuildTaskIntent::Unsupported
        }
    } else if argument_reads(args, 0, "test") {
        BuildTaskIntent::TestNoExec
    } else {
        BuildTaskIntent::Unsupported
    }
}

/// What a task is launched as.
pub fn launch_target(args: &Vec<String>) -> (r: LaunchTarget)
    ensures
        r == launch_target_of(args.deep_view()),
{
    if argument_reads(args, 0, "build") {
        LaunchTarget::ProjectBinary
    } else if argument_reads(args, 0, "test") {
        LaunchTarget::TestBinary
    } else {
        LaunchTarget::Unsupported
    }
}

/// The path that tests are compiled to, given the current directory, and
/// nothing where the current directory is not known.
pub fn get_test_exe_path(current_dir: Option<&str>) -> (r: Option<String>)
    ensures
        r.deep_view() == match current_dir {
            Some(dir) => Some(test_exe_path(dir@)),
            None => None,
        },
{
    match current_dir {
        Some(dir) => Some(join(dir, "zig_test")),
        None => None,
    }
}

/// The name of the project that `task` belongs to.
pub fn get_project_name(task: &TaskTemplate, os: Os) -> (r: Option<String>)
    ensures
        r.deep_view() == project_name(task@.cwd, os),
{
    match &task.cwd {
        Some(cwd) => file_name(cwd.as_str(), os),
        None => None,
    }
}

/// Whether the scenario for `task` needs the current directory.
pub fn needs_current_dir_for_scenario(task: &TaskTemplate) -> (r: bool)
    ensures
        r == scenario_needs_current_dir(task@),
{
    same_text(task.command.as_str(), "zig") && classify(&task.args) == BuildTaskIntent::TestNoExec
}

/// Whether the launch request for `task` needs the current directory.
pub fn needs_current_dir_for_launch(task: &TaskTemplate) -> (r: bool)
    ensures
        r == (launch_target_of(task@.args) == LaunchTarget::TestBinary),
{
    launch_target(&task.args) == LaunchTarget::TestBinary
}

fn emit_bin(os: Os, exe: &str) -> (r: String)
    ensures
        r@ == emit_bin_argument(os, exe@),
{
    let mut r = String::from_str("-femit-bin=");
    match os {
        Os::Windows => {
            let mut path = String::from_str(exe);
            path.append(".exe");
            r.append(quote(path.as_str()).as_str());
        },
        Os::Mac | Os::Linux => {
            r.append(exe);
        },
    }
    r
}

fn test_args(args: Vec<String>, os: Os, exe: &str) -> (r: Vec<String>)
    requires
        args.len() > 0,
    ensures
        r.deep_view() == test_arguments(args.deep_view(), os, exe@),
{
    let mut own: Vec<String> = match os {
        Os::Windows => {
            let mut own: Vec<String> = Vec::new();
            push_text(&mut own, String::from_str("test"));
            let mut i: usize = 1;
            while i < args.len()
                invariant
                    1 <= i <= args.len(),
                    own.deep_view() == seq!["test"@] + Seq::new(
                        (i - 1) as nat,
                        |k: int| quoted(args.deep_view()[k + 1]),
                    ),
                decreases args.len() - i,
            {
                let ghost before = own.deep_view();
                push_text(&mut own, quote(args[i].as_str()));
                proof {
                    assert(args.deep_view()[i as int] == args@[i as int]@);
                    assert(own.deep_view() =~= seq!["test"@] + Seq::new(
                        i as nat,
                        |k: int| quoted(args.deep_view()[k + 1]),
                    ));
                }
                i = i + 1;
            }
            own
        },
        Os::Mac | Os::Linux => args,
    };
    push_text(&mut own, String::from_str("--test-no-exec"));
    push_text(&mut own, emit_bin(os, exe));
    own
}

/// The build step for `task`, if its arguments are understood: for
/// `build run` a plain build, for a test the task's own arguments with the
/// test compiled to `zig_test` in `current_dir` and not run.
pub fn build_template(task: TaskTemplate, os: Os, current_dir: Option<String>) -> (r: Option<
    BuildTaskTemplate,
>)
    requires
        intent_of(task@.args) == BuildTaskIntent::TestNoExec ==> current_dir is Some,
    ensures
        template_view(r) == template_of(task@, os, current_dir.deep_view()),
{
    let TaskTemplate { label: _, command: _, args, env, cwd } = task;
    match classify(&args) {
        BuildTaskIntent::BuildRun => {
            let mut build_args: Vec<String> = Vec::new();
            push_text(&mut build_args, String::from_str("build"));
            assert(build_args.deep_view() =~= seq!["build"@]);
            Some(
                TaskTemplate {
                    label: String::from_str("zig build"),
                    command: String::from_str("zig"),
                    args: build_args,
                    env,
                    cwd,
                },
            )
        },
        BuildTaskIntent::TestNoExec => {
            let exe = join(current_dir.unwrap().as_str(), "zig_test");
            let test_args = test_args(args, os, exe.as_str());
            Some(
                TaskTemplate {
                    label: String::from_str("zig test --test-no-exec"),
                    command: String::from_str("zig"),
                    args: test_args,
                    env,
                    cwd,
                },
            )
        },
        BuildTaskIntent::Unsupported => None,
    }
}

impl ZigExtension {
    /// The debug scenario for a build task, if it is one this extension
    /// understands: a task of `zig` that is `build run` or a test. For any
    /// other task there is no scenario, which is no error.
    ///
    /// `current_dir` is the current directory, which a test task needs.
    pub fn dap_locator_create_scenario(
        &self,
        locator_name: String,
        build_task: TaskTemplate,
        resolved_label: String,
        debug_adapter_name: String,
        os: Os,
        current_dir: Option<String>,
    ) -> (r: Option<DebugScenario>)
        requires
            scenario_needs_current_dir(build_task@) ==> current_dir is Some,
        ensures
            scenario_view(r) == scenario_of(
                locator_name@,
                build_task@,
                resolved_label@,
                debug_adapter_name@,
                os,
                current_dir.deep_view(),
            ),
    {
        if !same_text(build_task.command.as_str(), "zig") {
            return None;
        }
        let template = match build_template(build_task, os, current_dir) {
            Some(template) => template,
            None => {
                return None;
            },
        };
        let config = match null_text() {
            Some(config) => config,
            None => {
                return None;
            },
        };
        Some(
            DebugScenario {
                adapter: debug_adapter_name,
                label: resolved_label,
                config,
                tcp_connection: None,
                build: Some(
                    BuildTaskDefinition::Template(
                        BuildTaskDefinitionTemplatePayload {
                            template,
                            locator_name: Some(locator_name),
                        },
                    ),
                ),
            },
        )
    }

    /// The request that launches what a build task built. A task that is
    /// neither a build nor a test is refused, and so is a build whose working
    /// directory names no project.
    ///
    /// `current_dir` is the current directory, which a test task needs.
    pub fn run_dap_locator(
        &self,
        locator_name: String,
        build_task: TaskTemplate,
        os: Os,
        current_dir: Option<String>,
    ) -> (r: Result<DebugRequest, LocatorError>)
        requires
            launch_target_of(build_task@.args) == LaunchTarget::TestBinary ==> current_dir is Some,
        ensures
            request_view(r) == launch_of(build_task@, os, current_dir.deep_view()),
    {
        match launch_target(&build_task.args) {
            LaunchTarget::ProjectBinary => {
                let name = match get_project_name(&build_task, os) {
                    Some(name) => name,
                    None => {
                        return Err(LocatorError::NoProjectName);
                    },
                };
                let mut program = String::from_str("zig-out/bin/");
                program.append(name.as_str());
                let request = LaunchRequest {
                    program,
                    cwd: build_task.cwd,
                    args: Vec::new(),
                    envs: build_task.env,
                };
                assert(request@.args =~= Seq::empty());
                Ok(DebugRequest::Launch(request))
            },
            LaunchTarget::TestBinary => {
                let program = join(current_dir.unwrap().as_str(), "zig_test");
                let request = LaunchRequest {
                    program,
                    cwd: build_task.cwd,
                    args: Vec::new(),
                    envs: build_task.env,
                };
                assert(request@.args =~= Seq::empty());
                Ok(DebugRequest::Launch(request))
            },
            LaunchTarget::Unsupported => Err(LocatorError::UnsupportedTask),
        }
    }
}

} // verus!
