//! Tasks: the atomic installable units, and the steps of their lifecycle.

use crate::config::{Config, ConfigView, resolved, state_file_of};
use crate::engine::{
    Goal, Reply, ReplyView, Request, RequestView, Stage, StageView, Strategy, TaskProgress,
    TaskProgressView, TaskRun, TaskRunView,
};
use crate::error::{Failure, FailureView, Phase};
use crate::text::{matches_ignoring_ascii_case, lowered, same_text, trim, trimmed};
use vstd::prelude::*;

verus! {

/// How a task's payload is executed.
#[derive(Debug, Clone, Copy, PartialEq, Eq, Structural)]
pub enum ScriptType {
    /// A shell script.
    Bash,
    /// An Ansible playbook.
    Ansible,
    /// A playbook with a shell script to fall back on.
    Mixed,
}

/// The kind that a word names, whatever the case of its letters.
pub open spec fn script_type_of(s: Seq<char>) -> Option<ScriptType> {
    let w = lowered(s);
    if w == "bash"@ || w == "b"@ {
        Some(ScriptType::Bash)
    } else if w == "ansible"@ || w == "a"@ {
        Some(ScriptType::Ansible)
    } else if w == "mixed"@ || w == "m"@ {
        Some(ScriptType::Mixed)
    } else {
        None
    }
}

impl ScriptType {
    /// Reads a kind from its name or its letter, in any case.
    pub fn from_str(s: &str) -> (r: Option<ScriptType>)
        ensures
            r == script_type_of(s@),
    {
        if matches_ignoring_ascii_case(s, "bash") || matches_ignoring_ascii_case(s, "b") {
            Some(ScriptType::Bash)
        } else if matches_ignoring_ascii_case(s, "ansible") || matches_ignoring_ascii_case(s, "a") {
            Some(ScriptType::Ansible)
        } else if matches_ignoring_ascii_case(s, "mixed") || matches_ignoring_ascii_case(s, "m") {
            Some(ScriptType::Mixed)
        } else {
            None
        }
    }

    /// The name of this kind.
    pub open spec fn word(self) -> Seq<char> {
        match self {
            ScriptType::Bash => "bash"@,
            ScriptType::Ansible => "ansible"@,
            ScriptType::Mixed => "mixed"@,
        }
    }

    /// The name of this kind.
    pub fn to_str(&self) -> (r: &'static str)
        ensures
            r@ == self.word(),
    {
        match self {
            ScriptType::Bash => "bash",
            ScriptType::Ansible => "ansible",
            ScriptType::Mixed => "mixed",
        }
    }

    /// The single letter shown for this kind in listings.
    pub fn get_letter(&self) -> (c: char)
        ensures
            c == match *self {
                ScriptType::Bash => 'B',
                ScriptType::Ansible => 'A',
                ScriptType::Mixed => 'M',
            },
    {
        match self {
            ScriptType::Bash => 'B',
            ScriptType::Ansible => 'A',
            ScriptType::Mixed => 'M',
        }
    }
}

/// A task.
#[derive(Debug)]
pub struct Task {
    /// The name, unique among tasks.
    pub name: String,
    /// How the payload is executed.
    pub script_type: ScriptType,
    /// A description for display.
    pub description: String,
    /// Where the payload is downloaded from.
    pub url: String,
    /// A shell command that uninstalls in place of the payload.
    pub cleanup_command: Option<String>,
    /// Names of tasks this one declares to depend on.
    pub dependencies: Vec<String>,
    /// Tags for display.
    pub tags: Vec<String>,
    /// Whether a reboot is advised after installing.
    pub requires_reboot: bool,
    /// Where the payload lies once it has been downloaded.
    pub local_path: Option<String>,
    /// Whether the state file marks the task as installed.
    pub installed: bool,
}

/// A task as plain values.
pub struct TaskView {
    pub name: Seq<char>,
    pub script_type: ScriptType,
    pub description: Seq<char>,
    pub url: Seq<char>,
    pub cleanup_command: Option<Seq<char>>,
    pub dependencies: Seq<Seq<char>>,
    pub tags: Seq<Seq<char>>,
    pub requires_reboot: bool,
    pub local_path: Option<Seq<char>>,
    pub installed: bool,
}

impl View for Task {
    type V = TaskView;

    open spec fn view(&self) -> TaskView {
        TaskView {
            name: self.name@,
            script_type: self.script_type,
            description: self.description@,
            url: self.url@,
            cleanup_command: match self.cleanup_command {
                Some(c) => Some(c@),
                None => None,
            },
            dependencies: self.dependencies.deep_view(),
            tags: self.tags.deep_view(),
            requires_reboot: self.requires_reboot,
            local_path: match self.local_path {
                Some(p) => Some(p@),
                None => None,
            },
            installed: self.installed,
        }
    }
}

impl DeepView for Task {
    type V = TaskView;

    open spec fn deep_view(&self) -> TaskView {
        self@
    }
}

/// Whether what a state file holds marks its task as installed: the word
/// `installed`, with nothing but white space around it. No file, no mark.
pub open spec fn marks_installed(content: Option<Seq<char>>) -> bool {
    match content {
        Some(text) => trimmed(text) == "installed"@,
        None => false,
    }
}

/// The ways of carrying out `phase` on `t`, in the order in which they are
/// tried: a cleanup command uninstalls alone, whatever the kind; a mixed
/// task tries its playbook, then its script.
pub open spec fn strategies(t: TaskView, phase: Phase) -> Seq<Strategy> {
    if phase == Phase::Uninstall && t.cleanup_command is Some {
        seq![Strategy::Command]
    } else {
        match t.script_type {
            ScriptType::Bash => seq![Strategy::Bash],
            ScriptType::Ansible => seq![Strategy::Ansible],
            ScriptType::Mixed => seq![Strategy::Ansible, Strategy::Bash],
        }
    }
}

/// What the host is asked in order to carry out `phase` on `t` by `strategy`.
pub open spec fn run_request(strategy: Strategy, t: TaskView, phase: Phase) -> RequestView {
    match strategy {
        Strategy::Bash => RequestView::RunScript { entry: t.local_path->0, phase },
        Strategy::Ansible => RequestView::RunPlaybook { entry: t.local_path->0, phase },
        Strategy::Command => RequestView::RunCommand { command: t.cleanup_command->0 },
    }
}

/// The download of `t`'s payload into the task's own directory.
pub open spec fn fetch_request(t: TaskView, c: ConfigView) -> RequestView {
    RequestView::Fetch {
        url: t.url,
        dest: resolved(c, t.name, "tasks"@),
        timeout: c.download_timeout,
    }
}

/// The step that makes the payload local: a recorded path is looked for
/// first, and only without one is the payload downloaded at once.
pub open spec fn locate(t: TaskView, c: ConfigView, goal: Goal) -> (TaskRunView, RequestView) {
    match t.local_path {
        Some(path) => (
            TaskRunView { goal, stage: StageView::LocatingPayload },
            RequestView::Exists { path },
        ),
        None => (TaskRunView { goal, stage: StageView::Fetching }, fetch_request(t, c)),
    }
}

/// The progress that asks for `step.1` and goes on with `step.0`.
pub open spec fn asking(step: (TaskRunView, RequestView)) -> TaskProgressView {
    TaskProgressView::Ask(step.0, step.1)
}

/// The step once the payload is local: the first strategy of the phase.
pub open spec fn payload_ready(t: TaskView, goal: Goal) -> TaskProgressView {
    match goal {
        Goal::Fetch => TaskProgressView::Finished(Ok(())),
        Goal::Operate(phase) => if t.local_path is Some {
            TaskProgressView::Ask(
                TaskRunView { goal, stage: StageView::Running },
                run_request(strategies(t, phase)[0], t, phase),
            )
        } else {
            TaskProgressView::Finished(Err(FailureView::Unexpected))
        },
    }
}

/// The step once a strategy has succeeded: installing writes the state
/// file, uninstalling removes it, the other phases are done.
pub open spec fn strategy_succeeded(t: TaskView, c: ConfigView, goal: Goal) -> TaskProgressView {
    match goal {
        Goal::Operate(Phase::Install) => TaskProgressView::Ask(
            TaskRunView { goal, stage: StageView::RecordingState },
            RequestView::WriteState { path: state_file_of(c, t.name), content: "installed"@ },
        ),
        Goal::Operate(Phase::Uninstall) => TaskProgressView::Ask(
            TaskRunView { goal, stage: StageView::RecordingState },
            RequestView::RemoveState { path: state_file_of(c, t.name) },
        ),
        _ => TaskProgressView::Finished(Ok(())),
    }
}

/// The first step towards `goal`: installing and fetching start with the
/// payload, the other phases with the state file.
pub open spec fn begin(t: TaskView, c: ConfigView, goal: Goal) -> (TaskRunView, RequestView) {
    match goal {
        Goal::Fetch | Goal::Operate(Phase::Install) => locate(t, c, goal),
        _ => (
            TaskRunView { goal, stage: StageView::CheckingState },
            RequestView::ReadState { path: state_file_of(c, t.name) },
        ),
    }
}

/// One step of a run: the task after the reply, and what comes next.
pub open spec fn task_step(t: TaskView, c: ConfigView, run: TaskRunView, reply: ReplyView) -> (
    TaskView,
    TaskProgressView,
) {
    match (run.stage, reply) {
        (_, ReplyView::Failed(f)) => match run.stage {
            StageView::Running => match run.goal {
                Goal::Operate(phase) => if strategies(t, phase).len() > 1 && t.local_path is Some {
                    (
                        t,
                        TaskProgressView::Ask(
                            TaskRunView {
                                goal: run.goal,
                                stage: StageView::FallingBack { first: f },
                            },
                            run_request(strategies(t, phase)[1], t, phase),
                        ),
                    )
                } else {
                    (t, TaskProgressView::Finished(Err(f)))
                },
                Goal::Fetch => (t, TaskProgressView::Finished(Err(f))),
            },
            StageView::FallingBack { first } => (
                t,
                TaskProgressView::Finished(
                    Err(FailureView::BothFailed { ansible: Box::new(first), bash: Box::new(f) }),
                ),
            ),
            _ => (t, TaskProgressView::Finished(Err(f))),
        },
        (StageView::CheckingState, ReplyView::State(content)) => {
            let checked = TaskView { installed: marks_installed(content), ..t };
            if checked.installed {
                (checked, asking(locate(checked, c, run.goal)))
            } else {
                (
                    checked,
                    TaskProgressView::Finished(Err(FailureView::NotInstalled { task: t.name })),
                )
            }
        },
        (StageView::LocatingPayload, ReplyView::Exists(found)) => if found {
            (t, payload_ready(t, run.goal))
        } else {
            (
                t,
                TaskProgressView::Ask(
                    TaskRunView { goal: run.goal, stage: StageView::Fetching },
                    fetch_request(t, c),
                ),
            )
        },
        (StageView::Fetching, ReplyView::Fetched(path)) => {
            let fetched = TaskView { local_path: Some(path), ..t };
            (fetched, payload_ready(fetched, run.goal))
        },
        (StageView::Running, ReplyView::Done) => (t, strategy_succeeded(t, c, run.goal)),
        (StageView::FallingBack { first }, ReplyView::Done) => (
            t,
            strategy_succeeded(t, c, run.goal),
        ),
        (StageView::RecordingState, ReplyView::Done) => match run.goal {
            Goal::Operate(Phase::Install) => (
                TaskView { installed: true, ..t },
                TaskProgressView::Finished(Ok(())),
            ),
            Goal::Operate(Phase::Uninstall) => (
                TaskView { installed: false, ..t },
                TaskProgressView::Finished(Ok(())),
            ),
            _ => (t, TaskProgressView::Finished(Err(FailureView::Unexpected))),
        },
        _ => (t, TaskProgressView::Finished(Err(FailureView::Unexpected))),
    }
}

/// An operation ends well only on the host's word that its last piece of
/// work is done. For installing that work is the writing of the state
/// file, and the task is then installed; for uninstalling it is the
/// removal of the state file, and the task is then not installed.
pub proof fn lemma_success_follows_state_change(
    t: TaskView,
    c: ConfigView,
    run: TaskRunView,
    reply: ReplyView,
)
    requires
        task_step(t, c, run, reply).1 == TaskProgressView::Finished(Ok(())),
    ensures
        reply is Done || (run.goal == Goal::Fetch && (reply is Exists || reply is Fetched)),
        run.goal == Goal::Operate(Phase::Install) ==> run.stage is RecordingState && task_step(
            t,
            c,
            run,
            reply,
        ).0.installed,
        run.goal == Goal::Operate(Phase::Uninstall) ==> run.stage is RecordingState && !task_step(
            t,
            c,
            run,
            reply,
        ).0.installed,
{
}

/// The state file is touched only after a strategy has succeeded: it is
/// written, with the word `installed`, by an install and by nothing else,
/// and removed by an uninstall and by nothing else.
pub proof fn lemma_state_change_follows_strategy(
    t: TaskView,
    c: ConfigView,
    run: TaskRunView,
    reply: ReplyView,
)
    ensures
        match task_step(t, c, run, reply).1 {
            TaskProgressView::Ask(next, RequestView::WriteState { path, content }) => {
                &&& run.goal == Goal::Operate(Phase::Install)
                &&& reply is Done
                &&& run.stage is Running || run.stage is FallingBack
                &&& next.stage is RecordingState
                &&& path == state_file_of(c, t.name)
                &&& content == "installed"@
            },
            TaskProgressView::Ask(next, RequestView::RemoveState { path }) => {
                &&& run.goal == Goal::Operate(Phase::Uninstall)
                &&& reply is Done
                &&& run.stage is Running || run.stage is FallingBack
                &&& next.stage is RecordingState
                &&& path == state_file_of(c, t.name)
            },
            TaskProgressView::Ask(next, _) => !(next.stage is RecordingState),
            TaskProgressView::Finished(_) => true,
        },
{
}

/// A step that fails leaves the task as it was, but for what the state
/// file said of it when it was read.
pub proof fn lemma_failure_keeps_task(t: TaskView, c: ConfigView, run: TaskRunView, reply: ReplyView)
    requires
        task_step(t, c, run, reply).1 matches TaskProgressView::Finished(Err(_)),
    ensures
        task_step(t, c, run, reply).0 == if run.stage is CheckingState && reply is State {
            TaskView { installed: false, ..t }
        } else {
            t
        },
{
}

/// A step changes nothing of a task but its `installed` flag and its local
/// path. The flag is set only by a state file that marks the task as
/// installed, or by the host's word that the state file is written; the
/// path is set only by the host's word that the payload is fetched.
pub proof fn lemma_step_changes(t: TaskView, c: ConfigView, run: TaskRunView, reply: ReplyView)
    ensures
        task_step(t, c, run, reply).0 == (TaskView {
            installed: task_step(t, c, run, reply).0.installed,
            local_path: task_step(t, c, run, reply).0.local_path,
            ..t
        }),
        task_step(t, c, run, reply).0.installed && !t.installed ==> match reply {
            ReplyView::State(content) => run.stage is CheckingState && marks_installed(content),
            ReplyView::Done => run.stage is RecordingState && run.goal == Goal::Operate(
                Phase::Install,
            ),
            _ => false,
        },
        task_step(t, c, run, reply).0.local_path != t.local_path ==> match reply {
            ReplyView::Fetched(path) => run.stage is Fetching && task_step(
                t,
                c,
                run,
                reply,
            ).0.local_path == Some(path),
            _ => false,
        },
{
}

/// A mixed task runs its script only after its playbook has failed, and
/// fails only when both have: the failure then holds the two, in that order.
pub proof fn lemma_mixed_fallback(
    t: TaskView,
    c: ConfigView,
    phase: Phase,
    run: TaskRunView,
    reply: ReplyView,
)
    requires
        t.script_type == ScriptType::Mixed,
        run.goal == Goal::Operate(phase),
        phase == Phase::Uninstall ==> t.cleanup_command is None,
    ensures
        strategies(t, phase) == seq![Strategy::Ansible, Strategy::Bash],
        task_step(t, c, run, reply).1 matches TaskProgressView::Ask(
            next,
            RequestView::RunScript { entry, phase: asked },
        ) ==> {
            &&& run.stage is Running
            &&& reply matches ReplyView::Failed(f)
            &&& next.stage == (StageView::FallingBack { first: f })
            &&& asked == phase
            &&& t.local_path == Some(entry)
        },
        run.stage is Running && t.local_path is Some && reply is Failed ==> task_step(
            t,
            c,
            run,
            reply,
        ).1 is Ask,
        (run.stage is Running || run.stage is FallingBack) && reply is Done ==> !(task_step(
            t,
            c,
            run,
            reply,
        ).1 matches TaskProgressView::Finished(Err(_))),
        match (run.stage, reply) {
            (StageView::FallingBack { first }, ReplyView::Failed(f)) => task_step(
                t,
                c,
                run,
                reply,
            ).1 == TaskProgressView::Finished(
                Err(FailureView::BothFailed { ansible: Box::new(first), bash: Box::new(f) }),
            ),
            _ => true,
        },
{
}

impl Task {
    /// Sets `installed` from what the state file holds (`None`: there is no
    /// file) and returns it.
    pub fn check_installed(&mut self, content: Option<&str>) -> (r: bool)
        ensures
            r == marks_installed(
                match content {
                    Some(s) => Some(s@),
                    None => None,
                },
            ),
            final(self)@ == (TaskView { installed: r, ..old(self)@ }),
    {
        let installed = match content {
            Some(text) => same_text(trim(text), "installed"),
            None => false,
        };
        self.installed = installed;
        installed
    }

    /// The request that downloads the payload.
    fn fetch(&self, config: &Config) -> (r: Request)
        ensures
            r@ == fetch_request(self@, config@),
    {
        Request::Fetch {
            url: self.url.clone(),
            dest: config.resolve_path(self.name.as_str(), "tasks"),
            timeout: config.download_timeout,
        }
    }

    /// The step that makes the payload local.
    fn locate(&self, config: &Config, goal: Goal) -> (r: (TaskRun, Request))
        ensures
            (r.0@, r.1@) == locate(self@, config@, goal),
    {
        match &self.local_path {
            Some(path) => (
                TaskRun { goal, stage: Stage::LocatingPayload },
                Request::Exists { path: path.clone() },
            ),
            None => (TaskRun { goal, stage: Stage::Fetching }, self.fetch(config)),
        }
    }

    /// The strategies of `phase`: the first, and the second where there is one.
    fn strategies(&self, phase: Phase) -> (r: (Strategy, Option<Strategy>))
        ensures
            r.0 == strategies(self@, phase)[0],
            match r.1 {
                Some(second) => strategies(self@, phase).len() == 2 && second == strategies(
                    self@,
                    phase,
                )[1],
                None => strategies(self@, phase).len() == 1,
            },
    {
        let by_command = match phase {
            Phase::Uninstall => self.cleanup_command.is_some(),
            _ => false,
        };
        if by_command {
            (Strategy::Command, None)
        } else {
            match self.script_type {
                ScriptType::Bash => (Strategy::Bash, None),
                ScriptType::Ansible => (Strategy::Ansible, None),
                ScriptType::Mixed => (Strategy::Ansible, Some(Strategy::Bash)),
            }
        }
    }

    /// The request that carries out `phase` by `strategy`, where the task has
    /// what the strategy needs.
    fn run(&self, strategy: Strategy, phase: Phase) -> (r: Option<Request>)
        ensures
            match r {
                Some(request) => request@ == run_request(strategy, self@, phase) && (strategy
                    == Strategy::Command || self@.local_path is Some),
                None => if strategy == Strategy::Command {
                    self@.cleanup_command is None
                } else {
                    self@.local_path is None
                },
            },
    {
        match strategy {
            Strategy::Command => match &self.cleanup_command {
                Some(command) => Some(Request::RunCommand { command: command.clone() }),
                None => None,
            },
            Strategy::Bash => match &self.local_path {
                Some(path) => Some(Request::RunScript { entry: path.clone(), phase }),
                None => None,
            },
            Strategy::Ansible => match &self.local_path {
                Some(path) => Some(Request::RunPlaybook { entry: path.clone(), phase }),
                None => None,
            },
        }
    }

    /// The step once the payload is local.
    fn payload_ready(&self, goal: Goal) -> (r: TaskProgress)
        ensures
            r@ == payload_ready(self@, goal),
    {
        match goal {
            Goal::Fetch => TaskProgress::Finished(Ok(())),
            Goal::Operate(phase) => {
                if self.local_path.is_none() {
                    return TaskProgress::Finished(Err(Failure::Unexpected));
                }
                let (first, _) = self.strategies(phase);
                match self.run(first, phase) {
                    Some(request) => TaskProgress::Ask(
                        TaskRun { goal, stage: Stage::Running },
                        request,
                    ),
                    None => TaskProgress::Finished(Err(Failure::Unexpected)),
                }
            },
        }
    }

    /// The step once a strategy has succeeded.
    fn strategy_succeeded(&self, config: &Config, goal: Goal) -> (r: TaskProgress)
        ensures
            r@ == strategy_succeeded(self@, config@, goal),
    {
        match goal {
            Goal::Operate(Phase::Install) => TaskProgress::Ask(
                TaskRun { goal, stage: Stage::RecordingState },
                Request::WriteState {
                    path: config.state_file(self.name.as_str()),
                    content: "installed".to_string(),
                },
            ),
            Goal::Operate(Phase::Uninstall) => TaskProgress::Ask(
                TaskRun { goal, stage: Stage::RecordingState },
                Request::RemoveState { path: config.state_file(self.name.as_str()) },
            ),
            _ => TaskProgress::Finished(Ok(())),
        }
    }

    /// The first step towards `goal`: the run, and what the host is asked.
    pub fn begin(&self, config: &Config, goal: Goal) -> (r: (TaskRun, Request))
        ensures
            (r.0@, r.1@) == begin(self@, config@, goal),
    {
        match goal {
            Goal::Fetch | Goal::Operate(Phase::Install) => self.locate(config, goal),
            _ => (
                TaskRun { goal, stage: Stage::CheckingState },
                Request::ReadState { path: config.state_file(self.name.as_str()) },
            ),
        }
    }

    /// The first step towards `goal`, as progress.
    fn start(&self, config: &Config, goal: Goal) -> (r: TaskProgress)
        ensures
            r@ == asking(begin(self@, config@, goal)),
    {
        let (run, request) = self.begin(config, goal);
        TaskProgress::Ask(run, request)
    }

    /// Starts installing: the payload is made local, the install phase run,
    /// and the state file written.
    pub fn install(&self, config: &Config) -> (r: TaskProgress)
        ensures
            r@ == asking(begin(self@, config@, Goal::Operate(Phase::Install))),
    {
        self.start(config, Goal::Operate(Phase::Install))
    }

    /// Starts uninstalling: the task must be installed; the cleanup command
    /// or the uninstall phase is run, and the state file removed.
    pub fn uninstall(&self, config: &Config) -> (r: TaskProgress)
        ensures
            r@ == asking(begin(self@, config@, Goal::Operate(Phase::Uninstall))),
    {
        self.start(config, Goal::Operate(Phase::Uninstall))
    }

    /// Starts a reset: the task must be installed; the reset phase is run.
    pub fn reset(&self, config: &Config) -> (r: TaskProgress)
        ensures
            r@ == asking(begin(self@, config@, Goal::Operate(Phase::Reset))),
    {
        self.start(config, Goal::Operate(Phase::Reset))
    }

    /// Starts a remediation: the task must be installed; the remediate phase
    /// is run.
    pub fn remediate(&self, config: &Config) -> (r: TaskProgress)
        ensures
            r@ == asking(begin(self@, config@, Goal::Operate(Phase::Remediate))),
    {
        self.start(config, Goal::Operate(Phase::Remediate))
    }

    /// Starts making the payload local: nothing is downloaded where the
    /// recorded path still exists.
    pub fn download(&self, config: &Config) -> (r: TaskProgress)
        ensures
            r@ == asking(begin(self@, config@, Goal::Fetch)),
    {
        self.start(config, Goal::Fetch)
    }

    /// Takes the host's reply to the request of `run` and makes the next
    /// step: the task is updated, and either more work is asked for or the
    /// operation ends.
    pub fn resume(&mut self, config: &Config, run: TaskRun, reply: Reply) -> (r: TaskProgress)
        ensures
            final(self)@ == task_step(old(self)@, config@, run@, reply@).0,
            r@ == task_step(old(self)@, config@, run@, reply@).1,
    {
        let goal = run.goal;
        match reply {
            Reply::Failed(f) => match run.stage {
                Stage::Running => {
                    if let Goal::Operate(phase) = goal {
                        let (_, second) = self.strategies(phase);
                        if let Some(strategy) = second {
                            if let Some(request) = self.run(strategy, phase) {
                                return TaskProgress::Ask(
                                    TaskRun { goal, stage: Stage::FallingBack { first: f } },
                                    request,
                                );
                            }
                        }
                    }
                    TaskProgress::Finished(Err(f))
                },
                Stage::FallingBack { first } => TaskProgress::Finished(
                    Err(Failure::BothFailed { ansible: Box::new(first), bash: Box::new(f) }),
                ),
                _ => TaskProgress::Finished(Err(f)),
            },
            Reply::State(content) => match run.stage {
                Stage::CheckingState => {
                    let installed = match &content {
                        Some(text) => self.check_installed(Some(text.as_str())),
                        None => self.check_installed(None),
                    };
                    if installed {
                        let (run, request) = self.locate(config, goal);
                        TaskProgress::Ask(run, request)
                    } else {
                        TaskProgress::Finished(
                            Err(Failure::NotInstalled { task: self.name.clone() }),
                        )
                    }
                },
                _ => TaskProgress::Finished(Err(Failure::Unexpected)),
            },
            Reply::Exists(found) => match run.stage {
                Stage::LocatingPayload => {
                    if found {
                        self.payload_ready(goal)
                    } else {
                        TaskProgress::Ask(
                            TaskRun { goal, stage: Stage::Fetching },
                            self.fetch(config),
                        )
                    }
                },
                _ => TaskProgress::Finished(Err(Failure::Unexpected)),
            },
            Reply::Fetched(path) => match run.stage {
                Stage::Fetching => {
                    self.local_path = Some(path);
                    self.payload_ready(goal)
                },
                _ => TaskProgress::Finished(Err(Failure::Unexpected)),
            },
            Reply::Done => match run.stage {
                Stage::Running => self.strategy_succeeded(config, goal),
                Stage::FallingBack { first } => self.strategy_succeeded(config, goal),
                Stage::RecordingState => match goal {
                    Goal::Operate(Phase::Install) => {
                        self.installed = true;
                        TaskProgress::Finished(Ok(()))
                    },
                    Goal::Operate(Phase::Uninstall) => {
                        self.installed = false;
                        TaskProgress::Finished(Ok(()))
                    },
                    _ => TaskProgress::Finished(Err(Failure::Unexpected)),
                },
                _ => TaskProgress::Finished(Err(Failure::Unexpected)),
            },
        }
    }

    /// Whether the task can be installed: it is not installed yet.
    pub fn can_install(&self) -> (r: bool)
        ensures
            r == !self@.installed,
    {
        !self.installed
    }

    /// Whether the task can be uninstalled: it is installed.
    pub fn can_uninstall(&self) -> (r: bool)
        ensures
            r == self@.installed,
    {
        self.installed
    }

    /// Whether the task can be reset: it is installed.
    pub fn can_reset(&self) -> (r: bool)
        ensures
            r == self@.installed,
    {
        self.installed
    }

    /// Whether the task can be remediated: it is installed.
    pub fn can_remediate(&self) -> (r: bool)
        ensures
            r == self@.installed,
    {
        self.installed
    }
}

} // verus!
