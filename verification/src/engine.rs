//! The vocabulary between the engine and its host. The engine decides; the
//! host downloads, runs processes and touches the state files. Each step of
//! an operation either asks the host for one piece of work or ends the
//! operation, and the host's reply drives the next step.

use crate::error::{Failure, FailureView, Phase, outcome_view};
use vstd::prelude::*;

verus! {

/// One way of carrying out a phase.
#[derive(Debug, Clone, Copy, PartialEq, Eq, Structural)]
pub enum Strategy {
    /// Run the task's shell script.
    Bash,
    /// Run the task's playbook.
    Ansible,
    /// Run the task's literal cleanup command.
    Command,
}

/// A piece of work that the host is asked to do.
#[derive(Debug)]
pub enum Request {
    /// Read the state file; absence is an answer, not a failure.
    ReadState { path: String },
    /// Say whether the path exists.
    Exists { path: String },
    /// Download `url` and put what it holds below `dest`.
    Fetch { url: String, dest: String, timeout: u64 },
    /// Run the script found at `entry` with the phase as its argument.
    RunScript { entry: String, phase: Phase },
    /// Run the playbook found at `entry` with the phase as its tag.
    RunPlaybook { entry: String, phase: Phase },
    /// Run `command` through the shell.
    RunCommand { command: String },
    /// Write `content` to the state file.
    WriteState { path: String, content: String },
    /// Remove the state file if it exists.
    RemoveState { path: String },
}

/// A request as plain values.
pub enum RequestView {
    ReadState { path: Seq<char> },
    Exists { path: Seq<char> },
    Fetch { url: Seq<char>, dest: Seq<char>, timeout: u64 },
    RunScript { entry: Seq<char>, phase: Phase },
    RunPlaybook { entry: Seq<char>, phase: Phase },
    RunCommand { command: Seq<char> },
    WriteState { path: Seq<char>, content: Seq<char> },
    RemoveState { path: Seq<char> },
}

impl View for Request {
    type V = RequestView;

    open spec fn view(&self) -> RequestView {
        match self {
            Request::ReadState { path } => RequestView::ReadState { path: path@ },
            Request::Exists { path } => RequestView::Exists { path: path@ },
            Request::Fetch { url, dest, timeout } => RequestView::Fetch {
                url: url@,
                dest: dest@,
                timeout: *timeout,
            },
            Request::RunScript { entry, phase } => RequestView::RunScript {
                entry: entry@,
                phase: *phase,
            },
            Request::RunPlaybook { entry, phase } => RequestView::RunPlaybook {
                entry: entry@,
                phase: *phase,
            },
            Request::RunCommand { command } => RequestView::RunCommand { command: command@ },
            Request::WriteState { path, content } => RequestView::WriteState {
                path: path@,
                content: content@,
            },
            Request::RemoveState { path } => RequestView::RemoveState { path: path@ },
        }
    }
}

/// What the host answers.
#[derive(Debug)]
pub enum Reply {
    /// What the state file holds, `None` where there is none.
    State(Option<String>),
    /// Whether the path exists.
    Exists(bool),
    /// Where the payload now lies.
    Fetched(String),
    /// The work succeeded.
    Done,
    /// The work failed.
    Failed(Failure),
}

/// A reply as plain values.
pub enum ReplyView {
    State(Option<Seq<char>>),
    Exists(bool),
    Fetched(Seq<char>),
    Done,
    Failed(FailureView),
}

impl View for Reply {
    type V = ReplyView;

    open spec fn view(&self) -> ReplyView {
        match self {
            Reply::State(content) => ReplyView::State(
                match content {
                    Some(s) => Some(s@),
                    None => None,
                },
            ),
            Reply::Exists(b) => ReplyView::Exists(*b),
            Reply::Fetched(path) => ReplyView::Fetched(path@),
            Reply::Done => ReplyView::Done,
            Reply::Failed(f) => ReplyView::Failed(f@),
        }
    }
}

/// What a run on a task is for.
#[derive(Debug, Clone, Copy, PartialEq, Eq, Structural)]
pub enum Goal {
    /// Only make the payload local.
    Fetch,
    /// Carry out a phase.
    Operate(Phase),
}

/// Where a run on a task stands: what the host was last asked.
#[derive(Debug)]
pub enum Stage {
    /// The state file is being read.
    CheckingState,
    /// The recorded local path is being looked for.
    LocatingPayload,
    /// The payload is being downloaded.
    Fetching,
    /// The first strategy is running.
    Running,
    /// The second strategy is running, after the first failed with `first`.
    FallingBack { first: Failure },
    /// The state file is being written or removed.
    RecordingState,
}

/// A stage as plain values.
pub enum StageView {
    CheckingState,
    LocatingPayload,
    Fetching,
    Running,
    FallingBack { first: FailureView },
    RecordingState,
}

impl View for Stage {
    type V = StageView;

    open spec fn view(&self) -> StageView {
        match self {
            Stage::CheckingState => StageView::CheckingState,
            Stage::LocatingPayload => StageView::LocatingPayload,
            Stage::Fetching => StageView::Fetching,
            Stage::Running => StageView::Running,
            Stage::FallingBack { first } => StageView::FallingBack { first: first@ },
            Stage::RecordingState => StageView::RecordingState,
        }
    }
}

/// A run on one task, between two steps.
#[derive(Debug)]
pub struct TaskRun {
    pub goal: Goal,
    pub stage: Stage,
}

/// A run on one task as plain values.
pub struct TaskRunView {
    pub goal: Goal,
    pub stage: StageView,
}

impl View for TaskRun {
    type V = TaskRunView;

    open spec fn view(&self) -> TaskRunView {
        TaskRunView { goal: self.goal, stage: self.stage@ }
    }
}

/// What a step on a task comes to.
#[derive(Debug)]
pub enum TaskProgress {
    /// The host is asked for work; its reply continues the run.
    Ask(TaskRun, Request),
    /// The operation is over.
    Finished(Result<(), Failure>),
}

/// A task's progress as plain values.
pub enum TaskProgressView {
    Ask(TaskRunView, RequestView),
    Finished(Result<(), FailureView>),
}

impl View for TaskProgress {
    type V = TaskProgressView;

    open spec fn view(&self) -> TaskProgressView {
        match self {
            TaskProgress::Ask(run, request) => TaskProgressView::Ask(run@, request@),
            TaskProgress::Finished(outcome) => TaskProgressView::Finished(outcome_view(*outcome)),
        }
    }
}

} // verus!
