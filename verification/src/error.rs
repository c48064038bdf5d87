//! What can go wrong while a unit is operated on.

use crate::text::{decimal, decimal_text, join, joined, signed_decimal, signed_decimal_text};
use vstd::prelude::*;

verus! {

/// One of the four operations of a unit's lifecycle.
#[derive(Debug, Clone, Copy, PartialEq, Eq, Structural)]
pub enum Phase {
    Install,
    Uninstall,
    Reset,
    Remediate,
}

impl Phase {
    /// The word handed to a script or playbook for this operation.
    pub open spec fn word(self) -> Seq<char> {
        match self {
            Phase::Install => "install"@,
            Phase::Uninstall => "uninstall"@,
            Phase::Reset => "reset"@,
            Phase::Remediate => "remediate"@,
        }
    }

    /// The word handed to a script or playbook for this operation.
    pub fn name(&self) -> (r: &'static str)
        ensures
            r@ == self.word(),
    {
        match self {
            Phase::Install => "install",
            Phase::Uninstall => "uninstall",
            Phase::Reset => "reset",
            Phase::Remediate => "remediate",
        }
    }
}

/// Why an operation failed.
#[derive(Debug)]
pub enum Failure {
    /// The URL has no trailing file name.
    InvalidSource { url: String },
    /// The download failed: with the HTTP status where the server answered
    /// outside the 2xx range, with the cause otherwise.
    Transport { status: Option<u16>, cause: String },
    /// An archive entry is malformed or leaves the destination.
    Extract { detail: String },
    /// No script or playbook was found below the directory.
    NotFound { dir: String },
    /// The child process ended with a code other than zero; -1 where the
    /// code is unknown.
    Execution { code: i32 },
    /// The child process outlived its deadline.
    Timeout { seconds: u64 },
    /// The state file could not be read, written or removed.
    StateIo { detail: String },
    /// The operation needs an installed task, and this one is not.
    NotInstalled { task: String },
    /// The playbook failed, and then the script.
    BothFailed { ansible: Box<Failure>, bash: Box<Failure> },
    /// A stack names a task that the collection does not hold.
    TaskNotFound { task: String },
    /// Some tasks of a stack failed: each with its name and what its
    /// failure says.
    Stack { phase: Phase, stack: String, failed: Vec<(String, String)>, total: usize },
    /// The selection names a unit that the collection does not hold.
    NoSuchUnit { index: usize },
    /// The reply does not answer what was asked.
    Unexpected,
}

/// A failure as plain values.
pub enum FailureView {
    InvalidSource { url: Seq<char> },
    Transport { status: Option<u16>, cause: Seq<char> },
    Extract { detail: Seq<char> },
    NotFound { dir: Seq<char> },
    Execution { code: i32 },
    Timeout { seconds: u64 },
    StateIo { detail: Seq<char> },
    NotInstalled { task: Seq<char> },
    BothFailed { ansible: Box<FailureView>, bash: Box<FailureView> },
    TaskNotFound { task: Seq<char> },
    Stack { phase: Phase, stack: Seq<char>, failed: Seq<(Seq<char>, Seq<char>)>, total: usize },
    NoSuchUnit { index: usize },
    Unexpected,
}

impl View for Failure {
    type V = FailureView;

    open spec fn view(&self) -> FailureView
        decreases self,
    {
        match self {
            Failure::InvalidSource { url } => FailureView::InvalidSource { url: url@ },
            Failure::Transport { status, cause } => FailureView::Transport {
                status: *status,
                cause: cause@,
            },
            Failure::Extract { detail } => FailureView::Extract { detail: detail@ },
            Failure::NotFound { dir } => FailureView::NotFound { dir: dir@ },
            Failure::Execution { code } => FailureView::Execution { code: *code },
            Failure::Timeout { seconds } => FailureView::Timeout { seconds: *seconds },
            Failure::StateIo { detail } => FailureView::StateIo { detail: detail@ },
            Failure::NotInstalled { task } => FailureView::NotInstalled { task: task@ },
            Failure::BothFailed { ansible, bash } => FailureView::BothFailed {
                ansible: Box::new((**ansible).view()),
                bash: Box::new((**bash).view()),
            },
            Failure::TaskNotFound { task } => FailureView::TaskNotFound { task: task@ },
            Failure::Stack { phase, stack, failed, total } => FailureView::Stack {
                phase: *phase,
                stack: stack@,
                failed: failed.deep_view(),
                total: *total,
            },
            Failure::NoSuchUnit { index } => FailureView::NoSuchUnit { index: *index },
            Failure::Unexpected => FailureView::Unexpected,
        }
    }
}

/// The view of an operation's outcome.
pub open spec fn outcome_view(r: Result<(), Failure>) -> Result<(), FailureView> {
    match r {
        Ok(_) => Ok(()),
        Err(f) => Err(f@),
    }
}

/// The names of the tasks that failed.
pub open spec fn failed_names(failed: Seq<(Seq<char>, Seq<char>)>) -> Seq<Seq<char>> {
    Seq::new(failed.len(), |i: int| failed[i].0)
}

/// What a failure says of itself.
pub open spec fn message_of(f: FailureView) -> Seq<char>
    decreases f,
{
    match f {
        FailureView::InvalidSource { url } => "Invalid URL: "@ + url,
        FailureView::Transport { status, cause } => match status {
            Some(code) => "HTTP error: "@ + decimal(code as nat),
            None => "Download failed: "@ + cause,
        },
        FailureView::Extract { detail } => "Extraction failed: "@ + detail,
        FailureView::NotFound { dir } => "No script found in directory "@ + dir,
        FailureView::Execution { code } => "Process failed with exit code: "@ + signed_decimal(
            code as int,
        ),
        FailureView::Timeout { seconds } => "Command timed out after "@ + decimal(seconds as nat)
            + " seconds"@,
        FailureView::StateIo { detail } => "State file error: "@ + detail,
        FailureView::NotInstalled { task } => "Task is not installed: "@ + task,
        FailureView::BothFailed { ansible, bash } => "Both ansible and bash failed: "@
            + message_of(*ansible) + "; "@ + message_of(*bash),
        FailureView::TaskNotFound { task } => "Task not found: "@ + task,
        FailureView::Stack { phase, stack, failed, total } => "Failed to "@ + phase.word() + " "@
            + decimal(failed.len()) + " out of "@ + decimal(total as nat) + " tasks in stack "@
            + stack + ": "@ + joined(failed_names(failed), ", "@),
        FailureView::NoSuchUnit { index } => "Unit with index "@ + decimal(index as nat)
            + " not found"@,
        FailureView::Unexpected => "Unexpected reply"@,
    }
}

impl Failure {
    /// What the failure says of itself, for display.
    pub fn message(&self) -> (r: String)
        ensures
            r@ == message_of(self@),
        decreases self,
    {
        match self {
            Failure::InvalidSource { url } => "Invalid URL: ".to_string().concat(url.as_str()),
            Failure::Transport { status, cause } => match status {
                Some(code) => "HTTP error: ".to_string().concat(
                    decimal_text(*code as u64).as_str(),
                ),
                None => "Download failed: ".to_string().concat(cause.as_str()),
            },
            Failure::Extract { detail } => "Extraction failed: ".to_string().concat(
                detail.as_str(),
            ),
            Failure::NotFound { dir } => "No script found in directory ".to_string().concat(
                dir.as_str(),
            ),
            Failure::Execution { code } => "Process failed with exit code: ".to_string().concat(
                signed_decimal_text(*code as i64).as_str(),
            ),
            Failure::Timeout { seconds } => "Command timed out after ".to_string().concat(
                decimal_text(*seconds).as_str(),
            ).concat(" seconds"),
            Failure::StateIo { detail } => "State file error: ".to_string().concat(detail.as_str()),
            Failure::NotInstalled { task } => "Task is not installed: ".to_string().concat(
                task.as_str(),
            ),
            Failure::BothFailed { ansible, bash } => {
                let first = ansible.message();
                let second = bash.message();
                "Both ansible and bash failed: ".to_string().concat(first.as_str()).concat(
                    "; ",
                ).concat(second.as_str())
            },
            Failure::TaskNotFound { task } => "Task not found: ".to_string().concat(task.as_str()),
            Failure::Stack { phase, stack, failed, total } => {
                let count = decimal_text(failed.len() as u64);
                let all = decimal_text(*total as u64);
                let mut list: Vec<String> = Vec::new();
                let mut i: usize = 0;
                while i < failed.len()
                    invariant
                        i <= failed.len(),
                        list.deep_view() == failed_names(failed.deep_view()).take(i as int),
                    decreases failed.len() - i,
                {
                    let ghost before = list.deep_view();
                    list.push(failed[i].0.clone());
                    assert(list.deep_view() =~= before.push(failed[i as int].0@));
                    assert(failed.deep_view()[i as int].0 == failed[i as int].0@);
                    assert(failed_names(failed.deep_view()).take(i + 1) =~= before.push(
                        failed[i as int].0@,
                    ));
                    i = i + 1;
                }
                assert(failed_names(failed.deep_view()).take(failed.len() as int)
                    =~= failed_names(failed.deep_view()));
                let names = join(&list, ", ");
                "Failed to ".to_string().concat(phase.name()).concat(" ").concat(
                    count.as_str(),
                ).concat(" out of ").concat(all.as_str()).concat(" tasks in stack ").concat(
                    stack.as_str(),
                ).concat(": ").concat(names.as_str())
            },
            Failure::NoSuchUnit { index } => "Unit with index ".to_string().concat(
                decimal_text(*index as u64).as_str(),
            ).concat(" not found"),
            Failure::Unexpected => "Unexpected reply".to_string(),
        }
    }
}

} // verus!
