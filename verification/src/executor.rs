//! The process runner's decisions: which file to run, how to invoke it, and
//! what its exit status means. The host spawns the process.

use crate::config::{join_path, path_join};
use crate::error::{Failure, FailureView, Phase};
use crate::text::{directory_of, directory_part, same_text};
use vstd::prelude::*;

verus! {

/// What lies at a path.
#[derive(Debug)]
pub enum Node {
    /// Something that is no directory.
    File,
    /// A directory, with its entries in the order in which it lists them.
    Directory(Vec<DirEntry>),
    /// Nothing.
    Missing,
}

/// An entry of a directory.
#[derive(Debug)]
pub struct DirEntry {
    pub name: String,
    pub node: Node,
}

/// What lies at a path, as plain values.
pub enum NodeView {
    File,
    Directory(Seq<DirEntryView>),
    Missing,
}

/// An entry of a directory as plain values.
pub struct DirEntryView {
    pub name: Seq<char>,
    pub node: NodeView,
}

/// The entries of a directory as plain values.
pub open spec fn listing(entries: Vec<DirEntry>) -> Seq<DirEntryView>
    decreases entries,
{
    Seq::new(
        entries.len() as nat,
        |i: int|
            if 0 <= i < entries.len() {
                entries[i]@
            } else {
                arbitrary()
            },
    )
}

impl View for Node {
    type V = NodeView;

    open spec fn view(&self) -> NodeView
        decreases self,
    {
        match self {
            Node::File => NodeView::File,
            Node::Directory(entries) => NodeView::Directory(listing(*entries)),
            Node::Missing => NodeView::Missing,
        }
    }
}

impl View for DirEntry {
    type V = DirEntryView;

    open spec fn view(&self) -> DirEntryView
        decreases self,
    {
        DirEntryView { name: self.name@, node: self.node@ }
    }
}

/// Whether the directory has an entry called `name`, of whatever kind.
pub open spec fn has_entry(entries: Seq<DirEntryView>, name: Seq<char>) -> bool {
    exists|i: int| 0 <= i < entries.len() && (#[trigger] entries[i]).name == name
}

/// The first of `names`, from place `from` on, that the directory has an
/// entry for.
pub open spec fn direct_match(entries: Seq<DirEntryView>, names: Seq<Seq<char>>, from: nat) -> Option<
    Seq<char>,
>
    decreases names.len() - from,
{
    if from >= names.len() {
        None
    } else if has_entry(entries, names[from as int]) {
        Some(names[from as int])
    } else {
        direct_match(entries, names, from + 1)
    }
}

/// The file that the search for `names` finds in the directory `dir`:
/// the first of the names that the directory itself holds, in the order of
/// `names`; without one, what the search finds in the first subdirectory
/// that has anything, depth first, in the order of the entries.
pub open spec fn found_in(dir: Seq<char>, entries: Seq<DirEntryView>, names: Seq<Seq<char>>) -> Option<
    Seq<char>,
>
    decreases entries, entries.len() + 1,
{
    match direct_match(entries, names, 0) {
        Some(name) => Some(path_join(dir, name)),
        None => found_below(dir, entries, names, 0),
    }
}

/// What the search finds in the subdirectories of `dir`, from the entry at
/// `from` on.
pub open spec fn found_below(
    dir: Seq<char>,
    entries: Seq<DirEntryView>,
    names: Seq<Seq<char>>,
    from: nat,
) -> Option<Seq<char>>
    decreases entries, entries.len() - from,
{
    if from >= entries.len() {
        None
    } else {
        let inside = match entries[from as int].node {
            NodeView::Directory(sub) => found_in(
                path_join(dir, entries[from as int].name),
                sub,
                names,
            ),
            _ => None,
        };
        match inside {
            Some(path) => Some(path),
            None => found_below(dir, entries, names, from + 1),
        }
    }
}

/// The view of a path that may be missing.
pub open spec fn path_view(p: Option<String>) -> Option<Seq<char>> {
    match p {
        Some(s) => Some(s@),
        None => None,
    }
}

/// Whether the directory has an entry called `name`.
fn has_entry_named(entries: &Vec<DirEntry>, name: &str) -> (r: bool)
    ensures
        r == has_entry(listing(*entries), name@),
{
    let mut i: usize = 0;
    while i < entries.len()
        invariant
            i <= entries.len(),
            forall|k: int| 0 <= k < i ==> (#[trigger] listing(*entries)[k]).name != name@,
        decreases entries.len() - i,
    {
        if same_text(entries[i].name.as_str(), name) {
            assert(listing(*entries)[i as int].name == name@);
            return true;
        }
        i = i + 1;
    }
    false
}

/// Searches the directory `dir`, whose entries are `entries`, for a file
/// called by one of `script_names`.
pub fn find_script_in_dir(dir: &str, entries: &Vec<DirEntry>, script_names: &Vec<String>) -> (r:
    Option<String>)
    ensures
        path_view(r) == found_in(dir@, listing(*entries), script_names.deep_view()),
    decreases entries,
{
    let ghost names = script_names.deep_view();
    let ghost list = listing(*entries);
    let mut k: usize = 0;
    while k < script_names.len()
        invariant
            k <= script_names.len(),
            names == script_names.deep_view(),
            list == listing(*entries),
            direct_match(list, names, 0) == direct_match(list, names, k as nat),
        decreases script_names.len() - k,
    {
        if has_entry_named(entries, script_names[k].as_str()) {
            return Some(join_path(dir, script_names[k].as_str()));
        }
        k = k + 1;
    }
    let mut i: usize = 0;
    while i < entries.len()
        invariant
            i <= entries.len(),
            names == script_names.deep_view(),
            list == listing(*entries),
            direct_match(list, names, 0) is None,
            found_below(dir@, list, names, 0) == found_below(dir@, list, names, i as nat),
        decreases entries.len() - i,
    {
        assert(list[i as int] == entries[i as int]@);
        match &entries[i].node {
            Node::Directory(sub) => {
                let below = join_path(dir, entries[i].name.as_str());
                match find_script_in_dir(below.as_str(), sub, script_names) {
                    Some(path) => {
                        return Some(path);
                    },
                    None => {},
                }
            },
            _ => {},
        }
        i = i + 1;
    }
    None
}

/// The file that running `entry` means: `entry` itself where it is a file,
/// what the search finds where it is a directory.
pub open spec fn entry_point(entry: Seq<char>, node: NodeView, names: Seq<Seq<char>>) -> Result<
    Seq<char>,
    FailureView,
> {
    match node {
        NodeView::File => Ok(entry),
        NodeView::Directory(entries) => match found_in(entry, entries, names) {
            Some(path) => Ok(path),
            None => Err(FailureView::NotFound { dir: entry }),
        },
        NodeView::Missing => Err(FailureView::NotFound { dir: entry }),
    }
}

/// The view of a path or a failure.
pub open spec fn resolution_view(r: Result<String, Failure>) -> Result<Seq<char>, FailureView> {
    match r {
        Ok(s) => Ok(s@),
        Err(f) => Err(f@),
    }
}

/// Resolves what running `entry` means, given what lies there.
pub fn resolve_entry_point(entry: &str, node: &Node, names: &Vec<String>) -> (r: Result<
    String,
    Failure,
>)
    ensures
        resolution_view(r) == entry_point(entry@, node@, names.deep_view()),
{
    match node {
        Node::File => Ok(entry.to_string()),
        Node::Directory(entries) => match find_script_in_dir(entry, entries, names) {
            Some(path) => Ok(path),
            None => Err(Failure::NotFound { dir: entry.to_string() }),
        },
        Node::Missing => Err(Failure::NotFound { dir: entry.to_string() }),
    }
}

/// The file names that a script goes by.
pub open spec fn script_names() -> Seq<Seq<char>> {
    seq!["install.sh"@]
}

/// The file names that a playbook goes by, in the order of preference.
pub open spec fn playbook_names() -> Seq<Seq<char>> {
    seq![
        "playbook.yml"@,
        "playbook.yaml"@,
        "main.yml"@,
        "main.yaml"@,
        "site.yml"@,
        "site.yaml"@,
        "local.yml"@,
        "local.yaml"@,
        "install.yml"@,
        "install.yaml"@,
        "entrypoint.yml"@,
        "entrypoint.yaml"@,
    ]
}

/// `items` with `word` added at the end.
fn with_word(items: Vec<String>, word: &str) -> (r: Vec<String>)
    ensures
        r.deep_view() == items.deep_view().push(word@),
{
    let mut r = items;
    let ghost before = r.deep_view();
    r.push(word.to_string());
    assert(r.deep_view() =~= before.push(word@));
    r
}

/// No words.
fn no_words() -> (r: Vec<String>)
    ensures
        r.deep_view() == Seq::<Seq<char>>::empty(),
{
    let r: Vec<String> = Vec::new();
    assert(r.deep_view() =~= Seq::<Seq<char>>::empty());
    r
}

/// The file names that a script goes by.
pub fn script_candidates() -> (r: Vec<String>)
    ensures
        r.deep_view() == script_names(),
{
    let r = with_word(no_words(), "install.sh");
    assert(r.deep_view() =~= script_names());
    r
}

/// The file names that a playbook goes by, in the order of preference.
pub fn playbook_candidates() -> (r: Vec<String>)
    ensures
        r.deep_view() == playbook_names(),
{
    let r = no_words();
    let r = with_word(r, "playbook.yml");
    let r = with_word(r, "playbook.yaml");
    let r = with_word(r, "main.yml");
    let r = with_word(r, "main.yaml");
    let r = with_word(r, "site.yml");
    let r = with_word(r, "site.yaml");
    let r = with_word(r, "local.yml");
    let r = with_word(r, "local.yaml");
    let r = with_word(r, "install.yml");
    let r = with_word(r, "install.yaml");
    let r = with_word(r, "entrypoint.yml");
    let r = with_word(r, "entrypoint.yaml");
    assert(r.deep_view() =~= playbook_names());
    r
}

/// The directory a file is run in: the one it lies in.
pub open spec fn working_directory_of(path: Seq<char>) -> Seq<char> {
    directory_part(path)
}

/// The directory a file is run in.
pub fn working_directory(path: &str) -> (r: String)
    ensures
        r@ == working_directory_of(path@),
{
    directory_of(path)
}

/// How a child process is to be started.
#[derive(Debug)]
pub struct Invocation {
    /// The program.
    pub program: String,
    /// Its arguments.
    pub args: Vec<String>,
    /// The directory it runs in; the host's own where there is none.
    pub dir: Option<String>,
    /// Environment variables set for it.
    pub env: Vec<(String, String)>,
    /// Whether the program file is first made executable: read and run by
    /// all, written by its owner.
    pub make_executable: bool,
    /// Whether what the child prints is thrown away.
    pub quiet: bool,
}

/// An invocation as plain values.
pub struct InvocationView {
    pub program: Seq<char>,
    pub args: Seq<Seq<char>>,
    pub dir: Option<Seq<char>>,
    pub env: Seq<(Seq<char>, Seq<char>)>,
    pub make_executable: bool,
    pub quiet: bool,
}

impl View for Invocation {
    type V = InvocationView;

    open spec fn view(&self) -> InvocationView {
        InvocationView {
            program: self.program@,
            args: self.args.deep_view(),
            dir: path_view(self.dir),
            env: Seq::new(self.env@.len(), |i: int| (self.env@[i].0@, self.env@[i].1@)),
            make_executable: self.make_executable,
            quiet: self.quiet,
        }
    }
}

/// The view of an invocation or a failure.
pub open spec fn plan_view(r: Result<Invocation, Failure>) -> Result<InvocationView, FailureView> {
    match r {
        Ok(i) => Ok(i@),
        Err(f) => Err(f@),
    }
}

/// How the script at `script` is run for `phase`: the script itself, made
/// executable, with the phase as its only argument, in its own directory.
pub open spec fn script_invocation(script: Seq<char>, phase: Phase) -> InvocationView {
    InvocationView {
        program: script,
        args: seq![phase.word()],
        dir: Some(working_directory_of(script)),
        env: Seq::empty(),
        make_executable: true,
        quiet: false,
    }
}

/// The environment that keeps a playbook's output out of the terminal.
pub open spec fn playbook_environment() -> Seq<(Seq<char>, Seq<char>)> {
    seq![
        ("ANSIBLE_LOG_PATH"@, "/var/log/galatea/ansible.log"@),
        ("ANSIBLE_DISPLAY_ARGS_TO_STDOUT"@, "no"@),
        ("ANSIBLE_NO_LOG"@, "true"@),
        ("ANSIBLE_STDOUT_CALLBACK"@, "null"@),
    ]
}

/// How the playbook at `playbook` is run for `phase`: by `ansible-playbook`
/// against the local machine, with the phase as its tag, in the playbook's
/// directory.
pub open spec fn playbook_invocation(playbook: Seq<char>, phase: Phase) -> InvocationView {
    InvocationView {
        program: "ansible-playbook"@,
        args: seq![
            "-i"@,
            "localhost,"@,
            "--connection=local"@,
            "--tags="@ + phase.word(),
            playbook,
        ],
        dir: Some(working_directory_of(playbook)),
        env: playbook_environment(),
        make_executable: false,
        quiet: false,
    }
}

/// How `command` is run through the shell: as it stands, with no
/// substitution.
pub open spec fn shell_invocation(command: Seq<char>, windows: bool) -> InvocationView {
    InvocationView {
        program: if windows {
            "cmd"@
        } else {
            "sh"@
        },
        args: seq![
            if windows {
                "/C"@
            } else {
                "-c"@
            },
            command,
        ],
        dir: None,
        env: Seq::empty(),
        make_executable: false,
        quiet: false,
    }
}

/// How `command` is run through the shell with elevated rights.
pub open spec fn sudo_invocation(command: Seq<char>) -> InvocationView {
    InvocationView {
        program: "sudo"@,
        args: seq!["-S"@, "sh"@, "-c"@, command],
        dir: None,
        env: Seq::empty(),
        make_executable: false,
        quiet: false,
    }
}

/// How the presence of `command` on the search path is probed.
pub open spec fn probe_invocation(command: Seq<char>, windows: bool) -> InvocationView {
    InvocationView {
        program: if windows {
            "where"@
        } else {
            "which"@
        },
        args: seq![command],
        dir: None,
        env: Seq::empty(),
        make_executable: false,
        quiet: true,
    }
}

/// No environment variables.
fn no_variables() -> (r: Vec<(String, String)>)
    ensures
        Seq::new(r@.len(), |i: int| (r@[i].0@, r@[i].1@)) == Seq::<(Seq<char>, Seq<char>)>::empty(),
{
    let r: Vec<(String, String)> = Vec::new();
    assert(Seq::new(r@.len(), |i: int| (r@[i].0@, r@[i].1@)) =~= Seq::<
        (Seq<char>, Seq<char>),
    >::empty());
    r
}

/// Plans the run of a script for `phase`, given what lies at `entry`.
pub fn run_bash_script(entry: &str, node: &Node, phase: Phase) -> (r: Result<Invocation, Failure>)
    ensures
        plan_view(r) == match entry_point(entry@, node@, script_names()) {
            Ok(script) => Ok(script_invocation(script, phase)),
            Err(f) => Err(f),
        },
{
    let names = script_candidates();
    match resolve_entry_point(entry, node, &names) {
        Ok(script) => {
            let args = with_word(no_words(), phase.name());
            assert(args.deep_view() =~= seq![phase.word()]);
            let dir = working_directory(script.as_str());
            Ok(
                Invocation {
                    program: script,
                    args,
                    dir: Some(dir),
                    env: no_variables(),
                    make_executable: true,
                    quiet: false,
                },
            )
        },
        Err(f) => Err(f),
    }
}

/// Plans the run of a playbook for `phase`, given what lies at `entry`.
pub fn run_ansible_playbook(entry: &str, node: &Node, phase: Phase) -> (r: Result<
    Invocation,
    Failure,
>)
    ensures
        plan_view(r) == match entry_point(entry@, node@, playbook_names()) {
            Ok(playbook) => Ok(playbook_invocation(playbook, phase)),
            Err(f) => Err(f),
        },
{
    let names = playbook_candidates();
    match resolve_entry_point(entry, node, &names) {
        Ok(playbook) => {
            let tag = "--tags=".to_string().concat(phase.name());
            let args = no_words();
            let args = with_word(args, "-i");
            let args = with_word(args, "localhost,");
            let args = with_word(args, "--connection=local");
            let args = with_word(args, tag.as_str());
            let args = with_word(args, playbook.as_str());
            assert(args.deep_view() =~= playbook_invocation(playbook@, phase).args);
            let mut env: Vec<(String, String)> = Vec::new();
            env.push(("ANSIBLE_LOG_PATH".to_string(), "/var/log/galatea/ansible.log".to_string()));
            env.push(("ANSIBLE_DISPLAY_ARGS_TO_STDOUT".to_string(), "no".to_string()));
            env.push(("ANSIBLE_NO_LOG".to_string(), "true".to_string()));
            env.push(("ANSIBLE_STDOUT_CALLBACK".to_string(), "null".to_string()));
            assert(Seq::new(env@.len(), |i: int| (env@[i].0@, env@[i].1@))
                =~= playbook_environment());
            let dir = working_directory(playbook.as_str());
            Ok(
                Invocation {
                    program: "ansible-playbook".to_string(),
                    args,
                    dir: Some(dir),
                    env,
                    make_executable: false,
                    quiet: false,
                },
            )
        },
        Err(f) => Err(f),
    }
}

/// Plans the run of a literal command through the shell of the platform.
pub fn run_command(command: &str, windows: bool) -> (r: Invocation)
    ensures
        r@ == shell_invocation(command@, windows),
{
    let args = no_words();
    let args = with_word(
        args,
        if windows {
            "/C"
        } else {
            "-c"
        },
    );
    let args = with_word(args, command);
    assert(args.deep_view() =~= shell_invocation(command@, windows).args);
    Invocation {
        program: if windows {
            "cmd".to_string()
        } else {
            "sh".to_string()
        },
        args,
        dir: None,
        env: no_variables(),
        make_executable: false,
        quiet: false,
    }
}

/// Plans the run of a literal command with elevated rights.
pub fn run_with_sudo(command: &str) -> (r: Invocation)
    ensures
        r@ == sudo_invocation(command@),
{
    let args = no_words();
    let args = with_word(args, "-S");
    let args = with_word(args, "sh");
    let args = with_word(args, "-c");
    let args = with_word(args, command);
    assert(args.deep_view() =~= sudo_invocation(command@).args);
    Invocation {
        program: "sudo".to_string(),
        args,
        dir: None,
        env: no_variables(),
        make_executable: false,
        quiet: false,
    }
}

/// Plans the probe for `command` on the search path; the command is there
/// where the probe succeeds.
pub fn is_command_available(command: &str, windows: bool) -> (r: Invocation)
    ensures
        r@ == probe_invocation(command@, windows),
{
    let args = with_word(no_words(), command);
    assert(args.deep_view() =~= seq![command@]);
    Invocation {
        program: if windows {
            "where".to_string()
        } else {
            "which".to_string()
        },
        args,
        dir: None,
        env: no_variables(),
        make_executable: false,
        quiet: true,
    }
}

/// Plans the probe for `ansible-playbook` on the search path.
pub fn is_ansible_available(windows: bool) -> (r: Invocation)
    ensures
        r@ == probe_invocation("ansible-playbook"@, windows),
{
    is_command_available("ansible-playbook", windows)
}

/// How a child process ended.
#[derive(Debug, Clone, Copy, PartialEq, Eq, Structural)]
pub struct ExitStatus {
    /// Whether it ended with code zero.
    pub success: bool,
    /// Its exit code, unknown where a signal ended it.
    pub code: Option<i32>,
}

/// What an exit status means: success, or a failure with the exit code,
/// -1 where the code is unknown.
pub open spec fn exit_outcome(status: ExitStatus) -> Result<(), FailureView> {
    if status.success {
        Ok(())
    } else {
        Err(
            FailureView::Execution {
                code: match status.code {
                    Some(code) => code,
                    None => -1i32,
                },
            },
        )
    }
}

/// Reads an exit status.
pub fn check_exit(status: ExitStatus) -> (r: Result<(), Failure>)
    ensures
        crate::error::outcome_view(r) == exit_outcome(status),
{
    if status.success {
        Ok(())
    } else {
        Err(
            Failure::Execution {
                code: match status.code {
                    Some(code) => code,
                    None => -1,
                },
            },
        )
    }
}

/// What a look at a running child shows.
#[derive(Debug)]
pub enum Poll {
    /// The child has ended.
    Exited(ExitStatus),
    /// The child still runs.
    Running,
    /// The child's state cannot be read.
    Lost,
}

/// What to do after a look at a child that runs against a deadline.
#[derive(Debug)]
pub enum Watch {
    /// Look again after so many milliseconds.
    Wait { millis: u64 },
    /// Send the child the termination signal; the run has failed.
    Terminate(Failure),
    /// The run is over.
    Finished(Result<(), Failure>),
}

/// A watch as plain values.
pub enum WatchView {
    Wait { millis: u64 },
    Terminate(FailureView),
    Finished(Result<(), FailureView>),
}

impl View for Watch {
    type V = WatchView;

    open spec fn view(&self) -> WatchView {
        match self {
            Watch::Wait { millis } => WatchView::Wait { millis: *millis },
            Watch::Terminate(f) => WatchView::Terminate(f@),
            Watch::Finished(outcome) => WatchView::Finished(crate::error::outcome_view(*outcome)),
        }
    }
}

/// Whether a time of `secs` seconds and `nanos` nanoseconds is longer than
/// `timeout_secs` seconds.
pub open spec fn overdue(secs: u64, nanos: u32, timeout_secs: u64) -> bool {
    secs > timeout_secs || (secs == timeout_secs && nanos > 0)
}

/// What follows from a look at a child that has run for `secs` seconds and
/// `nanos` nanoseconds against a deadline of `timeout_secs` seconds: an
/// ended child is judged by its exit status; a running one is terminated
/// once it is overdue, and looked at again after a tenth of a second
/// otherwise.
pub open spec fn watch(poll: Poll, secs: u64, nanos: u32, timeout_secs: u64) -> WatchView {
    match poll {
        Poll::Exited(status) => WatchView::Finished(exit_outcome(status)),
        Poll::Running => if overdue(secs, nanos, timeout_secs) {
            WatchView::Terminate(FailureView::Timeout { seconds: timeout_secs })
        } else {
            WatchView::Wait { millis: 100 }
        },
        Poll::Lost => WatchView::Finished(Err(FailureView::Execution { code: -1i32 })),
    }
}

/// Decides what follows from a look at a child that runs against a
/// deadline.
pub fn run_command_with_timeout(poll: Poll, secs: u64, nanos: u32, timeout_secs: u64) -> (r: Watch)
    ensures
        r@ == watch(poll, secs, nanos, timeout_secs),
{
    match poll {
        Poll::Exited(status) => Watch::Finished(check_exit(status)),
        Poll::Running => {
            if secs > timeout_secs || (secs == timeout_secs && nanos > 0) {
                Watch::Terminate(Failure::Timeout { seconds: timeout_secs })
            } else {
                Watch::Wait { millis: 100 }
            }
        },
        Poll::Lost => Watch::Finished(Err(Failure::Execution { code: -1 })),
    }
}

} // verus!
