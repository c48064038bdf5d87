//! Stacks: named, ordered groups of tasks, operated on task by task.

use crate::config::{Config, ConfigView};
use crate::engine::{
    Goal, Reply, ReplyView, Request, RequestView, TaskProgress, TaskProgressView, TaskRun,
    TaskRunView,
};
use crate::error::{Failure, FailureView, Phase, message_of, outcome_view};
use crate::task::{Task, TaskView, begin, task_step};
use crate::text::same_text;
use vstd::prelude::*;

verus! {

/// A stack.
#[derive(Debug)]
pub struct Stack {
    /// The name of the stack.
    pub name: String,
    /// A description for display.
    pub description: String,
    /// The names of the stack's tasks, in the order of installation.
    pub task_names: Vec<String>,
    /// Whether a reboot is advised after installing.
    pub requires_reboot: bool,
    /// Tags for display.
    pub tags: Vec<String>,
    /// Whether every task of the stack is installed.
    pub fully_installed: bool,
    /// Whether some tasks of the stack are installed, and not all.
    pub partially_installed: bool,
}

/// A stack as plain values.
pub struct StackView {
    pub name: Seq<char>,
    pub description: Seq<char>,
    pub task_names: Seq<Seq<char>>,
    pub requires_reboot: bool,
    pub tags: Seq<Seq<char>>,
    pub fully_installed: bool,
    pub partially_installed: bool,
}

impl View for Stack {
    type V = StackView;

    open spec fn view(&self) -> StackView {
        StackView {
            name: self.name@,
            description: self.description@,
            task_names: self.task_names.deep_view(),
            requires_reboot: self.requires_reboot,
            tags: self.tags.deep_view(),
            fully_installed: self.fully_installed,
            partially_installed: self.partially_installed,
        }
    }
}

impl DeepView for Stack {
    type V = StackView;

    open spec fn deep_view(&self) -> StackView {
        self@
    }
}

/// Whether `i` is the place of the first task called `name`.
pub open spec fn is_first_named(tasks: Seq<TaskView>, name: Seq<char>, i: int) -> bool {
    &&& 0 <= i < tasks.len()
    &&& tasks[i].name == name
    &&& forall|j: int| 0 <= j < i ==> (#[trigger] tasks[j]).name != name
}

/// The place of the first task called `name`.
pub open spec fn lookup(tasks: Seq<TaskView>, name: Seq<char>) -> Option<int> {
    if exists|i: int| is_first_named(tasks, name, i) {
        Some(choose|i: int| is_first_named(tasks, name, i))
    } else {
        None
    }
}

/// Whether the task that `name` stands for is there and installed.
pub open spec fn counts_as_installed(tasks: Seq<TaskView>, name: Seq<char>) -> bool {
    match lookup(tasks, name) {
        Some(i) => tasks[i].installed,
        None => false,
    }
}

/// How many of `names` stand for an installed task.
pub open spec fn installed_count(names: Seq<Seq<char>>, tasks: Seq<TaskView>) -> nat
    decreases names.len(),
{
    if names.len() == 0 {
        0
    } else {
        installed_count(names.drop_last(), tasks) + if counts_as_installed(tasks, names.last()) {
            1nat
        } else {
            0nat
        }
    }
}

/// The stack with its two flags set from the tasks: fully installed where
/// every name counts, partially where some do and not all, neither where
/// the stack is empty.
pub open spec fn with_status(s: StackView, tasks: Seq<TaskView>) -> StackView {
    let total = s.task_names.len();
    let count = installed_count(s.task_names, tasks);
    StackView {
        fully_installed: total > 0 && count == total,
        partially_installed: 0 < count < total,
        ..s
    }
}

/// No more names count as installed than there are names.
pub proof fn lemma_installed_count_bound(names: Seq<Seq<char>>, tasks: Seq<TaskView>)
    ensures
        installed_count(names, tasks) <= names.len(),
    decreases names.len(),
{
    if names.len() > 0 {
        lemma_installed_count_bound(names.drop_last(), tasks);
    }
}

/// A stack is never both fully and partially installed, and an empty stack
/// is neither.
pub proof fn lemma_status_exclusive(s: StackView, tasks: Seq<TaskView>)
    ensures
        !(with_status(s, tasks).fully_installed && with_status(s, tasks).partially_installed),
        s.task_names.len() == 0 ==> !with_status(s, tasks).fully_installed && !with_status(
            s,
            tasks,
        ).partially_installed,
{
    lemma_installed_count_bound(s.task_names, tasks);
}

/// The place of the first task called `name`.
pub fn find_task(tasks: &Vec<Task>, name: &str) -> (r: Option<usize>)
    ensures
        match r {
            Some(i) => lookup(tasks.deep_view(), name@) == Some(i as int) && i < tasks.len(),
            None => lookup(tasks.deep_view(), name@) is None,
        },
{
    let mut i: usize = 0;
    while i < tasks.len()
        invariant
            i <= tasks.len(),
            forall|j: int| 0 <= j < i ==> (#[trigger] tasks.deep_view()[j]).name != name@,
        decreases tasks.len() - i,
    {
        if same_text(tasks[i].name.as_str(), name) {
            assert(is_first_named(tasks.deep_view(), name@, i as int));
            return Some(i);
        }
        i = i + 1;
    }
    None
}

/// The order in which a phase visits the names: uninstalling goes from the
/// last name to the first, every other phase from the first to the last.
pub open spec fn visit_order(phase: Phase, names: Seq<Seq<char>>) -> Seq<Seq<char>> {
    if phase == Phase::Uninstall {
        names.reverse()
    } else {
        names
    }
}

/// Uninstalling visits the names in exactly the reverse of the order in
/// which installing visits them.
pub proof fn lemma_uninstall_reverses_install(names: Seq<Seq<char>>)
    ensures
        visit_order(Phase::Uninstall, names) == visit_order(Phase::Install, names).reverse(),
        visit_order(Phase::Uninstall, names).len() == names.len(),
        forall|k: int|
            0 <= k < names.len() ==> visit_order(Phase::Uninstall, names)[k] == visit_order(
                Phase::Install,
                names,
            )[names.len() - 1 - k],
{
}

/// A run on a stack, between two steps: the task at `current` is being
/// operated on for the name at `pos` of the visiting order.
#[derive(Debug)]
pub struct StackRun {
    pub phase: Phase,
    pub pos: usize,
    pub failed: Vec<(String, String)>,
    pub current: usize,
    pub inner: TaskRun,
}

/// A run on a stack as plain values.
pub struct StackRunView {
    pub phase: Phase,
    pub pos: nat,
    pub failed: Seq<(Seq<char>, Seq<char>)>,
    pub current: nat,
    pub inner: TaskRunView,
}

impl View for StackRun {
    type V = StackRunView;

    open spec fn view(&self) -> StackRunView {
        StackRunView {
            phase: self.phase,
            pos: self.pos as nat,
            failed: self.failed.deep_view(),
            current: self.current as nat,
            inner: self.inner@,
        }
    }
}

/// What a step on a stack comes to.
#[derive(Debug)]
pub enum StackProgress {
    /// The host is asked for work; its reply continues the run.
    Ask(StackRun, Request),
    /// The operation is over.
    Finished(Result<(), Failure>),
}

/// A stack's progress as plain values.
pub enum StackProgressView {
    Ask(StackRunView, RequestView),
    Finished(Result<(), FailureView>),
}

impl View for StackProgress {
    type V = StackProgressView;

    open spec fn view(&self) -> StackProgressView {
        match self {
            StackProgress::Ask(run, request) => StackProgressView::Ask(run@, request@),
            StackProgress::Finished(outcome) => StackProgressView::Finished(outcome_view(*outcome)),
        }
    }
}

/// Whether a phase changes which tasks are installed.
pub open spec fn changes_status(phase: Phase) -> bool {
    phase == Phase::Install || phase == Phase::Uninstall
}

/// The end of a run: installing and uninstalling set the flags anew, and
/// the operation fails where any task did, with the name of each of those
/// tasks and what its failure says.
pub open spec fn stack_finish(
    s: StackView,
    tasks: Seq<TaskView>,
    phase: Phase,
    failed: Seq<(Seq<char>, Seq<char>)>,
) -> (StackView, StackProgressView) {
    (
        if changes_status(phase) {
            with_status(s, tasks)
        } else {
            s
        },
        StackProgressView::Finished(
            if failed.len() == 0 {
                Ok(())
            } else {
                Err(
                    FailureView::Stack {
                        phase,
                        stack: s.name,
                        failed,
                        total: s.task_names.len() as usize,
                    },
                )
            },
        ),
    )
}

/// The entry of the failed ones for a name that no task goes by.
pub open spec fn missing(name: Seq<char>) -> (Seq<char>, Seq<char>) {
    (name, "Task not found"@)
}

/// The run from the name at `pos` of the visiting order on: a name without
/// a task is a failure and the next name is taken; the first name with a
/// task starts the phase on that task; after the last name the run ends.
pub open spec fn stack_scan(
    s: StackView,
    tasks: Seq<TaskView>,
    c: ConfigView,
    phase: Phase,
    pos: nat,
    failed: Seq<(Seq<char>, Seq<char>)>,
) -> (StackView, StackProgressView)
    decreases s.task_names.len() - pos,
{
    let order = visit_order(phase, s.task_names);
    if pos >= s.task_names.len() {
        stack_finish(s, tasks, phase, failed)
    } else {
        match lookup(tasks, order[pos as int]) {
            Some(i) => {
                let started = begin(tasks[i], c, Goal::Operate(phase));
                (
                    s,
                    StackProgressView::Ask(
                        StackRunView { phase, pos, failed, current: i as nat, inner: started.0 },
                        started.1,
                    ),
                )
            },
            None => stack_scan(
                s,
                tasks,
                c,
                phase,
                pos + 1,
                failed.push(missing(order[pos as int])),
            ),
        }
    }
}

/// A run visits the names in the visiting order: where it asks for work,
/// the task at work is the first task called by the name at the run's
/// place, every name passed over on the way has no task and is among the
/// failed ones as missing, in the order of the visit; where it ends at
/// once, every name from `pos` on has no task.
pub proof fn lemma_scan_in_order(
    s: StackView,
    tasks: Seq<TaskView>,
    c: ConfigView,
    phase: Phase,
    pos: nat,
    failed: Seq<(Seq<char>, Seq<char>)>,
)
    requires
        pos <= s.task_names.len(),
    ensures
        stack_scan(s, tasks, c, phase, pos, failed).1 matches StackProgressView::Ask(run, _) ==> {
            &&& pos <= run.pos < s.task_names.len()
            &&& run.phase == phase
            &&& lookup(tasks, visit_order(phase, s.task_names)[run.pos as int]) == Some(
                run.current as int,
            )
            &&& run.current < tasks.len()
            &&& run.failed == failed + Seq::new(
                (run.pos - pos) as nat,
                |k: int| missing(visit_order(phase, s.task_names)[pos + k]),
            )
            &&& forall|k: int|
                pos <= k < run.pos ==> lookup(tasks, #[trigger] visit_order(phase, s.task_names)[k])
                    is None
        },
        stack_scan(s, tasks, c, phase, pos, failed).1 matches StackProgressView::Finished(outcome)
            ==> {
            &&& forall|k: int|
                pos <= k < s.task_names.len() ==> lookup(
                    tasks,
                    #[trigger] visit_order(phase, s.task_names)[k],
                ) is None
            &&& outcome is Ok <==> failed.len() == 0 && pos == s.task_names.len()
        },
    decreases s.task_names.len() - pos,
{
    let order = visit_order(phase, s.task_names);
    assert(order.len() == s.task_names.len());
    if pos < s.task_names.len() {
        match lookup(tasks, order[pos as int]) {
            Some(i) => {
                assert(is_first_named(tasks, order[pos as int], i));
                assert(failed + Seq::new(0, |k: int| missing(order[pos + k])) =~= failed);
            },
            None => {
                let more = failed.push(missing(order[pos as int]));
                lemma_scan_in_order(s, tasks, c, phase, pos + 1, more);
                if let StackProgressView::Ask(run, _) = stack_scan(s, tasks, c, phase, pos, failed).1 {
                    assert(more + Seq::new(
                        (run.pos - (pos + 1)) as nat,
                        |k: int| missing(order[pos + 1 + k]),
                    ) =~= failed + Seq::new(
                        (run.pos - pos) as nat,
                        |k: int| missing(order[pos + k]),
                    ));
                }
            },
        }
    }
}

/// One step of a run on a stack: the reply goes to the task at work; when
/// that task is done, a failure adds its name and what it says to the
/// failed ones, and the
/// run goes on with the next name, whatever the outcome.
pub open spec fn stack_step(
    s: StackView,
    tasks: Seq<TaskView>,
    c: ConfigView,
    run: StackRunView,
    reply: ReplyView,
) -> (StackView, Seq<TaskView>, StackProgressView) {
    if run.current >= tasks.len() || run.pos >= s.task_names.len() {
        (s, tasks, StackProgressView::Finished(Err(FailureView::Unexpected)))
    } else {
        let stepped = task_step(tasks[run.current as int], c, run.inner, reply);
        let after = tasks.update(run.current as int, stepped.0);
        match stepped.1 {
            TaskProgressView::Ask(inner, request) => (
                s,
                after,
                StackProgressView::Ask(StackRunView { inner, ..run }, request),
            ),
            TaskProgressView::Finished(outcome) => {
                let name = visit_order(run.phase, s.task_names)[run.pos as int];
                let failed = match outcome {
                    Err(f) => run.failed.push((name, message_of(f))),
                    Ok(_) => run.failed,
                };
                let rest = stack_scan(s, after, c, run.phase, run.pos + 1, failed);
                (rest.0, after, rest.1)
            },
        }
    }
}

impl Stack {
    /// Sets the two flags from the tasks' `installed` flags. A name without
    /// a task counts as not installed.
    pub fn check_installation_status(&mut self, tasks: &Vec<Task>)
        ensures
            final(self)@ == with_status(old(self)@, tasks.deep_view()),
            !(final(self)@.fully_installed && final(self)@.partially_installed),
            old(self)@.task_names.len() == 0 ==> !final(self)@.fully_installed,
            old(self)@.task_names.len() == 0 ==> !final(self)@.partially_installed,
    {
        let total: usize = self.task_names.len();
        let mut count: usize = 0;
        let mut i: usize = 0;
        while i < total
            invariant
                total == self.task_names.len(),
                i <= total,
                count <= i,
                count == installed_count(
                    self.task_names.deep_view().take(i as int),
                    tasks.deep_view(),
                ),
            decreases total - i,
        {
            proof {
                let names = self.task_names.deep_view();
                assert(names.take(i + 1).drop_last() =~= names.take(i as int));
                assert(names.take(i + 1).last() == self.task_names[i as int]@);
            }
            match find_task(tasks, self.task_names[i].as_str()) {
                Some(k) => {
                    if tasks[k].installed {
                        count = count + 1;
                    }
                },
                None => {},
            }
            i = i + 1;
        }
        proof {
            let names = self.task_names.deep_view();
            assert(names.take(total as int) =~= names);
            lemma_status_exclusive(self@, tasks.deep_view());
        }
        self.fully_installed = total > 0 && count == total;
        self.partially_installed = count > 0 && count < total;
    }

    /// The name at `pos` of the order in which `phase` visits the tasks.
    fn visit(&self, phase: Phase, pos: usize) -> (r: &String)
        requires
            pos < self.task_names.len(),
        ensures
            r@ == visit_order(phase, self@.task_names)[pos as int],
    {
        match phase {
            Phase::Uninstall => &self.task_names[self.task_names.len() - 1 - pos],
            _ => &self.task_names[pos],
        }
    }

    /// The end of a run.
    fn finish(&mut self, tasks: &Vec<Task>, phase: Phase, failed: Vec<(String, String)>) -> (r:
        StackProgress)
        ensures
            final(self)@ == stack_finish(old(self)@, tasks.deep_view(), phase, failed.deep_view()).0,
            r@ == stack_finish(old(self)@, tasks.deep_view(), phase, failed.deep_view()).1,
    {
        match phase {
            Phase::Install | Phase::Uninstall => self.check_installation_status(tasks),
            _ => {},
        }
        if failed.len() == 0 {
            StackProgress::Finished(Ok(()))
        } else {
            StackProgress::Finished(
                Err(
                    Failure::Stack {
                        phase,
                        stack: self.name.clone(),
                        failed,
                        total: self.task_names.len(),
                    },
                ),
            )
        }
    }

    /// The run from the name at `pos` of the visiting order on.
    fn scan(
        &mut self,
        config: &Config,
        tasks: &Vec<Task>,
        phase: Phase,
        pos: usize,
        failed: Vec<(String, String)>,
    ) -> (r: StackProgress)
        ensures
            final(self)@ == stack_scan(
                old(self)@,
                tasks.deep_view(),
                config@,
                phase,
                pos as nat,
                failed.deep_view(),
            ).0,
            r@ == stack_scan(
                old(self)@,
                tasks.deep_view(),
                config@,
                phase,
                pos as nat,
                failed.deep_view(),
            ).1,
        decreases self.task_names.len() - pos,
    {
        if pos >= self.task_names.len() {
            return self.finish(tasks, phase, failed);
        }
        let mut failed = failed;
        let name = self.visit(phase, pos);
        match find_task(tasks, name.as_str()) {
            Some(i) => {
                assert(tasks.deep_view()[i as int] == tasks[i as int]@);
                let (inner, request) = tasks[i].begin(config, Goal::Operate(phase));
                return StackProgress::Ask(
                    StackRun { phase, pos, failed, current: i, inner },
                    request,
                );
            },
            None => {
                let ghost before = failed.deep_view();
                failed.push((name.clone(), "Task not found".to_string()));
                assert(failed.deep_view() =~= before.push(missing(name@)));
            },
        }
        self.scan(config, tasks, phase, pos + 1, failed)
    }

    /// Starts installing the stack's tasks, in the order of their names.
    pub fn install(&mut self, config: &Config, all_tasks: &Vec<Task>) -> (r: StackProgress)
        ensures
            final(self)@ == stack_scan(
                old(self)@,
                all_tasks.deep_view(),
                config@,
                Phase::Install,
                0,
                Seq::empty(),
            ).0,
            r@ == stack_scan(
                old(self)@,
                all_tasks.deep_view(),
                config@,
                Phase::Install,
                0,
                Seq::empty(),
            ).1,
    {
        self.start(config, all_tasks, Phase::Install)
    }

    /// Starts uninstalling the stack's tasks, from the last name to the first.
    pub fn uninstall(&mut self, config: &Config, all_tasks: &Vec<Task>) -> (r: StackProgress)
        ensures
            final(self)@ == stack_scan(
                old(self)@,
                all_tasks.deep_view(),
                config@,
                Phase::Uninstall,
                0,
                Seq::empty(),
            ).0,
            r@ == stack_scan(
                old(self)@,
                all_tasks.deep_view(),
                config@,
                Phase::Uninstall,
                0,
                Seq::empty(),
            ).1,
    {
        self.start(config, all_tasks, Phase::Uninstall)
    }

    /// Starts resetting the stack's tasks, in the order of their names.
    pub fn reset(&mut self, config: &Config, all_tasks: &Vec<Task>) -> (r: StackProgress)
        ensures
            final(self)@ == stack_scan(
                old(self)@,
                all_tasks.deep_view(),
                config@,
                Phase::Reset,
                0,
                Seq::empty(),
            ).0,
            r@ == stack_scan(
                old(self)@,
                all_tasks.deep_view(),
                config@,
                Phase::Reset,
                0,
                Seq::empty(),
            ).1,
    {
        self.start(config, all_tasks, Phase::Reset)
    }

    /// Starts remediating the stack's tasks, in the order of their names.
    pub fn remediate(&mut self, config: &Config, all_tasks: &Vec<Task>) -> (r: StackProgress)
        ensures
            final(self)@ == stack_scan(
                old(self)@,
                all_tasks.deep_view(),
                config@,
                Phase::Remediate,
                0,
                Seq::empty(),
            ).0,
            r@ == stack_scan(
                old(self)@,
                all_tasks.deep_view(),
                config@,
                Phase::Remediate,
                0,
                Seq::empty(),
            ).1,
    {
        self.start(config, all_tasks, Phase::Remediate)
    }

    /// Starts `phase` on the stack.
    pub fn start(&mut self, config: &Config, all_tasks: &Vec<Task>, phase: Phase) -> (r:
        StackProgress)
        ensures
            final(self)@ == stack_scan(
                old(self)@,
                all_tasks.deep_view(),
                config@,
                phase,
                0,
                Seq::empty(),
            ).0,
            r@ == stack_scan(
                old(self)@,
                all_tasks.deep_view(),
                config@,
                phase,
                0,
                Seq::empty(),
            ).1,
    {
        let failed: Vec<(String, String)> = Vec::new();
        assert(failed.deep_view() =~= Seq::empty());
        self.scan(config, all_tasks, phase, 0, failed)
    }

    /// Takes the host's reply to the request of `run` and makes the next
    /// step: the task at work is updated, and either more work is asked for
    /// or the operation ends.
    pub fn resume(
        &mut self,
        config: &Config,
        all_tasks: &mut Vec<Task>,
        run: StackRun,
        reply: Reply,
    ) -> (r: StackProgress)
        ensures
            final(self)@ == stack_step(
                old(self)@,
                old(all_tasks).deep_view(),
                config@,
                run@,
                reply@,
            ).0,
            final(all_tasks).deep_view() == stack_step(
                old(self)@,
                old(all_tasks).deep_view(),
                config@,
                run@,
                reply@,
            ).1,
            r@ == stack_step(old(self)@, old(all_tasks).deep_view(), config@, run@, reply@).2,
    {
        if run.current >= all_tasks.len() || run.pos >= self.task_names.len() {
            return StackProgress::Finished(Err(Failure::Unexpected));
        }
        let StackRun { phase, pos, failed, current, inner } = run;
        let ghost before = all_tasks.deep_view();
        let stepped = all_tasks[current].resume(config, inner, reply);
        assert(all_tasks.deep_view() =~= before.update(
            current as int,
            task_step(before[current as int], config@, inner@, reply@).0,
        ));
        match stepped {
            TaskProgress::Ask(inner, request) => StackProgress::Ask(
                StackRun { phase, pos, failed, current, inner },
                request,
            ),
            TaskProgress::Finished(outcome) => {
                let mut failed = failed;
                match outcome {
                    Err(f) => {
                        let name = self.visit(phase, pos);
                        let ghost before = failed.deep_view();
                        let reason = f.message();
                        failed.push((name.clone(), reason));
                        assert(failed.deep_view() =~= before.push((name@, message_of(f@))));
                    },
                    Ok(_) => {},
                }
                self.scan(config, all_tasks, phase, pos + 1, failed)
            },
        }
    }

    /// Starts installing the stack's tasks among `tasks`.
    pub fn install_with_tasks(&mut self, config: &Config, tasks: &Vec<Task>) -> (r: StackProgress)
        ensures
            final(self)@ == stack_scan(
                old(self)@,
                tasks.deep_view(),
                config@,
                Phase::Install,
                0,
                Seq::empty(),
            ).0,
            r@ == stack_scan(old(self)@, tasks.deep_view(), config@, Phase::Install, 0, Seq::empty()).1,
    {
        self.install(config, tasks)
    }

    /// Starts uninstalling the stack's tasks among `tasks`.
    pub fn uninstall_with_tasks(&mut self, config: &Config, tasks: &Vec<Task>) -> (r: StackProgress)
        ensures
            final(self)@ == stack_scan(
                old(self)@,
                tasks.deep_view(),
                config@,
                Phase::Uninstall,
                0,
                Seq::empty(),
            ).0,
            r@ == stack_scan(
                old(self)@,
                tasks.deep_view(),
                config@,
                Phase::Uninstall,
                0,
                Seq::empty(),
            ).1,
    {
        self.uninstall(config, tasks)
    }

    /// Starts resetting the stack's tasks among `tasks`.
    pub fn reset_with_tasks(&mut self, config: &Config, tasks: &Vec<Task>) -> (r: StackProgress)
        ensures
            final(self)@ == stack_scan(
                old(self)@,
                tasks.deep_view(),
                config@,
                Phase::Reset,
                0,
                Seq::empty(),
            ).0,
            r@ == stack_scan(old(self)@, tasks.deep_view(), config@, Phase::Reset, 0, Seq::empty()).1,
    {
        self.reset(config, tasks)
    }

    /// Starts remediating the stack's tasks among `tasks`.
    pub fn remediate_with_tasks(&mut self, config: &Config, tasks: &Vec<Task>) -> (r: StackProgress)
        ensures
            final(self)@ == stack_scan(
                old(self)@,
                tasks.deep_view(),
                config@,
                Phase::Remediate,
                0,
                Seq::empty(),
            ).0,
            r@ == stack_scan(
                old(self)@,
                tasks.deep_view(),
                config@,
                Phase::Remediate,
                0,
                Seq::empty(),
            ).1,
    {
        self.remediate(config, tasks)
    }

    /// Whether the stack can be installed: it is not fully installed.
    pub fn can_install(&self) -> (r: bool)
        ensures
            r == !self@.fully_installed,
    {
        !self.fully_installed
    }

    /// Whether the stack can be uninstalled: some of it is installed.
    pub fn can_uninstall(&self) -> (r: bool)
        ensures
            r == (self@.fully_installed || self@.partially_installed),
    {
        self.fully_installed || self.partially_installed
    }

    /// Whether the stack can be reset: some of it is installed.
    pub fn can_reset(&self) -> (r: bool)
        ensures
            r == (self@.fully_installed || self@.partially_installed),
    {
        self.fully_installed || self.partially_installed
    }

    /// Whether the stack can be remediated: some of it is installed.
    pub fn can_remediate(&self) -> (r: bool)
        ensures
            r == (self@.fully_installed || self@.partially_installed),
    {
        self.fully_installed || self.partially_installed
    }
}

} // verus!
