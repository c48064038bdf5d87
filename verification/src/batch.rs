//! The batch orchestrator: one phase applied to the selected units, one
//! after the other, with a tally of what succeeded, failed and was skipped.

use crate::config::{Config, ConfigView};
use crate::engine::{
    Goal, Reply, ReplyView, Request, RequestView, TaskProgress, TaskProgressView, TaskRun,
    TaskRunView,
};
use crate::error::{Failure, FailureView, Phase};
use crate::stack::{
    Stack, StackProgress, StackProgressView, StackRun, StackRunView, StackView, stack_scan,
    stack_step,
};
use crate::task::{Task, TaskView, begin, task_step};
use vstd::prelude::*;

verus! {

/// The tasks and the stacks that units refer to.
#[derive(Debug)]
pub struct Catalog {
    pub tasks: Vec<Task>,
    pub stacks: Vec<Stack>,
}

/// A catalog as plain values.
pub struct CatalogView {
    pub tasks: Seq<TaskView>,
    pub stacks: Seq<StackView>,
}

impl View for Catalog {
    type V = CatalogView;

    open spec fn view(&self) -> CatalogView {
        CatalogView { tasks: self.tasks.deep_view(), stacks: self.stacks.deep_view() }
    }
}

/// A unit that can be operated on: a task or a stack of the catalog, by its
/// place there.
#[derive(Debug, Clone, Copy, PartialEq, Eq, Structural)]
pub enum Unit {
    Task(usize),
    Stack(usize),
}

/// The tally of a batch.
#[derive(Debug)]
pub struct BatchResult {
    /// How many units the phase succeeded on.
    pub success_count: usize,
    /// The units the phase failed on, by their place among the units, in
    /// the order in which they were visited.
    pub errors: Vec<(usize, Failure)>,
    /// How many selected units the phase does not apply to.
    pub skipped: usize,
}

/// A tally as plain values.
pub struct BatchResultView {
    pub success_count: nat,
    pub errors: Seq<(usize, FailureView)>,
    pub skipped: nat,
}

impl BatchResultView {
    /// How many selected units the tally accounts for.
    pub open spec fn accounted(self) -> nat {
        self.success_count + self.errors.len() + self.skipped
    }
}

impl View for BatchResult {
    type V = BatchResultView;

    open spec fn view(&self) -> BatchResultView {
        BatchResultView {
            success_count: self.success_count as nat,
            errors: Seq::new(self.errors@.len(), |i: int| (self.errors@[i].0, self.errors@[i].1@)),
            skipped: self.skipped as nat,
        }
    }
}

/// The run on the unit at work.
#[derive(Debug)]
pub enum UnitRun {
    Task(TaskRun),
    Stack(StackRun),
}

/// The run on the unit at work as plain values.
pub enum UnitRunView {
    Task(TaskRunView),
    Stack(StackRunView),
}

impl View for UnitRun {
    type V = UnitRunView;

    open spec fn view(&self) -> UnitRunView {
        match self {
            UnitRun::Task(run) => UnitRunView::Task(run@),
            UnitRun::Stack(run) => UnitRunView::Stack(run@),
        }
    }
}

/// A batch between two steps: the unit selected at `pos` is at work, and
/// `result` accounts for the `pos` selections before it.
#[derive(Debug)]
pub struct BatchRun {
    phase: Phase,
    pos: usize,
    result: BatchResult,
    inner: UnitRun,
}

/// A batch between two steps as plain values.
pub struct BatchRunView {
    pub phase: Phase,
    pub pos: nat,
    pub result: BatchResultView,
    pub inner: UnitRunView,
}

impl View for BatchRun {
    type V = BatchRunView;

    closed spec fn view(&self) -> BatchRunView {
        BatchRunView {
            phase: self.phase,
            pos: self.pos as nat,
            result: self.result@,
            inner: self.inner@,
        }
    }
}

impl BatchRun {
    #[verifier::type_invariant]
    spec fn accounts_for_its_place(self) -> bool {
        self.result@.accounted() == self.pos
    }

    /// The phase of the batch.
    pub fn phase(&self) -> (r: Phase)
        ensures
            r == self@.phase,
    {
        self.phase
    }

    /// The place in the selection of the unit at work.
    pub fn position(&self) -> (r: usize)
        ensures
            r == self@.pos,
    {
        self.pos
    }
}

/// What a step of a batch comes to.
#[derive(Debug)]
pub enum BatchProgress {
    /// The host is asked for work; its reply continues the batch.
    Ask(BatchRun, Request),
    /// The batch is over.
    Finished(BatchResult),
}

/// A batch's progress as plain values.
pub enum BatchProgressView {
    Ask(BatchRunView, RequestView),
    Finished(BatchResultView),
}

impl View for BatchProgress {
    type V = BatchProgressView;

    open spec fn view(&self) -> BatchProgressView {
        match self {
            BatchProgress::Ask(run, request) => BatchProgressView::Ask(run@, request@),
            BatchProgress::Finished(result) => BatchProgressView::Finished(result@),
        }
    }
}

/// Whether the catalog holds what `unit` refers to.
pub open spec fn unit_exists(cat: CatalogView, unit: Unit) -> bool {
    match unit {
        Unit::Task(i) => i < cat.tasks.len(),
        Unit::Stack(i) => i < cat.stacks.len(),
    }
}

/// Whether `phase` applies to `unit`: installing to what is not (fully)
/// installed, every other phase to what is installed, if only in part.
pub open spec fn applicable(cat: CatalogView, unit: Unit, phase: Phase) -> bool {
    match unit {
        Unit::Task(i) => if phase == Phase::Install {
            !cat.tasks[i as int].installed
        } else {
            cat.tasks[i as int].installed
        },
        Unit::Stack(i) => if phase == Phase::Install {
            !cat.stacks[i as int].fully_installed
        } else {
            cat.stacks[i as int].fully_installed || cat.stacks[i as int].partially_installed
        },
    }
}

/// The tally with one more unit in it: a success, or a failure under the
/// unit's place.
pub open spec fn recorded(res: BatchResultView, index: usize, outcome: Result<(), FailureView>) -> BatchResultView {
    match outcome {
        Ok(_) => BatchResultView { success_count: res.success_count + 1, ..res },
        Err(f) => BatchResultView { errors: res.errors.push((index, f)), ..res },
    }
}

/// The tally with one more unit skipped.
pub open spec fn skipping(res: BatchResultView) -> BatchResultView {
    BatchResultView { skipped: res.skipped + 1, ..res }
}

/// The batch from the selection at `pos` on, in the order of the
/// selection. A selection without a unit is a failure. A unit that the
/// phase does not apply to is skipped: neither a success nor a failure.
/// Otherwise the phase starts on the unit; its outcome is recorded and the
/// next selection taken, whatever the outcome.
pub open spec fn batch_scan(
    cat: CatalogView,
    c: ConfigView,
    units: Seq<Unit>,
    selected: Seq<usize>,
    phase: Phase,
    pos: nat,
    res: BatchResultView,
) -> (CatalogView, BatchProgressView)
    decreases selected.len() - pos,
{
    if pos >= selected.len() {
        (cat, BatchProgressView::Finished(res))
    } else {
        let index = selected[pos as int];
        if index >= units.len() || !unit_exists(cat, units[index as int]) {
            batch_scan(
                cat,
                c,
                units,
                selected,
                phase,
                pos + 1,
                recorded(res, index, Err(FailureView::NoSuchUnit { index })),
            )
        } else if !applicable(cat, units[index as int], phase) {
            batch_scan(cat, c, units, selected, phase, pos + 1, skipping(res))
        } else {
            match units[index as int] {
                Unit::Task(i) => {
                    let started = begin(cat.tasks[i as int], c, Goal::Operate(phase));
                    (
                        cat,
                        BatchProgressView::Ask(
                            BatchRunView {
                                phase,
                                pos,
                                result: res,
                                inner: UnitRunView::Task(started.0),
                            },
                            started.1,
                        ),
                    )
                },
                Unit::Stack(i) => {
                    let started = stack_scan(
                        cat.stacks[i as int],
                        cat.tasks,
                        c,
                        phase,
                        0,
                        Seq::empty(),
                    );
                    let after = CatalogView {
                        stacks: cat.stacks.update(i as int, started.0),
                        ..cat
                    };
                    match started.1 {
                        StackProgressView::Ask(inner, request) => (
                            after,
                            BatchProgressView::Ask(
                                BatchRunView {
                                    phase,
                                    pos,
                                    result: res,
                                    inner: UnitRunView::Stack(inner),
                                },
                                request,
                            ),
                        ),
                        StackProgressView::Finished(outcome) => batch_scan(
                            after,
                            c,
                            units,
                            selected,
                            phase,
                            pos + 1,
                            recorded(res, index, outcome),
                        ),
                    }
                },
            }
        }
    }
}

/// One step of a batch: the reply goes to the unit at work; when that unit
/// is done, its outcome is recorded and the batch goes on with the next
/// selection. A run that does not fit the selection ends the unit at work
/// as a failure.
pub open spec fn batch_step(
    cat: CatalogView,
    c: ConfigView,
    units: Seq<Unit>,
    selected: Seq<usize>,
    run: BatchRunView,
    reply: ReplyView,
) -> (CatalogView, BatchProgressView) {
    if run.pos >= selected.len() {
        (cat, BatchProgressView::Finished(run.result))
    } else {
        let index = selected[run.pos as int];
        let next = run.pos + 1;
        let misfit = batch_scan(
            cat,
            c,
            units,
            selected,
            run.phase,
            next,
            recorded(run.result, index, Err(FailureView::Unexpected)),
        );
        if index >= units.len() || !unit_exists(cat, units[index as int]) {
            misfit
        } else {
            match (units[index as int], run.inner) {
                (Unit::Task(i), UnitRunView::Task(inner)) => {
                    let stepped = task_step(cat.tasks[i as int], c, inner, reply);
                    let after = CatalogView {
                        tasks: cat.tasks.update(i as int, stepped.0),
                        ..cat
                    };
                    match stepped.1 {
                        TaskProgressView::Ask(inner, request) => (
                            after,
                            BatchProgressView::Ask(
                                BatchRunView { inner: UnitRunView::Task(inner), ..run },
                                request,
                            ),
                        ),
                        TaskProgressView::Finished(outcome) => batch_scan(
                            after,
                            c,
                            units,
                            selected,
                            run.phase,
                            next,
                            recorded(run.result, index, outcome),
                        ),
                    }
                },
                (Unit::Stack(i), UnitRunView::Stack(inner)) => {
                    let stepped = stack_step(cat.stacks[i as int], cat.tasks, c, inner, reply);
                    let after = CatalogView {
                        tasks: stepped.1,
                        stacks: cat.stacks.update(i as int, stepped.0),
                    };
                    match stepped.2 {
                        StackProgressView::Ask(inner, request) => (
                            after,
                            BatchProgressView::Ask(
                                BatchRunView { inner: UnitRunView::Stack(inner), ..run },
                                request,
                            ),
                        ),
                        StackProgressView::Finished(outcome) => batch_scan(
                            after,
                            c,
                            units,
                            selected,
                            run.phase,
                            next,
                            recorded(run.result, index, outcome),
                        ),
                    }
                },
                _ => misfit,
            }
        }
    }
}

/// Whatever the hosts answers, a batch accounts for every selection: when
/// it is over, successes, failures and skipped units add up to the number
/// of selections, and while it runs, to the place it has reached.
pub proof fn lemma_batch_accounts(
    cat: CatalogView,
    c: ConfigView,
    units: Seq<Unit>,
    selected: Seq<usize>,
    phase: Phase,
    pos: nat,
    res: BatchResultView,
)
    requires
        pos <= selected.len(),
        res.accounted() == pos,
    ensures
        match batch_scan(cat, c, units, selected, phase, pos, res).1 {
            BatchProgressView::Finished(tally) => tally.accounted() == selected.len(),
            BatchProgressView::Ask(run, _) => run.result.accounted() == run.pos && run.pos
                < selected.len() && run.phase == phase,
        },
    decreases selected.len() - pos,
{
    if pos < selected.len() {
        let index = selected[pos as int];
        if index >= units.len() || !unit_exists(cat, units[index as int]) {
            lemma_batch_accounts(
                cat,
                c,
                units,
                selected,
                phase,
                pos + 1,
                recorded(res, index, Err(FailureView::NoSuchUnit { index })),
            );
        } else if !applicable(cat, units[index as int], phase) {
            lemma_batch_accounts(cat, c, units, selected, phase, pos + 1, skipping(res));
        } else {
            match units[index as int] {
                Unit::Task(i) => {},
                Unit::Stack(i) => {
                    let started = stack_scan(
                        cat.stacks[i as int],
                        cat.tasks,
                        c,
                        phase,
                        0,
                        Seq::empty(),
                    );
                    let after = CatalogView {
                        stacks: cat.stacks.update(i as int, started.0),
                        ..cat
                    };
                    match started.1 {
                        StackProgressView::Ask(inner, request) => {},
                        StackProgressView::Finished(outcome) => {
                            lemma_batch_accounts(
                                after,
                                c,
                                units,
                                selected,
                                phase,
                                pos + 1,
                                recorded(res, index, outcome),
                            );
                        },
                    }
                },
            }
        }
    }
}

/// A step of a batch keeps the account: from a run that accounts for the
/// selections before its place, the batch ends with every selection
/// accounted for, or goes on with a run that accounts for its own place.
pub proof fn lemma_batch_step_accounts(
    cat: CatalogView,
    c: ConfigView,
    units: Seq<Unit>,
    selected: Seq<usize>,
    run: BatchRunView,
    reply: ReplyView,
)
    requires
        run.pos < selected.len(),
        run.result.accounted() == run.pos,
    ensures
        match batch_step(cat, c, units, selected, run, reply).1 {
            BatchProgressView::Finished(tally) => tally.accounted() == selected.len(),
            BatchProgressView::Ask(next, _) => next.result.accounted() == next.pos && next.pos
                < selected.len() && next.phase == run.phase,
        },
{
    let index = selected[run.pos as int];
    let next = run.pos + 1;
    lemma_batch_accounts(
        cat,
        c,
        units,
        selected,
        run.phase,
        next,
        recorded(run.result, index, Err(FailureView::Unexpected)),
    );
    if !(index >= units.len() || !unit_exists(cat, units[index as int])) {
        match (units[index as int], run.inner) {
            (Unit::Task(i), UnitRunView::Task(inner)) => {
                let stepped = task_step(cat.tasks[i as int], c, inner, reply);
                let after = CatalogView { tasks: cat.tasks.update(i as int, stepped.0), ..cat };
                if let TaskProgressView::Finished(outcome) = stepped.1 {
                    lemma_batch_accounts(
                        after,
                        c,
                        units,
                        selected,
                        run.phase,
                        next,
                        recorded(run.result, index, outcome),
                    );
                }
            },
            (Unit::Stack(i), UnitRunView::Stack(inner)) => {
                let stepped = stack_step(cat.stacks[i as int], cat.tasks, c, inner, reply);
                let after = CatalogView {
                    tasks: stepped.1,
                    stacks: cat.stacks.update(i as int, stepped.0),
                };
                if let StackProgressView::Finished(outcome) = stepped.2 {
                    lemma_batch_accounts(
                        after,
                        c,
                        units,
                        selected,
                        run.phase,
                        next,
                        recorded(run.result, index, outcome),
                    );
                }
            },
            _ => {},
        }
    }
}

impl BatchResult {
    /// The empty tally.
    pub fn new() -> (r: BatchResult)
        ensures
            r@ == (BatchResultView { success_count: 0, errors: Seq::empty(), skipped: 0 }),
    {
        let r = BatchResult { success_count: 0, errors: Vec::new(), skipped: 0 };
        assert(r@.errors =~= Seq::empty());
        r
    }

    /// Adds the outcome of the unit at `index`.
    fn record(self, index: usize, outcome: Result<(), Failure>) -> (r: BatchResult)
        requires
            self@.accounted() < usize::MAX,
        ensures
            r@ == recorded(
                self@,
                index,
                match outcome {
                    Ok(_) => Ok(()),
                    Err(f) => Err(f@),
                },
            ),
    {
        let mut r = self;
        match outcome {
            Ok(_) => {
                r.success_count = r.success_count + 1;
            },
            Err(f) => {
                let ghost before = r@.errors;
                r.errors.push((index, f));
                assert(r@.errors =~= before.push((index, f@)));
            },
        }
        r
    }

    /// Adds a skipped unit.
    fn skip(self) -> (r: BatchResult)
        requires
            self@.accounted() < usize::MAX,
        ensures
            r@ == skipping(self@),
    {
        let mut r = self;
        r.skipped = r.skipped + 1;
        r
    }
}

impl Catalog {
    /// Whether the catalog holds what `unit` refers to.
    pub fn holds(&self, unit: Unit) -> (r: bool)
        ensures
            r == unit_exists(self@, unit),
    {
        match unit {
            Unit::Task(i) => i < self.tasks.len(),
            Unit::Stack(i) => i < self.stacks.len(),
        }
    }

    /// Whether the catalog holds `unit` and `phase` applies to it.
    pub fn applies(&self, unit: Unit, phase: Phase) -> (r: bool)
        ensures
            r == (unit_exists(self@, unit) && applicable(self@, unit, phase)),
    {
        if !self.holds(unit) {
            return false;
        }
        match unit {
            Unit::Task(i) => {
                assert(self.tasks.deep_view()[i as int] == self.tasks[i as int]@);
                match phase {
                    Phase::Install => self.tasks[i].can_install(),
                    Phase::Uninstall => self.tasks[i].can_uninstall(),
                    Phase::Reset => self.tasks[i].can_reset(),
                    Phase::Remediate => self.tasks[i].can_remediate(),
                }
            },
            Unit::Stack(i) => {
                assert(self.stacks.deep_view()[i as int] == self.stacks[i as int]@);
                match phase {
                    Phase::Install => self.stacks[i].can_install(),
                    Phase::Uninstall => self.stacks[i].can_uninstall(),
                    Phase::Reset => self.stacks[i].can_reset(),
                    Phase::Remediate => self.stacks[i].can_remediate(),
                }
            },
        }
    }

    /// The batch from the selection at `pos` on.
    fn scan(
        &mut self,
        config: &Config,
        units: &Vec<Unit>,
        selected: &Vec<usize>,
        phase: Phase,
        pos: usize,
        result: BatchResult,
    ) -> (r: BatchProgress)
        requires
            pos <= selected.len(),
            result@.accounted() == pos,
        ensures
            final(self)@ == batch_scan(old(self)@, config@, units@, selected@, phase, pos as nat, result@).0,
            r@ == batch_scan(old(self)@, config@, units@, selected@, phase, pos as nat, result@).1,
        decreases selected.len() - pos,
    {
        if pos >= selected.len() {
            return BatchProgress::Finished(result);
        }
        let index = selected[pos];
        if index >= units.len() || !self.holds(units[index]) {
            let result = result.record(index, Err(Failure::NoSuchUnit { index }));
            return self.scan(config, units, selected, phase, pos + 1, result);
        }
        let unit = units[index];
        if !self.applies(unit, phase) {
            let result = result.skip();
            return self.scan(config, units, selected, phase, pos + 1, result);
        }
        match unit {
            Unit::Task(i) => {
                assert(self.tasks.deep_view()[i as int] == self.tasks[i as int]@);
                let (inner, request) = self.tasks[i].begin(config, Goal::Operate(phase));
                BatchProgress::Ask(
                    BatchRun { phase, pos, result, inner: UnitRun::Task(inner) },
                    request,
                )
            },
            Unit::Stack(i) => {
                let ghost before = self.stacks.deep_view();
                assert(before[i as int] == self.stacks[i as int]@);
                let started = self.stacks[i].start(config, &self.tasks, phase);
                assert(self.stacks.deep_view() =~= before.update(
                    i as int,
                    self.stacks[i as int]@,
                ));
                match started {
                    StackProgress::Ask(inner, request) => BatchProgress::Ask(
                        BatchRun { phase, pos, result, inner: UnitRun::Stack(inner) },
                        request,
                    ),
                    StackProgress::Finished(outcome) => {
                        let result = result.record(index, outcome);
                        self.scan(config, units, selected, phase, pos + 1, result)
                    },
                }
            },
        }
    }

    /// Starts `phase` on the selected units, in the order of `selected`.
    /// Each entry of `selected` is a place in `units`.
    pub fn run_batch(
        &mut self,
        config: &Config,
        units: &Vec<Unit>,
        selected: &Vec<usize>,
        phase: Phase,
    ) -> (r: BatchProgress)
        ensures
            final(self)@ == batch_scan(
                old(self)@,
                config@,
                units@,
                selected@,
                phase,
                0,
                BatchResultView { success_count: 0, errors: Seq::empty(), skipped: 0 },
            ).0,
            r@ == batch_scan(
                old(self)@,
                config@,
                units@,
                selected@,
                phase,
                0,
                BatchResultView { success_count: 0, errors: Seq::empty(), skipped: 0 },
            ).1,
            r matches BatchProgress::Finished(tally) ==> tally@.accounted() == selected@.len(),
    {
        proof {
            lemma_batch_accounts(
                self@,
                config@,
                units@,
                selected@,
                phase,
                0,
                BatchResultView { success_count: 0, errors: Seq::empty(), skipped: 0 },
            );
        }
        self.scan(config, units, selected, phase, 0, BatchResult::new())
    }

    /// Takes the host's reply to the request of `run` and makes the next
    /// step of the batch.
    pub fn resume_batch(
        &mut self,
        config: &Config,
        units: &Vec<Unit>,
        selected: &Vec<usize>,
        run: BatchRun,
        reply: Reply,
    ) -> (r: BatchProgress)
        ensures
            final(self)@ == batch_step(old(self)@, config@, units@, selected@, run@, reply@).0,
            r@ == batch_step(old(self)@, config@, units@, selected@, run@, reply@).1,
            run@.pos < selected@.len() ==> (r matches BatchProgress::Finished(tally)
                ==> tally@.accounted() == selected@.len()),
    {
        proof {
            use_type_invariant(&run);
            if run@.pos < selected@.len() {
                lemma_batch_step_accounts(self@, config@, units@, selected@, run@, reply@);
            }
        }
        let BatchRun { phase, pos, result, inner } = run;
        if pos >= selected.len() {
            return BatchProgress::Finished(result);
        }
        let index = selected[pos];
        if index >= units.len() || !self.holds(units[index]) {
            let result = result.record(index, Err(Failure::Unexpected));
            return self.scan(config, units, selected, phase, pos + 1, result);
        }
        match (units[index], inner) {
            (Unit::Task(i), UnitRun::Task(inner)) => {
                let ghost before = self.tasks.deep_view();
                assert(before[i as int] == self.tasks[i as int]@);
                let stepped = self.tasks[i].resume(config, inner, reply);
                assert(self.tasks.deep_view() =~= before.update(i as int, self.tasks[i as int]@));
                match stepped {
                    TaskProgress::Ask(inner, request) => BatchProgress::Ask(
                        BatchRun { phase, pos, result, inner: UnitRun::Task(inner) },
                        request,
                    ),
                    TaskProgress::Finished(outcome) => {
                        let result = result.record(index, outcome);
                        self.scan(config, units, selected, phase, pos + 1, result)
                    },
                }
            },
            (Unit::Stack(i), UnitRun::Stack(inner)) => {
                let ghost before = self.stacks.deep_view();
                assert(before[i as int] == self.stacks[i as int]@);
                let stepped = self.stacks[i].resume(config, &mut self.tasks, inner, reply);
                assert(self.stacks.deep_view() =~= before.update(
                    i as int,
                    self.stacks[i as int]@,
                ));
                match stepped {
                    StackProgress::Ask(inner, request) => BatchProgress::Ask(
                        BatchRun { phase, pos, result, inner: UnitRun::Stack(inner) },
                        request,
                    ),
                    StackProgress::Finished(outcome) => {
                        let result = result.record(index, outcome);
                        self.scan(config, units, selected, phase, pos + 1, result)
                    },
                }
            },
            _ => {
                let result = result.record(index, Err(Failure::Unexpected));
                self.scan(config, units, selected, phase, pos + 1, result)
            },
        }
    }
}

} // verus!
