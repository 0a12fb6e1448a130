use crate::error::Error;
use crate::error::ErrorView;
use crate::outcome::IntoStepOutcome;
use crate::outputs::Outputs;
use crate::step::Group;
use crate::step::GroupView;
use vstd::prelude::*;

verus! {

/// What decides how a group runs: the names of its steps in declared order,
/// and its policy.
pub struct GroupScript {
    names: Vec<String>,
    parallel: bool,
    tolerate_failure: bool,
}

/// What a [`GroupScript`] holds.
pub struct GroupPlan {
    pub names: Seq<Seq<char>>,
    pub parallel: bool,
    pub tolerate_failure: bool,
}

impl GroupPlan {
    /// Whether a failing step of this group leaves the others to run. A
    /// parallel group always does.
    pub open spec fn tolerant(self) -> bool {
        self.parallel || self.tolerate_failure
    }
}

impl View for GroupScript {
    type V = GroupPlan;

    closed spec fn view(&self) -> GroupPlan {
        GroupPlan {
            names: self.names@.map_values(|n: String| n@),
            parallel: self.parallel,
            tolerate_failure: self.tolerate_failure,
        }
    }
}

/// The plan of a group: its step names and its policy.
pub open spec fn plan_of<F, B, A>(group: GroupView<F, B, A>) -> GroupPlan {
    GroupPlan {
        names: group.names(),
        parallel: group.parallel,
        tolerate_failure: group.tolerate_failure,
    }
}

/// The plans of `script`, in its order.
pub open spec fn plans_of(script: Seq<GroupScript>) -> Seq<GroupPlan> {
    script.map_values(|g: GroupScript| g@)
}

impl GroupScript {
    /// Reads the script of `group`.
    pub fn of<F, B, A>(group: &Group<F, B, A>) -> (script: GroupScript)
        ensures
            script@ == plan_of(group@),
    {
        let mut names: Vec<String> = Vec::new();
        let mut i: usize = 0;
        while i < group.len()
            invariant
                i <= group@.steps.len(),
                names@.map_values(|n: String| n@) == group@.names().take(i as int),
            decreases group@.steps.len() - i,
        {
            let ghost before = names@;
            let name = group.step_name(i).to_owned();
            names.push(name);
            proof {
                assert(group@.names()[i as int] == name@);
                assert(names@.map_values(|n: String| n@) =~= before.map_values(
                    |n: String| n@,
                ).push(name@));
                assert(group@.names().take(i + 1) =~= group@.names().take(i as int).push(name@));
            }
            i += 1;
        }
        assert(group@.names().take(i as int) =~= group@.names());
        GroupScript {
            names,
            parallel: group.is_parallel(),
            tolerate_failure: group.tolerates_failure(),
        }
    }
}

/// What the driver of an execution does next.
#[derive(Clone, Copy, Debug, PartialEq, Eq)]
pub enum Action {
    /// Run the step at `step` of the group at `group` to its end, and report
    /// its outcome with [`Execution::finished`].
    Run { group: usize, step: usize },
    /// Launch every step of the group at `group` concurrently, and report
    /// their outcomes, in declared order, with [`Execution::finished_all`].
    RunAll { group: usize },
    /// Nothing is left to run: take the result.
    Done,
}

/// The names of all steps of the groups before `group`, in declared order.
pub open spec fn names_before(script: Seq<GroupPlan>, group: nat) -> Seq<Seq<char>>
    decreases group,
{
    if group == 0 {
        Seq::empty()
    } else {
        names_before(script, (group - 1) as nat) + script[group - 1].names
    }
}

/// The names of the steps that come before the step at `step` of the group
/// at `group`, in the order in which they run: group by group, and in each
/// group as declared.
pub open spec fn handed(script: Seq<GroupPlan>, group: nat, step: nat) -> Seq<Seq<char>> {
    if group < script.len() {
        names_before(script, group) + script[group as int].names.take(step as int)
    } else {
        names_before(script, group)
    }
}

/// For each step of the groups before `group`, whether its group tolerates
/// failure.
pub open spec fn tolerance_before(script: Seq<GroupPlan>, group: nat) -> Seq<bool>
    decreases group,
{
    if group == 0 {
        Seq::empty()
    } else {
        tolerance_before(script, (group - 1) as nat) + Seq::new(
            script[group - 1].names.len(),
            |i: int| script[group - 1].tolerant(),
        )
    }
}

/// For each step that comes before the step at `step` of the group at
/// `group`, whether its group tolerates failure.
pub open spec fn tolerance(script: Seq<GroupPlan>, group: nat, step: nat) -> Seq<bool> {
    if group < script.len() {
        tolerance_before(script, group) + Seq::new(
            step,
            |i: int| script[group as int].tolerant(),
        )
    } else {
        tolerance_before(script, group)
    }
}

/// The first group from `from` on that has a step, or the number of groups
/// where there is none.
pub open spec fn settle(script: Seq<GroupPlan>, from: nat) -> nat
    decreases script.len() - from,
{
    if from >= script.len() {
        script.len()
    } else if script[from as int].names.len() > 0 {
        from
    } else {
        settle(script, from + 1)
    }
}

/// Skipping groups without steps skips no step.
pub proof fn lemma_settle(script: Seq<GroupPlan>, from: nat)
    requires
        from <= script.len(),
    ensures
        from <= settle(script, from) <= script.len(),
        settle(script, from) < script.len() ==> script[settle(script, from) as int].names.len()
            > 0,
        names_before(script, settle(script, from)) == names_before(script, from),
        tolerance_before(script, settle(script, from)) == tolerance_before(script, from),
    decreases script.len() - from,
{
    if from < script.len() && script[from as int].names.len() == 0 {
        lemma_settle(script, from + 1);
        assert(names_before(script, from + 1) =~= names_before(script, from));
        assert(tolerance_before(script, from + 1) =~= tolerance_before(script, from));
    }
}

/// There is one tolerance flag for each step.
pub proof fn lemma_tolerance_len(script: Seq<GroupPlan>, group: nat)
    ensures
        tolerance_before(script, group).len() == names_before(script, group).len(),
    decreases group,
{
    if group > 0 {
        lemma_tolerance_len(script, (group - 1) as nat);
    }
}

/// The names in `log`, in its order.
pub open spec fn log_names<O>(log: Seq<(Seq<char>, O)>) -> Seq<Seq<char>> {
    log.map_values(|e: (Seq<char>, O)| e.0)
}

/// Each name of `names` with the outcome at the same place of `outs`.
pub open spec fn paired<O>(names: Seq<Seq<char>>, outs: Seq<O>) -> Seq<(Seq<char>, O)> {
    Seq::new(names.len(), |i: int| (names[i], outs[i]))
}

/// The error that stops an execution when the step `name` fails with
/// `cause` in a group that does not tolerate failure.
pub open spec fn step_failure<C>(name: Seq<char>, cause: Option<C>) -> ErrorView<C> {
    match cause {
        Some(c) => ErrorView::Step(name, c),
        None => ErrorView::UnknownStep(name),
    }
}

/// The state of an execution.
pub struct ExecutionView<O: IntoStepOutcome> {
    /// The plans of the groups, in the order in which they run.
    pub script: Seq<GroupPlan>,
    /// The group that runs now; the number of groups when all have run.
    pub group: nat,
    /// The step of that group that runs next.
    pub step: nat,
    /// The outcomes recorded so far with their names, oldest first.
    pub log: Seq<(Seq<char>, O)>,
    /// The error that stopped the execution, if one did.
    pub failure: Option<ErrorView<O::Cause>>,
}

impl<O: IntoStepOutcome> ExecutionView<O> {
    /// The state before anything has run.
    pub open spec fn initial(script: Seq<GroupPlan>) -> Self {
        ExecutionView {
            script,
            group: settle(script, 0),
            step: 0,
            log: Seq::empty(),
            failure: None,
        }
    }

    /// What holds of every state that an execution reaches.
    ///
    /// The position is a step that exists, or the end. The log holds the
    /// steps before the position, each once and in the order in which they
    /// run, and a failed outcome only from a group that tolerates failure.
    /// An execution is stopped only at a failed step of a group that does not.
    pub open spec fn wf(self) -> bool {
        &&& self.group <= self.script.len()
        &&& self.group < self.script.len() ==> {
            &&& self.step < self.script[self.group as int].names.len()
            &&& self.script[self.group as int].parallel ==> self.step == 0
        }
        &&& self.group == self.script.len() ==> self.step == 0
        &&& log_names(self.log) == handed(self.script, self.group, self.step)
        &&& forall|i: int|
            0 <= i < self.log.len() ==> tolerance(self.script, self.group, self.step)[i]
                || (#[trigger] self.log[i]).1.succeeded()
        &&& self.failure is Some ==> {
            &&& self.group < self.script.len()
            &&& !self.script[self.group as int].tolerant()
            &&& exists|cause: Option<O::Cause>|
                self.failure == Some(
                    #[trigger] step_failure(
                        self.script[self.group as int].names[self.step as int],
                        cause,
                    ),
                )
        }
    }

    /// What the driver does next.
    pub open spec fn next(self) -> Action {
        if self.failure is Some || self.group >= self.script.len() {
            Action::Done
        } else if self.script[self.group as int].parallel {
            Action::RunAll { group: self.group as usize }
        } else {
            Action::Run { group: self.group as usize, step: self.step as usize }
        }
    }

    /// The state with the position moved past the current group.
    pub open spec fn past_group(self, log: Seq<(Seq<char>, O)>) -> Self {
        ExecutionView { group: settle(self.script, self.group + 1), step: 0, log, ..self }
    }

    /// The state after the step that runs now has ended with `out`.
    ///
    /// In a group that tolerates failure, and after a success, the outcome is
    /// recorded under the step's name and the next step is up. Else the
    /// execution stops with the step's failure, and nothing is recorded.
    pub open spec fn after_step(self, out: O) -> Self {
        let plan = self.script[self.group as int];
        let name = plan.names[self.step as int];
        if plan.tolerant() || out.succeeded() {
            let log = self.log.push((name, out));
            if self.step + 1 < plan.names.len() {
                ExecutionView { step: self.step + 1, log, ..self }
            } else {
                self.past_group(log)
            }
        } else {
            ExecutionView { failure: Some(step_failure(name, out.cause())), ..self }
        }
    }

    /// The state after all steps of the group that runs now have ended,
    /// `outs` holding their outcomes in declared order: every outcome is
    /// recorded, in that order, and the next group is up.
    pub open spec fn after_all(self, outs: Seq<O>) -> Self {
        let plan = self.script[self.group as int];
        self.past_group(self.log + paired(plan.names, outs))
    }

    /// The result of the execution: the error that stopped it, or what the
    /// recorded outcomes amount to, keyed by name.
    pub open spec fn result(self) -> Result<Map<Seq<char>, O>, ErrorView<O::Cause>> {
        match self.failure {
            Some(e) => Err(e),
            None => Ok(crate::outputs::merged(self.log)),
        }
    }
}

/// Nothing has run at the start, and the position is the first step.
pub proof fn lemma_initial_wf<O: IntoStepOutcome>(script: Seq<GroupPlan>)
    ensures
        ExecutionView::<O>::initial(script).wf(),
{
    let v = ExecutionView::<O>::initial(script);
    lemma_settle(script, 0);
    assert(log_names(v.log) =~= handed(script, v.group, 0));
}

/// Recording the outcome of a step keeps the state well formed.
pub proof fn lemma_after_step_wf<O: IntoStepOutcome>(v: ExecutionView<O>, out: O)
    requires
        v.wf(),
        v.next() is Run,
    ensures
        v.after_step(out).wf(),
{
    let plan = v.script[v.group as int];
    let name = plan.names[v.step as int];
    let w = v.after_step(out);
    lemma_tolerance_len(v.script, v.group);
    assert(log_names(v.log).len() == v.log.len());
    if plan.tolerant() || out.succeeded() {
        assert(log_names(w.log) =~= log_names(v.log).push(name));
        assert(plan.names.take(v.step as int + 1) =~= plan.names.take(v.step as int).push(name));
        let ahead = tolerance(v.script, v.group, v.step).push(plan.tolerant());
        if v.step + 1 < plan.names.len() {
            assert(log_names(w.log) =~= handed(w.script, w.group, w.step));
            assert(tolerance(w.script, w.group, w.step) =~= ahead);
        } else {
            lemma_settle(v.script, v.group + 1);
            assert(plan.names.take(v.step as int + 1) =~= plan.names);
            assert(log_names(w.log) =~= handed(w.script, w.group, w.step));
            assert(Seq::new(plan.names.len(), |i: int| plan.tolerant()) =~= Seq::new(
                v.step,
                |i: int| plan.tolerant(),
            ).push(plan.tolerant()));
            assert(tolerance(w.script, w.group, w.step) =~= ahead);
        }
        assert forall|i: int| 0 <= i < w.log.len() implies tolerance(
            w.script,
            w.group,
            w.step,
        )[i] || (#[trigger] w.log[i]).1.succeeded() by {
            if i < v.log.len() {
                assert(w.log[i] == v.log[i]);
            }
        }
    } else {
        assert(w.failure == Some(step_failure(name, out.cause())));
    }
}

/// Recording the outcomes of a parallel group keeps the state well formed.
pub proof fn lemma_after_all_wf<O: IntoStepOutcome>(v: ExecutionView<O>, outs: Seq<O>)
    requires
        v.wf(),
        v.next() is RunAll,
        outs.len() == v.script[v.group as int].names.len(),
    ensures
        v.after_all(outs).wf(),
{
    let plan = v.script[v.group as int];
    let w = v.after_all(outs);
    lemma_tolerance_len(v.script, v.group);
    assert(log_names(v.log).len() == v.log.len());
    lemma_settle(v.script, v.group + 1);
    assert(plan.names.take(0) =~= Seq::empty());
    assert(log_names(w.log) =~= log_names(v.log) + plan.names);
    assert(log_names(w.log) =~= handed(w.script, w.group, w.step));
    let ahead = tolerance(v.script, v.group, 0) + Seq::new(
        plan.names.len(),
        |i: int| plan.tolerant(),
    );
    assert(tolerance(v.script, v.group, 0) =~= tolerance_before(v.script, v.group));
    assert(tolerance(w.script, w.group, w.step) =~= ahead);
    assert forall|i: int| 0 <= i < w.log.len() implies tolerance(w.script, w.group, w.step)[i]
        || (#[trigger] w.log[i]).1.succeeded() by {
        if i < v.log.len() {
            assert(w.log[i] == v.log[i]);
        }
    }
}

/// Where no group tolerates failure, no step is marked as tolerated.
pub proof fn lemma_strict_tolerance(script: Seq<GroupPlan>, group: nat, step: nat)
    requires
        group <= script.len(),
        forall|g: int| 0 <= g < script.len() ==> !(#[trigger] script[g]).tolerant(),
    ensures
        forall|i: int|
            0 <= i < tolerance(script, group, step).len() ==> !(#[trigger] tolerance(
                script,
                group,
                step,
            )[i]),
{
    lemma_strict_tolerance_before(script, group);
}

/// Where no group tolerates failure, no step of the groups before `group`
/// is marked as tolerated.
pub proof fn lemma_strict_tolerance_before(script: Seq<GroupPlan>, group: nat)
    requires
        group <= script.len(),
        forall|g: int| 0 <= g < script.len() ==> !(#[trigger] script[g]).tolerant(),
    ensures
        forall|i: int|
            0 <= i < tolerance_before(script, group).len() ==> !(#[trigger] tolerance_before(
                script,
                group,
            )[i]),
    decreases group,
{
    if group > 0 {
        let front = tolerance_before(script, (group - 1) as nat);
        lemma_strict_tolerance_before(script, (group - 1) as nat);
        assert(!script[group - 1].tolerant());
        assert forall|i: int| 0 <= i < tolerance_before(script, group).len() implies !(
        #[trigger] tolerance_before(script, group)[i]) by {
            if i < front.len() {
                assert(tolerance_before(script, group)[i] == front[i]);
            }
        }
    }
}

/// What has been recorded is what the steps before the position produced,
/// one outcome for each, in the order in which the steps are declared: the
/// default group first, then the groups in the order of their registration.
/// No step at or after the position has an outcome.
pub proof fn lemma_recorded_in_declared_order<O: IntoStepOutcome>(v: ExecutionView<O>)
    requires
        v.wf(),
    ensures
        v.log.len() == handed(v.script, v.group, v.step).len(),
        forall|i: int|
            0 <= i < v.log.len() ==> (#[trigger] v.log[i]).0 == handed(
                v.script,
                v.group,
                v.step,
            )[i],
{
    assert forall|i: int| 0 <= i < v.log.len() implies (#[trigger] v.log[i]).0 == handed(
        v.script,
        v.group,
        v.step,
    )[i] by {
        assert(log_names(v.log)[i] == v.log[i].0);
    }
}

/// Where every group runs its steps one after the other and none tolerates
/// failure, an execution that came to its end without an error has recorded
/// every step, in declared order, and every recorded outcome is a success.
pub proof fn lemma_strict_run_succeeds<O: IntoStepOutcome>(v: ExecutionView<O>)
    requires
        v.wf(),
        forall|g: int| 0 <= g < v.script.len() ==> !(#[trigger] v.script[g]).tolerant(),
        v.next() is Done,
        v.failure is None,
    ensures
        log_names(v.log) == names_before(v.script, v.script.len()),
        forall|i: int| 0 <= i < v.log.len() ==> (#[trigger] v.log[i]).1.succeeded(),
        v.result() == Ok::<_, ErrorView<O::Cause>>(crate::outputs::merged(v.log)),
{
    lemma_strict_tolerance(v.script, v.group, v.step);
    lemma_tolerance_len(v.script, v.group);
    assert(log_names(v.log).len() == v.log.len());
}

/// A step that succeeds has its outcome recorded under its name, and the
/// execution goes on, whatever the policy of its group.
pub proof fn lemma_success_goes_on<O: IntoStepOutcome>(v: ExecutionView<O>, out: O)
    requires
        v.wf(),
        v.next() is Run,
        out.succeeded(),
    ensures
        v.after_step(out).failure is None,
        v.after_step(out).log == v.log.push(
            (v.script[v.group as int].names[v.step as int], out),
        ),
        v.step + 1 < v.script[v.group as int].names.len() ==> v.after_step(out).next()
            == (Action::Run { group: v.group as usize, step: (v.step + 1) as usize }),
{
}

/// In a group that does not tolerate failure, a failed step stops the
/// execution: nothing is recorded for it, no step is run after it, and the
/// error names the step, with its cause where it has one.
pub proof fn lemma_failure_stops<O: IntoStepOutcome>(v: ExecutionView<O>, out: O)
    requires
        v.wf(),
        v.next() is Run,
        !v.script[v.group as int].tolerant(),
        !out.succeeded(),
    ensures
        v.after_step(out).next() is Done,
        v.after_step(out).log == v.log,
        v.after_step(out).result() == Err::<Map<Seq<char>, O>, _>(
            step_failure(v.script[v.group as int].names[v.step as int], out.cause()),
        ),
{
}

/// In a group that tolerates failure, every outcome is recorded, a failed
/// one too, and the execution goes on.
pub proof fn lemma_tolerant_keeps_every_outcome<O: IntoStepOutcome>(v: ExecutionView<O>, out: O)
    requires
        v.wf(),
        v.next() is Run,
        v.script[v.group as int].tolerant(),
    ensures
        v.after_step(out).failure is None,
        v.after_step(out).log == v.log.push(
            (v.script[v.group as int].names[v.step as int], out),
        ),
{
}

/// A parallel group records the outcome of every step, a failed one too, in
/// the order in which the steps are declared, and the execution goes on.
pub proof fn lemma_parallel_keeps_declared_order<O: IntoStepOutcome>(
    v: ExecutionView<O>,
    outs: Seq<O>,
)
    requires
        v.wf(),
        v.next() is RunAll,
        outs.len() == v.script[v.group as int].names.len(),
    ensures
        v.after_all(outs).failure is None,
        v.after_all(outs).log.len() == v.log.len() + outs.len(),
        forall|i: int|
            0 <= i < outs.len() ==> #[trigger] v.after_all(outs).log[v.log.len() + i] == (
                v.script[v.group as int].names[i],
                outs[i],
            ),
        forall|i: int| 0 <= i < v.log.len() ==> #[trigger] v.after_all(outs).log[i] == v.log[i],
{
}

/// An execution is stopped only by a failed step of a group that does not
/// tolerate failure, and once it is stopped nothing more is run.
pub proof fn lemma_stopped_only_where_strict<O: IntoStepOutcome>(v: ExecutionView<O>)
    requires
        v.wf(),
        v.failure is Some,
    ensures
        v.next() is Done,
        v.group < v.script.len(),
        !v.script[v.group as int].tolerant(),
        v.failure is Some ==> v.failure->0 is Step || v.failure->0 is UnknownStep,
{
    let cause = choose|cause: Option<O::Cause>|
        v.failure == Some(
            #[trigger] step_failure(v.script[v.group as int].names[v.step as int], cause),
        );
    assert(v.failure->0 == step_failure(
        v.script[v.group as int].names[v.step as int],
        cause,
    ));
}

/// An execution: which step runs next, the outcomes recorded so far, and
/// the error that stopped it, if one did. Its driver asks [`Execution::next`]
/// what to do, does it, and reports what came of it.
pub struct Execution<O: IntoStepOutcome> {
    script: Vec<GroupScript>,
    group: usize,
    step: usize,
    outputs: Outputs<O>,
    failure: Option<Error<O::Cause>>,
}

impl<O: IntoStepOutcome> View for Execution<O> {
    type V = ExecutionView<O>;

    closed spec fn view(&self) -> ExecutionView<O> {
        ExecutionView {
            script: plans_of(self.script@),
            group: self.group as nat,
            step: self.step as nat,
            log: self.outputs.log(),
            failure: match self.failure {
                Some(e) => Some(e@),
                None => None,
            },
        }
    }
}

/// The first group from `from` on that has a step.
fn settle_from(script: &Vec<GroupScript>, from: usize) -> (group: usize)
    requires
        from <= script@.len(),
    ensures
        group == settle(plans_of(script@), from as nat),
    decreases script@.len() - from,
{
    if from >= script.len() {
        script.len()
    } else if script[from].names.len() > 0 {
        from
    } else {
        settle_from(script, from + 1)
    }
}

impl<O: IntoStepOutcome> Execution<O> {
    /// Starts an execution of the groups of `script`, in its order.
    pub fn new(script: Vec<GroupScript>) -> (execution: Self)
        ensures
            execution@ == ExecutionView::<O>::initial(plans_of(script@)),
            execution@.wf(),
    {
        let group = settle_from(&script, 0);
        proof {
            lemma_initial_wf::<O>(plans_of(script@));
        }
        Execution { script, group, step: 0, outputs: Outputs::new(), failure: None }
    }

    /// What the driver does next.
    pub fn next(&self) -> (action: Action)
        requires
            self@.wf(),
        ensures
            action == self@.next(),
    {
        if self.failure.is_some() || self.group >= self.script.len() {
            Action::Done
        } else if self.script[self.group].parallel {
            Action::RunAll { group: self.group }
        } else {
            Action::Run { group: self.group, step: self.step }
        }
    }

    /// Reports that the step that [`Execution::next`] said to run has ended
    /// with `out`.
    pub fn finished(&mut self, out: O)
        requires
            old(self)@.wf(),
            old(self)@.next() is Run,
        ensures
            final(self)@ == old(self)@.after_step(out),
            final(self)@.wf(),
    {
        proof {
            lemma_after_step_wf(self@, out);
            assert(self@.script[self.group as int] == self.script@[self.group as int]@);
            assert(self.group < self.script@.len());
            assert(self.step < self.script@[self.group as int].names@.len());
        }
        let tolerant = self.script[self.group].parallel || self.script[self.group].tolerate_failure;
        let name = self.script[self.group].names[self.step].clone();
        if tolerant || out.success() {
            let groups = self.script.len();
            let steps = self.script[self.group].names.len();
            self.outputs.record(name, out);
            if self.step + 1 < steps {
                self.step = self.step + 1;
            } else {
                assert(self.group < groups);
                self.group = settle_from(&self.script, self.group + 1);
                self.step = 0;
            }
        } else {
            self.failure = match out.error() {
                Some(cause) => Some(Error::Step(name, cause)),
                None => Some(Error::UnknownStep(name)),
            };
        }
    }

    /// Reports that all the steps of the group that [`Execution::next`] said
    /// to launch have ended, `outs` holding their outcomes in declared order.
    pub fn finished_all(&mut self, outs: Vec<O>)
        requires
            old(self)@.wf(),
            old(self)@.next() is RunAll,
            outs@.len() == old(self)@.script[old(self)@.group as int].names.len(),
        ensures
            final(self)@ == old(self)@.after_all(outs@),
            final(self)@.wf(),
    {
        proof {
            lemma_after_all_wf(self@, outs@);
            assert(self@.script[self.group as int] == self.script@[self.group as int]@);
        }
        let ghost names = self@.script[self@.group as int].names;
        let groups = self.script.len();
        let mut rest = reversed(outs);
        let mut i: usize = 0;
        while i < self.script[self.group].names.len()
            invariant
                self.script == old(self).script,
                self.group == old(self).group,
                self.step == old(self).step,
                self.failure == old(self).failure,
                self.group < self.script@.len(),
                names == plans_of(self.script@)[self.group as int].names,
                names.len() == outs@.len(),
                i <= names.len(),
                rest@ == outs@.reverse().take(names.len() - i),
                self.outputs.log() == old(self).outputs.log() + paired(names, outs@).take(
                    i as int,
                ),
            decreases names.len() - i,
        {
            let name = self.script[self.group].names[i].clone();
            let out = rest.pop().unwrap();
            proof {
                assert(out == outs@[i as int]);
                assert(name@ == names[i as int]);
                assert(rest@ =~= outs@.reverse().take(names.len() - (i + 1)));
                assert(paired(names, outs@).take(i + 1) =~= paired(names, outs@).take(
                    i as int,
                ).push((name@, out)));
            }
            self.outputs.record(name, out);
            i += 1;
        }
        proof {
            assert(paired(names, outs@).take(i as int) =~= paired(names, outs@));
        }
        assert(self.group < groups);
        self.group = settle_from(&self.script, self.group + 1);
        self.step = 0;
    }

    /// The outcomes recorded so far.
    pub fn outputs(&self) -> (outputs: &Outputs<O>)
        ensures
            outputs.log() == self@.log,
    {
        &self.outputs
    }

    /// Ends the execution: the error that stopped it, or the recorded
    /// outcomes.
    pub fn into_result(self) -> (result: Result<Outputs<O>, Error<O::Cause>>)
        ensures
            match result {
                Ok(outputs) => self@.failure is None && outputs.log() == self@.log,
                Err(e) => self@.failure == Some(e@),
            },
            match result {
                Ok(outputs) => self@.result() == Ok::<_, ErrorView<O::Cause>>(outputs@),
                Err(e) => self@.result() == Err::<Map<Seq<char>, O>, _>(e@),
            },
    {
        match self.failure {
            Some(e) => Err(e),
            None => Ok(self.outputs),
        }
    }
}

/// The elements of `v`, last first.
fn reversed<T>(v: Vec<T>) -> (r: Vec<T>)
    ensures
        r@ == v@.reverse(),
{
    let mut v = v;
    let ghost whole = v@;
    let mut r: Vec<T> = Vec::new();
    while v.len() > 0
        invariant
            v@.len() <= whole.len(),
            v@ == whole.take(v@.len() as int),
            r@ == whole.reverse().take(whole.len() - v@.len()),
        decreases v@.len(),
    {
        let ghost n = v@.len() as int;
        let x = v.pop().unwrap();
        r.push(x);
        proof {
            assert(x == whole[n - 1]);
            assert(v@ =~= whole.take(n - 1));
            assert(whole.reverse()[whole.len() - n] == whole[n - 1]);
            assert(r@ =~= whole.reverse().take(whole.len() - n + 1));
        }
    }
    assert(r@ =~= whole.reverse());
    r
}

/// A callback of an execution: the group that holds it, and its place among
/// that group's callbacks.
#[derive(Clone, Copy, Debug, PartialEq, Eq)]
pub struct Hook {
    pub group: usize,
    pub index: usize,
}

/// One thing to do for a step, in its turn.
#[derive(Clone, Copy, Debug, PartialEq, Eq)]
pub enum StepAction {
    /// Call this before-step callback on the step.
    Before(Hook),
    /// Drive the step's deferred computation to completion.
    Drive,
    /// Call this after-step callback on the step's name and outcome.
    After(Hook),
}

/// The callbacks of the wanted kind among `kinds`, the list of the group at
/// `group`, in the order of their registration.
pub open spec fn picked(kinds: Seq<bool>, group: usize, before: bool) -> Seq<Hook>
    decreases kinds.len(),
{
    if kinds.len() == 0 {
        Seq::empty()
    } else {
        let rest = picked(kinds.drop_last(), group, before);
        if kinds.last() == before {
            rest.push(Hook { group, index: (kinds.len() - 1) as usize })
        } else {
            rest
        }
    }
}

/// The callbacks of the wanted kind that apply to the steps of the group at
/// `group`: its own, then those of the first group, which apply to every
/// group.
pub open spec fn applying(kinds: Seq<Seq<bool>>, group: usize, before: bool) -> Seq<Hook> {
    if group == 0 {
        picked(kinds[0], 0, before)
    } else {
        picked(kinds[group as int], group, before) + picked(kinds[0], 0, before)
    }
}

/// What is done for each step of the group at `group`, in order: the
/// before-step callbacks that apply, the step itself, the after-step
/// callbacks that apply.
pub open spec fn bracket_of(kinds: Seq<Seq<bool>>, group: usize) -> Seq<StepAction> {
    applying(kinds, group, true).map_values(|h: Hook| StepAction::Before(h)).push(
        StepAction::Drive,
    ) + applying(kinds, group, false).map_values(|h: Hook| StepAction::After(h))
}

/// Each callback of the wanted kind is picked exactly once, and the picked
/// ones stand in the order of their registration.
pub proof fn lemma_picked(kinds: Seq<bool>, group: usize, before: bool)
    requires
        kinds.len() <= usize::MAX,
    ensures
        picked(kinds, group, before).len() <= kinds.len(),
        forall|k: int|
            0 <= k < picked(kinds, group, before).len() ==> {
                let hook = #[trigger] picked(kinds, group, before)[k];
                hook.group == group && hook.index < kinds.len() && kinds[hook.index as int]
                    == before
            },
        forall|j: int, k: int|
            0 <= j < k < picked(kinds, group, before).len() ==> (#[trigger] picked(
                kinds,
                group,
                before,
            )[j]).index < (#[trigger] picked(kinds, group, before)[k]).index,
        forall|i: int|
            0 <= i < kinds.len() && #[trigger] kinds[i] == before ==> exists|k: int|
                0 <= k < picked(kinds, group, before).len() && (#[trigger] picked(
                    kinds,
                    group,
                    before,
                )[k]).index == i,
    decreases kinds.len(),
{
    if kinds.len() > 0 {
        let front = kinds.drop_last();
        let rest = picked(front, group, before);
        let all = picked(kinds, group, before);
        lemma_picked(front, group, before);
        assert forall|i: int| 0 <= i < kinds.len() && #[trigger] kinds[i] == before implies exists|
            k: int,
        |
            0 <= k < all.len() && (#[trigger] all[k]).index == i by {
            if i < front.len() {
                assert(front[i] == before);
                let k = choose|k: int| 0 <= k < rest.len() && (#[trigger] rest[k]).index == i;
                assert(all[k].index == i);
            } else {
                assert(all[all.len() - 1].index == i);
            }
        }
    }
}

/// What is done for a step brackets it: first every before-step callback
/// that applies, then the step, then every after-step callback that applies.
/// Of the callbacks that apply, a group's own come before those of the
/// first group, which the builder holds for all groups.
pub proof fn lemma_bracket(kinds: Seq<Seq<bool>>, group: usize)
    requires
        group < kinds.len(),
    ensures
        bracket_of(kinds, group).len() == applying(kinds, group, true).len() + 1 + applying(
            kinds,
            group,
            false,
        ).len(),
        forall|k: int|
            0 <= k < applying(kinds, group, true).len() ==> #[trigger] bracket_of(kinds, group)[k]
                == StepAction::Before(applying(kinds, group, true)[k]),
        bracket_of(kinds, group)[applying(kinds, group, true).len() as int] == StepAction::Drive,
        forall|k: int|
            0 <= k < applying(kinds, group, false).len() ==> #[trigger] bracket_of(
                kinds,
                group,
            )[applying(kinds, group, true).len() + 1 + k] == StepAction::After(
                applying(kinds, group, false)[k],
            ),
        group != 0 ==> forall|before: bool|
            #[trigger] applying(kinds, group, before) == picked(
                kinds[group as int],
                group,
                before,
            ) + picked(kinds[0], 0, before),
{
}

/// For each group of `groups`, the kinds of its callbacks.
pub open spec fn hook_kinds<F, B, A>(groups: Seq<Group<F, B, A>>) -> Seq<Seq<bool>> {
    groups.map_values(|g: Group<F, B, A>| crate::step::kinds_of(g@.callbacks))
}

/// Appends to `hooks` the callbacks of the wanted kind of the group at
/// `group`.
fn pick<F, B, A>(groups: &Vec<Group<F, B, A>>, group: usize, before: bool, hooks: &mut Vec<Hook>)
    requires
        group < groups@.len(),
    ensures
        final(hooks)@ == old(hooks)@ + picked(hook_kinds(groups@)[group as int], group, before),
{
    let callbacks = groups[group].callbacks();
    let ghost kinds = hook_kinds(groups@)[group as int];
    let mut i: usize = 0;
    assert(kinds.take(0) =~= Seq::empty());
    while i < callbacks.len()
        invariant
            i <= callbacks@.len(),
            kinds == crate::step::kinds_of(callbacks@),
            hooks@ == old(hooks)@ + picked(kinds.take(i as int), group, before),
        decreases callbacks@.len() - i,
    {
        proof {
            assert(kinds.take(i + 1).drop_last() =~= kinds.take(i as int));
            assert(kinds.take(i + 1).last() == (callbacks@[i as int] is BeforeStep));
        }
        if callbacks[i].is_before() == before {
            hooks.push(Hook { group, index: i });
        }
        proof {
            assert(hooks@ =~= old(hooks)@ + picked(kinds.take(i + 1), group, before));
        }
        i += 1;
    }
    assert(kinds.take(i as int) =~= kinds);
}

/// The callbacks of the wanted kind that apply to the steps of the group at
/// `group`.
fn apply<F, B, A>(groups: &Vec<Group<F, B, A>>, group: usize, before: bool) -> (hooks: Vec<Hook>)
    requires
        group < groups@.len(),
    ensures
        hooks@ == applying(hook_kinds(groups@), group, before),
{
    let mut hooks: Vec<Hook> = Vec::new();
    pick(groups, group, before, &mut hooks);
    if group != 0 {
        pick(groups, 0, before, &mut hooks);
    }
    hooks
}

/// What the driver does for each step of the group at `group`, in order.
/// `groups` are the groups of the execution, in the order in which they run.
pub fn bracket<F, B, A>(groups: &Vec<Group<F, B, A>>, group: usize) -> (plan: Vec<StepAction>)
    requires
        group < groups@.len(),
    ensures
        plan@ == bracket_of(hook_kinds(groups@), group),
{
    let before = apply(groups, group, true);
    let after = apply(groups, group, false);
    let mut plan: Vec<StepAction> = Vec::new();
    let mut i: usize = 0;
    while i < before.len()
        invariant
            i <= before@.len(),
            plan@ == before@.take(i as int).map_values(|h: Hook| StepAction::Before(h)),
        decreases before@.len() - i,
    {
        plan.push(StepAction::Before(before[i]));
        assert(plan@ =~= before@.take(i + 1).map_values(|h: Hook| StepAction::Before(h)));
        i += 1;
    }
    assert(before@.take(i as int) =~= before@);
    plan.push(StepAction::Drive);
    let ghost front = plan@;
    let mut j: usize = 0;
    while j < after.len()
        invariant
            j <= after@.len(),
            plan@ == front + after@.take(j as int).map_values(|h: Hook| StepAction::After(h)),
        decreases after@.len() - j,
    {
        plan.push(StepAction::After(after[j]));
        assert(plan@ =~= front + after@.take(j + 1).map_values(|h: Hook| StepAction::After(h)));
        j += 1;
    }
    assert(after@.take(j as int) =~= after@);
    plan
}

/// A started execution with the groups that it runs: the driver takes the
/// steps and callbacks from `groups`, and its orders from `execution`.
pub struct Run<F, B, A, O: IntoStepOutcome> {
    /// The groups, in the order in which they run.
    pub groups: Vec<Group<F, B, A>>,
    /// Which step runs next, and what came of those that ran.
    pub execution: Execution<O>,
}

/// The plans of `groups`, in its order.
pub open spec fn scripts_of<F, B, A>(groups: Seq<Group<F, B, A>>) -> Seq<GroupPlan> {
    groups.map_values(|g: Group<F, B, A>| plan_of(g@))
}

/// Starts an execution of `groups`, in its order. The first group is the one
/// whose callbacks apply to every group.
pub fn start<F, B, A, O: IntoStepOutcome>(groups: Vec<Group<F, B, A>>) -> (run: Run<F, B, A, O>)
    ensures
        run.groups == groups,
        run.execution@ == ExecutionView::<O>::initial(scripts_of(groups@)),
        run.execution@.wf(),
{
    let mut script: Vec<GroupScript> = Vec::new();
    let mut i: usize = 0;
    while i < groups.len()
        invariant
            i <= groups@.len(),
            plans_of(script@) == scripts_of(groups@).take(i as int),
        decreases groups@.len() - i,
    {
        let ghost before = script@;
        let one = GroupScript::of(&groups[i]);
        script.push(one);
        proof {
            assert(scripts_of(groups@)[i as int] == one@);
            assert(plans_of(script@) =~= plans_of(before).push(one@));
            assert(scripts_of(groups@).take(i + 1) =~= scripts_of(groups@).take(i as int).push(
                one@,
            ));
        }
        i += 1;
    }
    assert(scripts_of(groups@).take(i as int) =~= scripts_of(groups@));
    Run { groups, execution: Execution::new(script) }
}

impl<F, B, A> Group<F, B, A> {
    /// Starts an execution of this group alone.
    pub fn execute<O: IntoStepOutcome>(self) -> (run: Run<F, B, A, O>)
        ensures
            run.groups@ == seq![self],
            run.execution@ == ExecutionView::<O>::initial(seq![plan_of(self@)]),
            run.execution@.wf(),
    {
        let mut groups: Vec<Group<F, B, A>> = Vec::new();
        groups.push(self);
        assert(groups@ =~= seq![self]);
        assert(scripts_of(groups@) =~= seq![plan_of(self@)]);
        start(groups)
    }
}

} // verus!
