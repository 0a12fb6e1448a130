use crate::callable::Callable;
use crate::dependencies::FromTypeMap;
use crate::dependencies::TypeMap;
use crate::error::BuildError;
use crate::error::BuildErrorView;
use vstd::prelude::*;

verus! {

/// A resolved step which is ready to be ran: a name, and the deferred
/// computation `F` that a call with the resolved arguments handed back.
pub struct Step<F> {
    name: String,
    fut: F,
}

/// What a [`Step`] holds.
pub struct StepView<F> {
    pub name: Seq<char>,
    pub fut: F,
}

impl<F> View for Step<F> {
    type V = StepView<F>;

    closed spec fn view(&self) -> StepView<F> {
        StepView { name: self.name@, fut: self.fut }
    }
}

impl<F> Step<F> {
    /// Returns the name of this step.
    pub fn name(&self) -> (name: &str)
        ensures
            name@ == self@.name,
    {
        self.name.as_str()
    }

    /// Takes the step apart, for the one time that it is run.
    pub fn into_parts(self) -> (parts: (String, F))
        ensures
            parts.0@ == self@.name,
            parts.1 == self@.fut,
    {
        (self.name, self.fut)
    }
}

/// A variant of a callback on a group.
pub enum CallbackKind<B, A> {
    /// Called before the step executes on the step.
    BeforeStep(B),
    /// Called after the step executes. Is passed the step's
    /// name and result.
    AfterStep(A),
}

impl<B, A> CallbackKind<B, A> {
    /// Whether this callback runs before the step.
    pub fn is_before(&self) -> (before: bool)
        ensures
            before == (*self is BeforeStep),
    {
        match self {
            CallbackKind::BeforeStep(_) => true,
            CallbackKind::AfterStep(_) => false,
        }
    }
}

/// The names of the steps in `steps`, in their order.
pub open spec fn names_of<F>(steps: Seq<StepView<F>>) -> Seq<Seq<char>> {
    steps.map_values(|s: StepView<F>| s.name)
}

/// For each callback in `callbacks`, whether it runs before the step.
pub open spec fn kinds_of<B, A>(callbacks: Seq<CallbackKind<B, A>>) -> Seq<bool> {
    callbacks.map_values(|c: CallbackKind<B, A>| c is BeforeStep)
}

/// The build-time errors in `errors`, with their names as sequences.
pub open spec fn errors_of(errors: Seq<BuildError>) -> Seq<BuildErrorView> {
    errors.map_values(|e: BuildError| e@)
}

/// Options which apply to a group and its steps.
pub struct GroupOptions<B, A> {
    parallel: bool,
    tolerate_failure: bool,
    callbacks: Vec<CallbackKind<B, A>>,
}

impl<B, A> Default for GroupOptions<B, A> {
    fn default() -> (opts: Self)
        ensures
            !opts.is_parallel(),
            !opts.tolerates(),
            opts.hooks() == Seq::<CallbackKind<B, A>>::empty(),
    {
        Self { parallel: false, tolerate_failure: false, callbacks: Vec::new() }
    }
}

impl<B, A> GroupOptions<B, A> {
    /// Whether the steps run concurrently.
    pub closed spec fn is_parallel(&self) -> bool {
        self.parallel
    }

    /// Whether a failing step leaves the others to run.
    pub closed spec fn tolerates(&self) -> bool {
        self.tolerate_failure
    }

    /// The callbacks, in the order of their registration.
    pub closed spec fn hooks(&self) -> Seq<CallbackKind<B, A>> {
        self.callbacks@
    }
}

/// A logical group of steps. Every builder contains an implicit starting group
/// of steps. Subgroups allow specific steps to have some behavior.
pub struct Group<F, B, A> {
    steps: Vec<Step<F>>,
    opts: GroupOptions<B, A>,
}

/// What a [`Group`] holds.
pub struct GroupView<F, B, A> {
    pub steps: Seq<StepView<F>>,
    pub parallel: bool,
    pub tolerate_failure: bool,
    pub callbacks: Seq<CallbackKind<B, A>>,
}

impl<F, B, A> GroupView<F, B, A> {
    /// This group with one more step at its end.
    pub open spec fn with_step(self, name: Seq<char>, fut: F) -> Self {
        GroupView { steps: self.steps.push(StepView { name, fut }), ..self }
    }

    /// This group with one more callback at its end.
    pub open spec fn with_callback(self, cb: CallbackKind<B, A>) -> Self {
        GroupView { callbacks: self.callbacks.push(cb), ..self }
    }

    /// The names of the steps, in their order.
    pub open spec fn names(self) -> Seq<Seq<char>> {
        names_of(self.steps)
    }
}

impl<F, B, A> View for Group<F, B, A> {
    type V = GroupView<F, B, A>;

    closed spec fn view(&self) -> GroupView<F, B, A> {
        GroupView {
            steps: self.steps@.map_values(|s: Step<F>| s@),
            parallel: self.opts.parallel,
            tolerate_failure: self.opts.tolerate_failure,
            callbacks: self.opts.callbacks@,
        }
    }
}

impl<F, B, A> Group<F, B, A> {
    /// What a new group holds: no steps and no callbacks, its steps run one
    /// after the other and it stops at the first failure.
    pub open spec fn new_spec() -> GroupView<F, B, A> {
        GroupView {
            steps: Seq::empty(),
            parallel: false,
            tolerate_failure: false,
            callbacks: Seq::empty(),
        }
    }

    /// A group without steps or callbacks, whose steps run one after the
    /// other and which stops at the first failure.
    pub fn new() -> (group: Self)
        ensures
            group@ == Self::new_spec(),
    {
        let group = Self { steps: Vec::new(), opts: GroupOptions::default() };
        assert(group@.steps =~= Seq::empty());
        group
    }

    /// Records a build-time error.
    pub fn add_error(errors: &mut Vec<BuildError>, e: BuildError)
        ensures
            errors_of(final(errors)@) == errors_of(old(errors)@).push(e@),
    {
        errors.push(e);
        assert(errors_of(errors@) =~= errors_of(old(errors)@).push(e@));
    }

    /// Registers a step under `name` whose arguments were looked up
    /// already: with `Some` of its deferred computation the step is added,
    /// with `None` the failed resolution is recorded and no step is added.
    pub fn add_resolved(&mut self, errors: &mut Vec<BuildError>, name: &str, resolved: Option<F>)
        ensures
            match resolved {
                Some(fut) => {
                    &&& final(self)@ == old(self)@.with_step(name@, fut)
                    &&& errors_of(final(errors)@) == errors_of(old(errors)@)
                },
                None => {
                    &&& final(self)@ == old(self)@
                    &&& errors_of(final(errors)@) == errors_of(old(errors)@).push(
                        BuildErrorView::DepResolution(name@),
                    )
                },
            },
    {
        match resolved {
            Some(fut) => {
                self.steps.push(Step { name: name.to_owned(), fut });
                assert(self@.steps =~= old(self)@.steps.push(StepView { name: name@, fut }));
            },
            None => {
                Self::add_error(errors, BuildError::DepResolution(name.to_owned()));
            },
        }
    }

    /// Adds a step to this group. Its arguments are resolved against `tm`
    /// as it stands now: where they resolve, `func` is called with them and
    /// the step holds what it handed back; where they do not, the step is
    /// left out and the failure is recorded in `errors`.
    pub fn add_step<C: Callable<Args, Out = F>, Args: FromTypeMap>(
        &mut self,
        tm: &TypeMap,
        errors: &mut Vec<BuildError>,
        name: &str,
        func: C,
    )
        requires
            tm.wf(),
            forall|args: Args| Args::resolves(tm, Some(args)) ==> #[trigger] func.accepts(args),
        ensures
            added_step::<F, B, A, C, Args>(
                old(self)@,
                errors_of(old(errors)@),
                tm,
                name@,
                func,
                final(self)@,
                errors_of(final(errors)@),
            ),
    {
        match Args::retrieve_from_map(tm) {
            Some(args) => {
                let fut = func.call(args);
                self.add_resolved(errors, name, Some(fut));
                assert(Args::resolves(tm, Some(args)) && func.yields(args, fut));
            },
            None => {
                self.add_resolved(errors, name, None);
            },
        }
    }

    /// Internal API to add a callback to this group.
    pub fn add_callback(&mut self, cb: CallbackKind<B, A>)
        ensures
            final(self)@ == old(self)@.with_callback(cb),
    {
        self.opts.callbacks.push(cb);
    }

    /// Internal API to read callbacks from this group.
    pub fn callbacks(&self) -> (callbacks: &Vec<CallbackKind<B, A>>)
        ensures
            callbacks@ == self@.callbacks,
    {
        &self.opts.callbacks
    }

    /// Whether the steps of this group run concurrently.
    pub fn is_parallel(&self) -> (parallel: bool)
        ensures
            parallel == self@.parallel,
    {
        self.opts.parallel
    }

    /// Whether a failing step leaves the others of this group to run.
    pub fn tolerates_failure(&self) -> (tolerant: bool)
        ensures
            tolerant == self@.tolerate_failure,
    {
        self.opts.tolerate_failure
    }

    /// How many steps this group has.
    pub fn len(&self) -> (n: usize)
        ensures
            n == self@.steps.len(),
    {
        self.steps.len()
    }

    /// The name of the step at `index`.
    pub fn step_name(&self, index: usize) -> (name: &str)
        requires
            index < self@.steps.len(),
        ensures
            name@ == self@.steps[index as int].name,
    {
        self.steps[index].name()
    }

    /// Takes the group apart into its steps and its callbacks, for the one
    /// time that it is run.
    pub fn into_parts(self) -> (parts: (Vec<Step<F>>, Vec<CallbackKind<B, A>>))
        ensures
            parts.0@.map_values(|s: Step<F>| s@) == self@.steps,
            parts.1@ == self@.callbacks,
    {
        (self.steps, self.opts.callbacks)
    }
}

/// What `add_step` does to a group and to the recorded errors: either the
/// arguments did not resolve, the group is as before and the failure is
/// recorded under the step's name, or they resolved and the group has one
/// more step, holding what the call with them handed back.
pub open spec fn added_step<F, B, A, C: Callable<Args, Out = F>, Args: FromTypeMap>(
    group: GroupView<F, B, A>,
    errors: Seq<BuildErrorView>,
    tm: &TypeMap,
    name: Seq<char>,
    func: C,
    group_after: GroupView<F, B, A>,
    errors_after: Seq<BuildErrorView>,
) -> bool {
    ||| {
        &&& Args::resolves(tm, None)
        &&& group_after == group
        &&& errors_after == errors.push(BuildErrorView::DepResolution(name))
    }
    ||| exists|args: Args, fut: F|
        {
            &&& Args::resolves(tm, Some(args))
            &&& #[trigger] func.yields(args, fut)
            &&& group_after == group.with_step(name, fut)
            &&& errors_after == errors
        }
}

/// Allows incrementally building groups with specific options. While a
/// group is being built, its builder holds the type map against which the
/// steps are resolved and the build-time errors recorded so far.
pub struct GroupBuilder<F, B, A> {
    group: Group<F, B, A>,
    tm: TypeMap,
    errors: Vec<BuildError>,
}

impl<F, B, A> GroupBuilder<F, B, A> {
    /// The group as built so far.
    pub closed spec fn group(&self) -> GroupView<F, B, A> {
        self.group@
    }

    /// The type map against which steps are resolved.
    pub closed spec fn store(&self) -> TypeMap {
        self.tm
    }

    /// The build-time errors recorded so far, oldest first.
    pub closed spec fn errors(&self) -> Seq<BuildErrorView> {
        errors_of(self.errors@)
    }

    /// The type map is well formed.
    pub open spec fn wf(&self) -> bool {
        self.store().wf()
    }

    /// Starts an empty group that resolves against `tm` and records its
    /// failures after `errors`.
    pub fn new(tm: TypeMap, errors: Vec<BuildError>) -> (gb: Self)
        ensures
            gb.group() == Group::<F, B, A>::new_spec(),
            gb.store() == tm,
            gb.errors() == errors_of(errors@),
    {
        GroupBuilder { group: Group::new(), tm, errors }
    }

    /// Add a step with this name to the provided group.
    pub fn add_step<C: Callable<Args, Out = F>, Args: FromTypeMap>(
        self,
        name: &str,
        func: C,
    ) -> (gb: Self)
        requires
            self.wf(),
            forall|args: Args|
                Args::resolves(&self.store(), Some(args)) ==> #[trigger] func.accepts(args),
        ensures
            gb.store() == self.store(),
            added_step::<F, B, A, C, Args>(
                self.group(),
                self.errors(),
                &self.store(),
                name@,
                func,
                gb.group(),
                gb.errors(),
            ),
    {
        let mut gb = self;
        gb.group.add_step(&gb.tm, &mut gb.errors, name, func);
        gb
    }

    /// Run all the steps in this group in parallel. This implies
    /// [`GroupBuilder::tolerate_failure`].
    pub fn parallel(self) -> (gb: Self)
        ensures
            gb.store() == self.store(),
            gb.errors() == self.errors(),
            gb.group() == (GroupView { parallel: true, tolerate_failure: true, ..self.group() }),
    {
        let mut gb = self;
        gb.group.opts.parallel = true;
        gb.tolerate_failure()
    }

    /// Don't exit on the first failure.
    pub fn tolerate_failure(self) -> (gb: Self)
        ensures
            gb.store() == self.store(),
            gb.errors() == self.errors(),
            gb.group() == (GroupView { tolerate_failure: true, ..self.group() }),
    {
        let mut gb = self;
        gb.group.opts.tolerate_failure = true;
        gb
    }

    /// Pass a callback to run for this group before every step.
    pub fn before_step(self, cb: B) -> (gb: Self)
        ensures
            gb.store() == self.store(),
            gb.errors() == self.errors(),
            gb.group() == self.group().with_callback(CallbackKind::BeforeStep(cb)),
    {
        let mut gb = self;
        gb.group.add_callback(CallbackKind::BeforeStep(cb));
        gb
    }

    /// Pass a callback to run for this group after every step.
    pub fn after_step(self, cb: A) -> (gb: Self)
        ensures
            gb.store() == self.store(),
            gb.errors() == self.errors(),
            gb.group() == self.group().with_callback(CallbackKind::AfterStep(cb)),
    {
        let mut gb = self;
        gb.group.add_callback(CallbackKind::AfterStep(cb));
        gb
    }

    /// Hands back the finished group, the type map and the errors.
    pub fn into_parts(self) -> (parts: (Group<F, B, A>, TypeMap, Vec<BuildError>))
        ensures
            parts.0@ == self.group(),
            parts.1 == self.store(),
            errors_of(parts.2@) == self.errors(),
    {
        (self.group, self.tm, self.errors)
    }
}

} // verus!
