use crate::callable::Callable;
use crate::dependencies::FromTypeMap;
use crate::dependencies::Slot;
use crate::dependencies::TypeMap;
use crate::engine::start;
use crate::engine::scripts_of;
use crate::engine::ExecutionView;
use crate::engine::Run;
use crate::error::raised;
use crate::error::BuildError;
use crate::error::BuildErrorView;
use crate::error::Error;
use crate::outcome::IntoStepOutcome;
use crate::step::added_step;
use crate::step::errors_of;
use crate::step::CallbackKind;
use crate::step::Group;
use crate::step::GroupBuilder;
use crate::step::GroupView;
use std::any::TypeId;
use vstd::prelude::*;

verus! {

/// The primary entrypoint to building out an imperative runner. Initialize
/// with default and then chain calls to each other.
#[must_use]
pub fn new<F, B, A>() -> (builder: ImperativeStepBuilder<F, B, A>)
    ensures
        builder.wf(),
        builder.store()@ == Map::<TypeId, Slot>::empty(),
        builder.default_group() == Group::<F, B, A>::new_spec(),
        builder.groups() == Seq::<GroupView<F, B, A>>::empty(),
        builder.errors() == Seq::<BuildErrorView>::empty(),
{
    ImperativeStepBuilder::default()
}

/// A builder of a runner whose steps hold a deferred computation `F`, and
/// whose callbacks are `B` before a step and `A` after it. Create one by
/// calling `new`.
pub struct ImperativeStepBuilder<F, B, A> {
    tm: TypeMap,
    default: Group<F, B, A>,
    groups: Vec<Group<F, B, A>>,
    // errors accumulated at build time
    errors: Vec<BuildError>,
}

impl<F, B, A> Default for ImperativeStepBuilder<F, B, A> {
    fn default() -> (builder: Self)
        ensures
            builder.wf(),
            builder.store()@ == Map::<TypeId, Slot>::empty(),
            builder.default_group() == Group::<F, B, A>::new_spec(),
            builder.groups() == Seq::<GroupView<F, B, A>>::empty(),
            builder.errors() == Seq::<BuildErrorView>::empty(),
    {
        let builder = ImperativeStepBuilder {
            tm: TypeMap::new(),
            default: Group::new(),
            groups: Vec::new(),
            errors: Vec::new(),
        };
        assert(builder.groups() =~= Seq::<GroupView<F, B, A>>::empty());
        assert(builder.errors() =~= Seq::<BuildErrorView>::empty());
        builder
    }
}

impl<F, B, A> ImperativeStepBuilder<F, B, A> {
    /// The type map that holds the dependencies.
    pub closed spec fn store(&self) -> TypeMap {
        self.tm
    }

    /// The implicit group of the steps that were added to the builder itself.
    /// Its callbacks apply to every group.
    pub closed spec fn default_group(&self) -> GroupView<F, B, A> {
        self.default@
    }

    /// The groups that were added, in the order of their registration.
    pub closed spec fn groups(&self) -> Seq<GroupView<F, B, A>> {
        self.groups@.map_values(|g: Group<F, B, A>| g@)
    }

    /// The build-time errors recorded so far, oldest first.
    pub closed spec fn errors(&self) -> Seq<BuildErrorView> {
        errors_of(self.errors@)
    }

    /// The type map is well formed.
    pub open spec fn wf(&self) -> bool {
        self.store().wf()
    }

    /// The groups in the order in which they run: the default group, then
    /// the added groups in the order of their registration.
    pub open spec fn running_order(&self) -> Seq<GroupView<F, B, A>> {
        seq![self.default_group()] + self.groups()
    }

    /// Add a step with the provided name. To the default top-level group.
    /// See `Group::add_step`.
    #[must_use]
    pub fn add_step<C: Callable<Args, Out = F>, Args: FromTypeMap>(
        self,
        name: &str,
        func: C,
    ) -> (builder: Self)
        requires
            self.wf(),
            forall|args: Args|
                Args::resolves(&self.store(), Some(args)) ==> #[trigger] func.accepts(args),
        ensures
            builder.store() == self.store(),
            builder.groups() == self.groups(),
            added_step::<F, B, A, C, Args>(
                self.default_group(),
                self.errors(),
                &self.store(),
                name@,
                func,
                builder.default_group(),
                builder.errors(),
            ),
    {
        let mut builder = self;
        builder.default.add_step(&builder.tm, &mut builder.errors, name, func);
        builder
    }

    /// Add a dependency with a unique type. Added dependencies can then
    /// be referenced in step arguments by wrapping them in `Dep<T>`.
    ///
    /// All added dependencies must have a unique type or an error will occur.
    /// The type of a dependency is used to inject the dependency into steps.
    #[must_use]
    pub fn add_dep<T: 'static>(self, dep: T) -> (builder: Self)
        requires
            self.wf(),
        ensures
            builder.wf(),
            builder.default_group() == self.default_group(),
            builder.groups() == self.groups(),
            added_dep(self.store()@, self.errors(), builder.store()@, builder.errors()),
    {
        let mut builder = self;
        match builder.tm.bind_new(dep) {
            Ok(_) => {},
            Err(key) => {
                Group::<F, B, A>::add_error(&mut builder.errors, BuildError::AddDep(key));
            },
        }
        builder
    }

    /// Adds a group as `built` holds it, and takes the type map and the
    /// errors from there.
    fn with_group(
        default: Group<F, B, A>,
        groups: Vec<Group<F, B, A>>,
        built: GroupBuilder<F, B, A>,
    ) -> (builder: Self)
        ensures
            builder.store() == built.store(),
            builder.errors() == built.errors(),
            builder.default_group() == default@,
            builder.groups() == groups@.map_values(|g: Group<F, B, A>| g@).push(built.group()),
    {
        let ghost before = groups@;
        let mut groups = groups;
        let (group, tm, errors) = built.into_parts();
        groups.push(group);
        let builder = ImperativeStepBuilder { tm, default, groups, errors };
        assert(builder.groups() =~= before.map_values(|g: Group<F, B, A>| g@).push(
            built.group(),
        ));
        builder
    }

    /// Pass a closure to define a group. The closure operates on a `step::GroupBuilder`.
    /// Return the group builder when done and the group will be added.
    #[must_use]
    pub fn new_group<N: Fn(GroupBuilder<F, B, A>) -> GroupBuilder<F, B, A>>(
        self,
        new_fn: N,
    ) -> (builder: Self)
        requires
            forall|fresh: GroupBuilder<F, B, A>|
                self.opens(fresh) ==> #[trigger] call_requires(new_fn, (fresh,)),
        ensures
            exists|fresh: GroupBuilder<F, B, A>, built: GroupBuilder<F, B, A>|
                {
                    &&& self.opens(fresh)
                    &&& #[trigger] call_ensures(new_fn, (fresh,), built)
                    &&& builder.store() == built.store()
                    &&& builder.errors() == built.errors()
                    &&& builder.default_group() == self.default_group()
                    &&& builder.groups() == self.groups().push(built.group())
                },
    {
        let ImperativeStepBuilder { tm, default, groups, errors } = self;
        let fresh = GroupBuilder::new(tm, errors);
        assert(self.opens(fresh));
        let built = new_fn(fresh);
        Self::with_group(default, groups, built)
    }

    /// Whether `fresh` is the group builder that `new_group` hands to its
    /// closure: an empty group, with the type map and the errors of this
    /// builder.
    pub open spec fn opens(&self, fresh: GroupBuilder<F, B, A>) -> bool {
        &&& fresh.group() == Group::<F, B, A>::new_spec()
        &&& fresh.store() == self.store()
        &&& fresh.errors() == self.errors()
    }

    /// Adds a before step callback to top-level steps and all groups.
    /// Callbacks added by this method run after group-specific callbacks.
    #[must_use]
    pub fn before_step(self, cb: B) -> (builder: Self)
        ensures
            builder.store() == self.store(),
            builder.errors() == self.errors(),
            builder.groups() == self.groups(),
            builder.default_group() == self.default_group().with_callback(
                CallbackKind::BeforeStep(cb),
            ),
    {
        let mut builder = self;
        builder.default.add_callback(CallbackKind::BeforeStep(cb));
        builder
    }

    /// Adds an after step callback to top-level steps and all groups.
    /// Callbacks added by this method run after group-specific callbacks.
    #[must_use]
    pub fn after_step(self, cb: A) -> (builder: Self)
        ensures
            builder.store() == self.store(),
            builder.errors() == self.errors(),
            builder.groups() == self.groups(),
            builder.default_group() == self.default_group().with_callback(
                CallbackKind::AfterStep(cb),
            ),
    {
        let mut builder = self;
        builder.default.add_callback(CallbackKind::AfterStep(cb));
        builder
    }

    /// Execute this runner. If any error occurred during building, the first
    /// of them is returned and nothing is started. Else an execution of the
    /// default group and then of every added group, in the order of their
    /// registration, is started: its driver runs the steps as the execution
    /// says, and takes the results from it at the end.
    pub fn execute<O: IntoStepOutcome>(self) -> (started: Result<Run<F, B, A, O>, Error<O::Cause>>)
        ensures
            match started {
                Ok(run) => {
                    &&& self.errors().len() == 0
                    &&& run.groups@.map_values(|g: Group<F, B, A>| g@) == self.running_order()
                    &&& run.execution@ == ExecutionView::<O>::initial(scripts_of(run.groups@))
                    &&& run.execution@.wf()
                },
                Err(e) => self.errors().len() > 0 && e@ == raised::<O::Cause>(self.errors()[0]),
            },
    {
        let ImperativeStepBuilder { tm, default, groups, errors } = self;
        let mut errors = errors;
        if errors.len() > 0 {
            let first = errors.remove(0);
            return Err(Error::from_build(first));
        }
        let mut all: Vec<Group<F, B, A>> = Vec::new();
        all.push(default);
        let mut groups = groups;
        all.append(&mut groups);
        assert(all@.map_values(|g: Group<F, B, A>| g@) =~= self.running_order());
        Ok(start(all))
    }
}

/// What `add_dep` does to the bindings and to the recorded errors: either
/// the identity of the type was free, the value is bound to it and nothing
/// is recorded, or it was taken, the bindings are as before and the
/// rejection is recorded with that identity.
pub open spec fn added_dep(
    store: Map<TypeId, Slot>,
    errors: Seq<BuildErrorView>,
    store_after: Map<TypeId, Slot>,
    errors_after: Seq<BuildErrorView>,
) -> bool {
    ||| exists|key: TypeId, slot: Slot|
        {
            &&& !store.contains_key(key)
            &&& #[trigger] store.insert(key, slot) == store_after
            &&& errors_after == errors
        }
    ||| exists|key: TypeId|
        {
            &&& #[trigger] store.contains_key(key)
            &&& store_after == store
            &&& errors_after == errors.push(BuildErrorView::AddDep(key))
        }
}

} // verus!
