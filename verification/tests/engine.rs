use imperat::engine::bracket;
use imperat::engine::Hook;
use imperat::engine::StepAction;
use imperat::new_builder;
use imperat::outcome::NoCause;
use imperat::step::CallbackKind;
use imperat::Action;
use imperat::BuilderError;
use imperat::Dep;
use imperat::FromTypeMap;
use imperat::Group;
use imperat::GroupBuilder;
use imperat::ImperativeStepBuilder;
use imperat::IntoStepOutcome;
use imperat::Outputs;
use imperat::Run;
use imperat::Step;
use imperat::TypeMap;
use std::cell::Cell;
use std::cell::RefCell;
use std::rc::Rc;

type Task<O> = Box<dyn FnOnce() -> O>;
type Before<O> = Box<dyn Fn(&Step<Task<O>>)>;
type After<O> = Box<dyn Fn(&str, &O)>;
type Callbacks<O> = Vec<CallbackKind<Before<O>, After<O>>>;
type Builder<O> = ImperativeStepBuilder<Task<O>, Before<O>, After<O>>;
type Groups<O> = GroupBuilder<Task<O>, Before<O>, After<O>>;

fn task<O>(f: impl FnOnce() -> O + 'static) -> Task<O> {
    Box::new(f)
}

// Does for one step what its bracket says, in order.
fn run_step<O>(step: Step<Task<O>>, plan: &[StepAction], callbacks: &[Callbacks<O>]) -> O {
    let mut step = Some(step);
    let mut name = String::new();
    let mut out = None;
    for action in plan {
        match action {
            StepAction::Before(h) => match &callbacks[h.group][h.index] {
                CallbackKind::BeforeStep(cb) => cb(step.as_ref().unwrap()),
                CallbackKind::AfterStep(_) => panic!("an after-step callback before the step"),
            },
            StepAction::Drive => {
                let (n, fut) = step.take().unwrap().into_parts();
                name = n;
                out = Some(fut());
            }
            StepAction::After(h) => match &callbacks[h.group][h.index] {
                CallbackKind::AfterStep(cb) => cb(&name, out.as_ref().unwrap()),
                CallbackKind::BeforeStep(_) => panic!("a before-step callback after the step"),
            },
        }
    }
    out.unwrap()
}

// Runs a started execution to its end, as its driver.
fn drive<O: IntoStepOutcome>(
    run: Run<Task<O>, Before<O>, After<O>, O>,
) -> Result<Outputs<O>, BuilderError<O::Cause>> {
    let Run { groups, mut execution } = run;
    let mut plans = Vec::new();
    for g in 0..groups.len() {
        plans.push(bracket(&groups, g));
    }
    let mut steps: Vec<Vec<Option<Step<Task<O>>>>> = Vec::new();
    let mut callbacks: Vec<Callbacks<O>> = Vec::new();
    for group in groups {
        let (s, c) = group.into_parts();
        steps.push(s.into_iter().map(Some).collect());
        callbacks.push(c);
    }
    loop {
        match execution.next() {
            Action::Run { group, step } => {
                let s = steps[group][step].take().unwrap();
                let out = run_step(s, &plans[group], &callbacks);
                execution.finished(out);
            }
            Action::RunAll { group } => {
                let mut outs = Vec::new();
                for slot in steps[group].iter_mut() {
                    outs.push(run_step(slot.take().unwrap(), &plans[group], &callbacks));
                }
                execution.finished_all(outs);
            }
            Action::Done => break,
        }
    }
    execution.into_result()
}

struct Database;

#[derive(Clone)]
struct DeriveDataSource;

impl FromTypeMap for DeriveDataSource {
    fn retrieve_from_map(tm: &TypeMap) -> Option<Self> {
        imperat::dependencies::retrieve_cloned::<Self>(tm)
    }
}

// ordered exec should run steps in order
#[test]
fn integration_tests_test_ordered_exec() {
    fn example_step() -> Task<usize> {
        task(|| {
            println!("step");
            1
        })
    }

    fn example_step_dep(_db: Dep<Database>) -> Task<usize> {
        task(|| {
            println!("step dep");
            2
        })
    }

    let b: Builder<usize> = new_builder();
    let run = b
        .add_dep(Dep::new(Database))
        .add_step("example step", example_step)
        .add_step("example step with a dep", example_step_dep)
        .execute::<usize>()
        .unwrap();
    let res = drive(run).unwrap();

    let entries = res.into_entries();
    let mut vs: Vec<_> = entries.iter().map(|e| &e.1).collect();
    vs.sort();
    assert_eq!(vec![&1, &2], vs);
    assert_eq!(entries[0].0, "example step");
    assert_eq!(entries[1].0, "example step with a dep");
}

// the results come back in declared order
#[test]
fn lib_test_ordered_exec() {
    let b: Builder<usize> = new_builder();
    let run = b
        .add_dep(Dep::new(Database))
        .add_step("example step", || task(|| 1))
        .add_step("example step with a dep", |_db: Dep<Database>| task(|| 2))
        .execute::<usize>()
        .unwrap();
    let res = drive(run).unwrap();
    let values: Vec<usize> = res.into_entries().into_iter().map(|e| e.1).collect();
    assert_eq!(vec![1, 2], values);
}

// a dependency that resolves as a copy of itself should resolve fine
#[test]
fn integration_tests_test_derive_dependency() {
    let b: Builder<usize> = new_builder();
    let b = b.add_dep(DeriveDataSource).add_step("step 1", |_: DeriveDataSource| {
        task(|| {
            println!("foo");
            1
        })
    });

    let res = drive(b.execute::<usize>().unwrap()).unwrap();

    let entries = res.into_entries();
    let mut vs: Vec<_> = entries.iter().map(|e| &e.1).collect();
    vs.sort();
    assert_eq!(vec![&1], vs);
}

// missing deps should error out.
#[test]
fn integration_tests_test_missing_deps() {
    let ran = Rc::new(Cell::new(0usize));
    let seen = ran.clone();
    let b: Builder<usize> = new_builder();
    let e = b
        .add_step("example step", move |_db: Dep<Database>| {
            let seen = seen.clone();
            task(move || {
                seen.set(seen.get() + 1);
                0
            })
        })
        .execute::<usize>()
        .err()
        .expect("should have failed");
    assert!(matches!(e, BuilderError::DepResolution(_)), "{e:?}");
    match e {
        BuilderError::DepResolution(name) => assert_eq!(name, "example step"),
        other => panic!("unexpected error: {other:?}"),
    }
    assert_eq!(ran.get(), 0);
}

#[derive(Debug, PartialEq, Eq)]
enum Error {
    TestOne,
}

impl IntoStepOutcome for Error {
    type Cause = Error;

    fn error(self) -> Option<Error> {
        Some(self)
    }

    fn success(&self) -> bool {
        false
    }
}

// a step with an error should yield an error on execute
#[test]
fn integration_tests_fail_step_yields_error() {
    fn fail_step() -> Task<Result<(), Error>> {
        task(|| Err(Error::TestOne))
    }

    let name = "fatal step".to_string();
    let b: Builder<Result<(), Error>> = new_builder();
    let run = b.add_step(&name, fail_step).execute::<Result<(), Error>>().unwrap();
    let e = drive(run).err().expect("should have failed");

    match e {
        BuilderError::Step(msg, e) => {
            assert!(e == Error::TestOne, "error msg: {msg:?}");
            assert_eq!(msg, "fatal step");
        }
        other => panic!("unexpected error: {other:?}"),
    }
}

// a step with an error should not execute other steps
#[test]
fn integration_tests_fail_step_stops_execution() {
    let cnt = Rc::new(Cell::new(0usize));
    let counting = |cnt: &Rc<Cell<usize>>| {
        let cnt = cnt.clone();
        move || {
            let cnt = cnt.clone();
            task(move || {
                cnt.set(cnt.get() + 1);
                Ok(())
            })
        }
    };
    let b: Builder<Result<(), Error>> = new_builder();
    let run = b
        .add_step("one", counting(&cnt))
        .add_step("two", || task(|| Err(Error::TestOne)))
        .add_step("three", counting(&cnt))
        .add_step("four", counting(&cnt))
        .execute::<Result<(), Error>>()
        .unwrap();
    drive(run).err().expect("should have failed");

    assert_eq!(cnt.get(), 1);
}

// A parallel group hands all its steps out at once and keeps declared order.
#[test]
fn test_parallel_steps_run_in_parallel() {
    let b: Builder<()> = new_builder();
    let b = b.new_group(|mut gb: Groups<()>| {
        for i in 0..50 {
            gb = gb.add_step(&format!("step #{i}"), || task(|| ()));
        }
        gb.parallel()
    });

    let run = b.execute::<()>().unwrap();
    assert_eq!(run.execution.next(), Action::RunAll { group: 1 });
    assert!(run.groups[1].is_parallel());
    assert!(run.groups[1].tolerates_failure());
    let res = drive(run).unwrap();
    assert_eq!(res.recorded(), 50);
    let entries = res.into_entries();
    for (i, (name, _)) in entries.iter().enumerate() {
        assert_eq!(name, &format!("step #{i}"));
    }
}

// A group that tolerates failure should ignore an individual failure.
#[test]
fn test_tolerate_failure() {
    let b: Builder<bool> = new_builder();
    let run = b
        .new_group(|mut gb: Groups<bool>| {
            for i in 0..50 {
                if i % 2 == 0 {
                    gb = gb.add_step(&format!("{i}"), || task(|| true));
                } else {
                    gb = gb.add_step(
                        &format!("{i}"),
                        || task(|| false), // IntoStepOutcome treats false as failure
                    );
                }
            }
            gb.tolerate_failure()
        })
        .execute::<bool>()
        .unwrap();
    let res = drive(run).unwrap();

    assert_eq!(res.recorded(), 50);
    let mut trues = 0;
    let mut falses = 0;
    for (i, (name, r)) in res.into_entries().into_iter().enumerate() {
        assert_eq!(name, format!("{i}"));
        let name = name.parse::<i32>().unwrap();
        if name % 2 == 0 {
            assert!(r, "{i} was not true");
            trues += 1;
        } else {
            assert!(!r, "{i} was not false");
            falses += 1;
        }
    }
    assert_eq!(trues, 25);
    assert_eq!(falses, 25);
}

// Callbacks should run before and after steps as configured.
#[test]
fn test_callbacks_run() {
    let before_cnt = Rc::new(Cell::new(0usize));
    let after_cnt = Rc::new(Cell::new(0usize));
    let (bc, ac) = (before_cnt.clone(), after_cnt.clone());

    let b: Builder<()> = new_builder();
    let run = b
        .new_group(move |mut gb: Groups<()>| {
            for i in 0..10 {
                gb = gb.add_step(&format!("step #{i}"), || {
                    task(|| {
                        println!("step running");
                    })
                });
            }
            let (bc, ac) = (bc.clone(), ac.clone());
            gb.before_step(Box::new(move |s| {
                println!("{}: before step", s.name());
                bc.set(bc.get() + 1);
            }))
            .after_step(Box::new(move |name, res| {
                println!("{}: after step w/ res {res:?}", name);
                ac.set(ac.get() + 1);
            }))
        })
        .execute::<()>()
        .unwrap();
    drive(run).unwrap();

    assert_eq!(before_cnt.get(), 10);
    assert_eq!(after_cnt.get(), 10);
}

// Callbacks registered on the top-level builder should apply to
// groups and top-level steps.
#[test]
fn test_callbacks_propagate_and_run() {
    let cnt = Rc::new(Cell::new(0usize));
    let (c1, c2) = (cnt.clone(), cnt.clone());

    let b: Builder<()> = new_builder();
    let mut b = b
        .before_step(Box::new(move |s| {
            println!("before step {}", s.name());
            c1.set(c1.get() + 1);
        }))
        .after_step(Box::new(move |n, _| {
            println!("after step: {n}");
            c2.set(c2.get() + 1);
        }));

    for gi in 0..5 {
        b = b.new_group(|mut gb: Groups<()>| {
            for i in 0..10 {
                gb = gb.add_step(&format!("step #{gi}:#{i}"), || {
                    task(|| {
                        println!("step running");
                    })
                });
            }
            gb
        });
    }
    for i in 0..10 {
        b = b.add_step(&format!("step ::#{i}"), || {
            task(|| {
                println!("step running");
            })
        });
    }

    drive(b.execute::<()>().unwrap()).unwrap();
    assert_eq!(cnt.get(), (5 * 10 + 10) * 2);
}

// Each callback fires once per step, around it, a group's own callbacks
// before those of the builder.
#[test]
fn callbacks_bracket_each_step_in_registration_order() {
    let trace: Rc<RefCell<Vec<String>>> = Rc::new(RefCell::new(Vec::new()));
    let note = |trace: &Rc<RefCell<Vec<String>>>, what: &'static str| -> Before<u8> {
        let trace = trace.clone();
        Box::new(move |s| trace.borrow_mut().push(format!("{what} {}", s.name())))
    };
    let note_after = |trace: &Rc<RefCell<Vec<String>>>, what: &'static str| -> After<u8> {
        let trace = trace.clone();
        Box::new(move |n, r| trace.borrow_mut().push(format!("{what} {n}={r}")))
    };
    let running = |trace: &Rc<RefCell<Vec<String>>>, v: u8| {
        let trace = trace.clone();
        move || {
            let trace = trace.clone();
            task(move || {
                trace.borrow_mut().push(format!("run {v}"));
                v
            })
        }
    };

    let b: Builder<u8> = new_builder();
    let t = trace.clone();
    let b = b
        .after_step(note_after(&trace, "top-after"))
        .before_step(note(&trace, "top-before"))
        .add_step("a", running(&trace, 1))
        .new_group(move |gb: Groups<u8>| {
            gb.after_step(note_after(&t, "own-after"))
                .add_step("b", running(&t, 2))
                .before_step(note(&t, "own-before-1"))
                .before_step(note(&t, "own-before-2"))
        });
    let run = b.execute::<u8>().unwrap();
    assert_eq!(
        bracket(&run.groups, 0),
        vec![
            StepAction::Before(Hook { group: 0, index: 1 }),
            StepAction::Drive,
            StepAction::After(Hook { group: 0, index: 0 }),
        ]
    );
    assert_eq!(
        bracket(&run.groups, 1),
        vec![
            StepAction::Before(Hook { group: 1, index: 1 }),
            StepAction::Before(Hook { group: 1, index: 2 }),
            StepAction::Before(Hook { group: 0, index: 1 }),
            StepAction::Drive,
            StepAction::After(Hook { group: 1, index: 0 }),
            StepAction::After(Hook { group: 0, index: 0 }),
        ]
    );
    drive(run).unwrap();
    assert_eq!(
        *trace.borrow(),
        vec![
            "top-before a",
            "run 1",
            "top-after a=1",
            "own-before-1 b",
            "own-before-2 b",
            "top-before b",
            "run 2",
            "own-after b=2",
            "top-after b=2",
        ]
    );
}

// With duplicate names the step that ran last stands.
#[test]
fn duplicate_names_keep_the_outcome_that_ran_last() {
    let b: Builder<u32> = new_builder();
    let run = b
        .add_step("shared", || task(|| 1))
        .new_group(|gb: Groups<u32>| gb.add_step("shared", || task(|| 2)).add_step("own", || task(|| 3)))
        .new_group(|gb: Groups<u32>| gb.add_step("shared", || task(|| 4)))
        .add_step("late", || task(|| 5))
        .execute::<u32>()
        .unwrap();
    let res = drive(run).unwrap();
    assert_eq!(res.get("shared"), Some(&4));
    assert_eq!(res.get("own"), Some(&3));
    assert_eq!(res.get("late"), Some(&5));
    assert_eq!(res.get("absent"), None);
    assert!(res.contains("own"));
    assert!(!res.contains("absent"));
    assert_eq!(res.recorded(), 5);
    let order: Vec<String> = res.into_entries().into_iter().map(|e| e.0).collect();
    assert_eq!(order, vec!["shared", "late", "shared", "own", "shared"]);
}

// A failure without a cause is told apart from one with a cause.
#[test]
fn a_failure_without_cause_yields_unknown_step() {
    let ran = Rc::new(Cell::new(0usize));
    let seen = ran.clone();
    let b: Builder<bool> = new_builder();
    let run = b
        .add_step("fine", || task(|| true))
        .add_step("silent", || task(|| false))
        .new_group(move |gb: Groups<bool>| {
            let seen = seen.clone();
            gb.add_step("never", move || {
                let seen = seen.clone();
                task(move || {
                    seen.set(seen.get() + 1);
                    true
                })
            })
        })
        .execute::<bool>()
        .unwrap();
    let e: BuilderError<NoCause> = drive(run).err().expect("should have failed");
    match e {
        BuilderError::UnknownStep(name) => assert_eq!(name, "silent"),
        other => panic!("unexpected error: {other:?}"),
    }
    assert_eq!(ran.get(), 0);
}

// Of the errors of a build the first one comes back, and nothing starts.
#[test]
fn the_first_build_error_is_returned() {
    let b: Builder<usize> = new_builder();
    let res = b
        .add_dep(7u32)
        .add_dep(8u32)
        .add_step("needs a database", |_db: Dep<Database>| task(|| 0))
        .execute::<usize>();
    match res {
        Err(BuilderError::AddDep(id)) => assert_eq!(id, std::any::TypeId::of::<u32>()),
        Err(other) => panic!("unexpected error: {other:?}"),
        Ok(_) => panic!("should have failed"),
    }

    let b: Builder<usize> = new_builder();
    let res = b
        .new_group(|gb: Groups<usize>| gb.add_step("in a group", |_db: Dep<Database>| task(|| 0)))
        .add_dep(7u32)
        .add_dep(8u32)
        .execute::<usize>();
    match res {
        Err(BuilderError::DepResolution(name)) => assert_eq!(name, "in a group"),
        Err(other) => panic!("unexpected error: {other:?}"),
        Ok(_) => panic!("should have failed"),
    }
}

// A dependency that is added after a step is not there for that step.
#[test]
fn steps_resolve_against_the_dependencies_added_so_far() {
    let b: Builder<usize> = new_builder();
    let res = b
        .add_step("early", |_db: Dep<Database>| task(|| 0))
        .add_dep(Dep::new(Database))
        .add_step("late", |_db: Dep<Database>| task(|| 1))
        .execute::<usize>();
    assert!(matches!(res, Err(BuilderError::DepResolution(_))));
}

// The second value of a type does not replace the first.
#[test]
fn a_second_dependency_of_a_type_is_rejected() {
    let b: Builder<u32> = new_builder();
    let b = b.add_dep(Dep::new(10u32)).add_step("reads", |d: Dep<u32>| task(move || **d));
    let b = b.add_dep(Dep::new(20u32)).add_step("reads again", |d: Dep<u32>| task(move || **d));
    let res = b.execute::<u32>();
    match res {
        Err(BuilderError::AddDep(id)) => assert_eq!(id, std::any::TypeId::of::<Dep<u32>>()),
        Err(other) => panic!("unexpected error: {other:?}"),
        Ok(_) => panic!("should have failed"),
    }
}

// A group runs alone as it runs in a builder.
#[test]
fn a_group_runs_alone() {
    let mut group: Group<Task<bool>, Before<bool>, After<bool>> = Group::new();
    let tm = TypeMap::new();
    let mut errors = Vec::new();
    group.add_step(&tm, &mut errors, "yes", || task(|| true));
    group.add_resolved(&mut errors, "no", Some(task(|| false)));
    group.add_resolved(&mut errors, "dropped", None);
    group.add_step(&tm, &mut errors, "unresolved", |_d: Dep<Database>| task(|| true));
    group.add_step(&tm, &mut errors, "after", || task(|| true));
    assert_eq!(group.len(), 3);
    assert_eq!(group.step_name(0), "yes");
    assert_eq!(group.step_name(2), "after");
    assert_eq!(errors.len(), 2);
    assert!(matches!(&errors[0], imperat::BuildError::DepResolution(n) if n == "dropped"));
    assert!(matches!(&errors[1], imperat::BuildError::DepResolution(n) if n == "unresolved"));
    let run = group.execute::<bool>();
    assert_eq!(run.execution.next(), Action::Run { group: 0, step: 0 });
    let e = drive(run).err().expect("should have failed");
    assert!(matches!(e, BuilderError::UnknownStep(n) if n == "no"));
}

// The execution says what to do next from the outcomes alone.
#[test]
fn an_execution_follows_the_outcomes() {
    let b: Builder<bool> = new_builder();
    let run = b
        .new_group(|gb: Groups<bool>| gb)
        .new_group(|gb: Groups<bool>| {
            gb.add_step("p1", || task(|| true)).add_step("p2", || task(|| false)).parallel()
        })
        .new_group(|gb: Groups<bool>| gb.tolerate_failure().add_step("t1", || task(|| false)))
        .new_group(|gb: Groups<bool>| gb.add_step("s1", || task(|| true)).add_step("s2", || task(|| true)))
        .execute::<bool>()
        .unwrap();
    let mut execution = run.execution;
    // the default group and the first added group have no steps
    assert_eq!(execution.next(), Action::RunAll { group: 2 });
    execution.finished_all(vec![true, false]);
    assert_eq!(execution.next(), Action::Run { group: 3, step: 0 });
    execution.finished(false);
    assert_eq!(execution.next(), Action::Run { group: 4, step: 0 });
    execution.finished(true);
    assert_eq!(execution.next(), Action::Run { group: 4, step: 1 });
    assert_eq!(execution.outputs().recorded(), 4);
    execution.finished(false);
    assert_eq!(execution.next(), Action::Done);
    assert_eq!(execution.outputs().get("p2"), Some(&false));
    assert_eq!(execution.outputs().get("s2"), None);
    let e = execution.into_result().err().expect("should have failed");
    assert!(matches!(e, BuilderError::UnknownStep(n) if n == "s2"));
}

// Without steps there is nothing to do, and the result is empty.
#[test]
fn an_empty_builder_is_done_at_once() {
    let b: Builder<bool> = new_builder();
    let run = b.new_group(|gb: Groups<bool>| gb.parallel()).execute::<bool>().unwrap();
    assert_eq!(run.groups.len(), 2);
    assert_eq!(run.execution.next(), Action::Done);
    let res = run.execution.into_result().unwrap();
    assert_eq!(res.recorded(), 0);
}
