use imperat::dependencies::retrieve_cloned;
use imperat::Dep;
use imperat::FromTypeMap;
use imperat::TypeMap;

struct Database;

#[derive(Debug)]
struct Config(i32, u32);

// retrieval should get back what it puts in
#[test]
fn dependencies_test_retrieval() {
    let mut tm = TypeMap::new();

    tm.bind(Dep::new(Database));
    tm.bind(Dep::new(Config(2, 3)));

    tm.get::<Dep<Database>>().unwrap();
    let cfg = tm.get::<Dep<Config>>().unwrap();

    assert_eq!(cfg.0, 2);
    assert_eq!(cfg.1, 3);
}

// unset values should be absent
#[test]
fn test_missing() {
    let tm = TypeMap::new();
    assert!(tm.get::<Dep<i32>>().is_none());
}

#[test]
fn step_test_retrieval() {
    let mut tm = TypeMap::new();

    tm.bind(Dep::new(Database));
    tm.bind(Dep::new(Config(2, 3)));

    tm.get::<Dep<Database>>().unwrap();
    let cfg = tm.get::<Dep<Config>>().unwrap();

    assert_eq!(cfg.clone().inner().0, 2);
    assert_eq!(cfg.clone().inner().1, 3);
}

#[derive(Clone, Debug)]
struct Bare;

#[derive(Clone, Debug)]
struct FiveTuple(usize, i32, i8, f32, String);

#[derive(Clone, Debug, PartialEq, Eq)]
enum Either<L: Clone + PartialEq + Eq + 'static, R: Clone + PartialEq + Eq + 'static> {
    Left(L),
    Right(R),
}

impl FromTypeMap for Bare {
    fn retrieve_from_map(tm: &TypeMap) -> Option<Self> {
        retrieve_cloned::<Self>(tm)
    }
}

impl FromTypeMap for FiveTuple {
    fn retrieve_from_map(tm: &TypeMap) -> Option<Self> {
        retrieve_cloned::<Self>(tm)
    }
}

// a typemap bind and call should rt
#[test]
fn test_typemap_round_trips() {
    let mut tm = TypeMap::new();

    tm.bind(Bare);
    tm.bind(FiveTuple(1, 2, 3, 4., "hello".to_string()));
    tm.bind(Either::<usize, i32>::Right(-1));

    tm.get::<Bare>().unwrap();
    let tup = tm.get::<FiveTuple>().unwrap();
    assert_eq!(tup.0, 1);
    assert_eq!(tup.1, 2);
    assert_eq!(tup.2, 3);
    assert_eq!(tup.3, 4.);
    assert_eq!(tup.4, "hello".to_string());

    let e = tm.get::<Either<usize, i32>>().unwrap();
    assert_eq!(&Either::Right(-1), e);
    assert!(matches!(e, Either::Right(_)));
    assert!(!matches!(e, Either::Left(_)));
}

#[test]
fn bind_returns_the_value_that_it_replaces() {
    let mut tm = TypeMap::new();
    assert!(tm.bind(7u32).is_none());
    assert_eq!(tm.bind(8u32), Some(Box::new(7u32)));
    assert_eq!(tm.get::<u32>(), Some(&8u32));
    assert!(tm.get::<u64>().is_none());
}

#[test]
fn bind_new_rejects_a_second_value_of_a_type() {
    let mut tm = TypeMap::new();
    assert!(tm.bind_new(String::from("first")).is_ok());
    let rejected = tm.bind_new(String::from("second"));
    assert_eq!(rejected, Err(std::any::TypeId::of::<String>()));
    assert_eq!(tm.get::<String>(), Some(&String::from("first")));
    assert!(tm.bind_new(1u8).is_ok());
    assert_eq!(tm.get::<u8>(), Some(&1u8));
}

#[test]
fn derived_dependencies_resolve_to_copies() {
    let mut tm = TypeMap::new();
    assert!(Bare::retrieve_from_map(&tm).is_none());
    tm.bind(FiveTuple(9, 8, 7, 6., "x".to_string()));
    let got = FiveTuple::retrieve_from_map(&tm).unwrap();
    assert_eq!(got.0, 9);
    assert_eq!(got.4, "x");
    assert!(Bare::retrieve_from_map(&tm).is_none());
}

#[test]
fn a_handle_resolves_to_the_bound_value() {
    let mut tm = TypeMap::new();
    assert!(Dep::<Config>::retrieve_from_map(&tm).is_none());
    tm.bind(Dep::new(Config(4, 5)));
    let dep = Dep::<Config>::retrieve_from_map(&tm).unwrap();
    assert_eq!(dep.0, 4);
    assert_eq!(dep.1, 5);
    let again = dep.clone();
    assert!(std::sync::Arc::ptr_eq(&dep.inner(), &again.inner()));
}

#[test]
fn tuples_resolve_when_every_element_does() {
    let mut tm = TypeMap::new();
    assert!(<()>::retrieve_from_map(&tm).is_some());
    tm.bind(Dep::new(Config(1, 1)));
    assert!(<(Dep<Config>,)>::retrieve_from_map(&tm).is_some());
    assert!(<(Dep<Config>, Dep<Database>)>::retrieve_from_map(&tm).is_none());
    assert!(<(Dep<Database>, Dep<Config>)>::retrieve_from_map(&tm).is_none());
    tm.bind(Dep::new(Database));
    let (cfg, _db) = <(Dep<Config>, Dep<Database>)>::retrieve_from_map(&tm).unwrap();
    assert_eq!(cfg.0, 1);
    assert!(<(Dep<Config>, Dep<Database>, Dep<Config>, Dep<Database>, Dep<Config>, Dep<Database>, Dep<Config>, Dep<Database>)>::retrieve_from_map(&tm).is_some());
    assert!(<(Dep<Config>, Dep<Database>, Dep<u8>)>::retrieve_from_map(&tm).is_none());
}
