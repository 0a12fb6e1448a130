use imperat::outputs::Outputs;
use imperat::IntoStepOutcome;

#[test]
fn a_boolean_succeeds_when_true() {
    assert!(true.success());
    assert!(!false.success());
    assert!(true.error().is_none());
    assert!(false.error().is_none());
}

#[test]
fn a_result_succeeds_when_ok() {
    let ok: Result<u8, String> = Ok(3);
    let err: Result<u8, String> = Err("broken".to_string());
    assert!(ok.success());
    assert!(!err.success());
    assert_eq!(ok.error(), None);
    assert_eq!(err.error(), Some("broken".to_string()));
}

#[test]
fn scalars_and_text_always_succeed() {
    assert!(().success());
    assert!(0usize.success());
    assert!((-1isize).success());
    assert!('c'.success());
    assert!("text".success());
    assert!(String::from("text").success());
    assert!(0u8.success() && 0i8.success() && 0u16.success() && 0i16.success());
    assert!(0u32.success() && 0i32.success() && 0u64.success() && 0i64.success());
    assert!(0u128.success() && 0i128.success());
    assert!(0u64.error().is_none());
    assert!("text".error().is_none());
    assert!(().error().is_none());
}

#[test]
fn an_io_error_is_a_failure_and_its_own_cause() {
    let e = std::io::Error::new(std::io::ErrorKind::NotFound, "gone");
    assert!(!e.success());
    let cause = e.error().unwrap();
    assert_eq!(cause.kind(), std::io::ErrorKind::NotFound);
}

#[test]
fn outputs_keep_the_last_outcome_of_a_name() {
    let mut outputs: Outputs<u8> = Outputs::new();
    assert_eq!(outputs.get("a"), None);
    outputs.record("a".to_string(), 1);
    outputs.record("b".to_string(), 2);
    outputs.record("a".to_string(), 3);
    assert_eq!(outputs.get("a"), Some(&3));
    assert_eq!(outputs.get("b"), Some(&2));
    assert_eq!(outputs.recorded(), 3);

    let mut later: Outputs<u8> = Outputs::new();
    later.record("b".to_string(), 9);
    later.record("c".to_string(), 8);
    outputs.merge(later);
    assert_eq!(outputs.get("a"), Some(&3));
    assert_eq!(outputs.get("b"), Some(&9));
    assert_eq!(outputs.get("c"), Some(&8));
    assert_eq!(
        outputs.into_entries(),
        vec![
            ("a".to_string(), 1),
            ("b".to_string(), 2),
            ("a".to_string(), 3),
            ("b".to_string(), 9),
            ("c".to_string(), 8),
        ]
    );
}
