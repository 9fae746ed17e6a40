use process_control::simple_fns::{divisible_by_three, double_string, returns_42u32, returns_unit};

/// A helper that only the tests use.
fn test_helper() -> usize {
    42
}

#[test]
fn use_test_helper() {
    let result = 2 + test_helper();
    assert_eq!(result, 44);
}

#[test]
fn test_mutatable_functions() {
    assert_eq!(returns_42u32(), 42);

    assert!(divisible_by_three(0));
    assert!(divisible_by_three(9));
    assert!(!divisible_by_three(20));

    let mut a = 0;
    returns_unit(&mut a);
    assert_eq!(a, 1);
}

#[test]
fn double_string_repeats_its_argument() {
    assert_eq!(double_string("cat"), "catcat");
    assert_eq!(double_string(""), "");
}

#[test]
fn returns_unit_adds_one_below_the_maximum() {
    let mut a = u32::MAX - 1;
    returns_unit(&mut a);
    assert_eq!(a, u32::MAX);
}
