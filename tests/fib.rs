use fib_bench::fib;
use fib_bench::FIB_MAX_ARG;

#[test]
fn base_cases_return_their_argument() {
    assert_eq!(fib(0), 0);
    assert_eq!(fib(1), 1);
}

#[test]
fn concrete_values() {
    assert_eq!(fib(0), 0);
    assert_eq!(fib(1), 1);
    assert_eq!(fib(2), 1);
    assert_eq!(fib(3), 2);
    assert_eq!(fib(5), 5);
    assert_eq!(fib(10), 55);
}

#[test]
fn recurrence_holds_on_a_range() {
    for n in 2..=25 {
        assert_eq!(fib(n), fib(n - 1) + fib(n - 2));
    }
}

#[test]
fn benchmark_constant_ten_gives_fifty_five() {
    assert_eq!(fib(10), 55);
}

#[test]
fn larger_value() {
    assert_eq!(fib(20), 6765);
    assert_eq!(fib(30), 832040);
}

#[test]
fn negative_arguments_are_returned_unchanged() {
    assert_eq!(fib(-1), -1);
    assert_eq!(fib(-7), -7);
    assert_eq!(fib(i32::MIN), i32::MIN);
}

#[test]
fn largest_argument_is_forty_six() {
    assert_eq!(FIB_MAX_ARG, 46);
}
