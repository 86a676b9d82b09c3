use microbench::fib::fib;

#[test]
fn fib_zero() {
    assert_eq!(fib(0), 0);
}

#[test]
fn fib_one() {
    assert_eq!(fib(1), 1);
}

#[test]
fn fib_two() {
    assert_eq!(fib(2), 1);
}

#[test]
fn fib_ten() {
    assert_eq!(fib(10), 55);
}

#[test]
fn fib_thirty() {
    assert_eq!(fib(30), 832040);
}

#[test]
fn fib_negative_returns_input() {
    assert_eq!(fib(-5), -5);
}

#[test]
fn fib_recurrence_holds_at_samples() {
    for n in 2..20 {
        assert_eq!(fib(n), fib(n - 1) + fib(n - 2));
    }
}

#[test]
fn fib_repeated_runs_agree() {
    assert_eq!(fib(30), fib(30));
}
