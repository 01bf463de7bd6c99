use rust_python_example::{fibonacci, MAX_FIB_INDEX};

#[test]
fn fibonacci_of_zero() {
    assert_eq!(fibonacci(0), 0);
}

#[test]
fn fibonacci_of_one() {
    assert_eq!(fibonacci(1), 1);
}

#[test]
fn fibonacci_of_two() {
    assert_eq!(fibonacci(2), 1);
}

#[test]
fn fibonacci_of_ten() {
    assert_eq!(fibonacci(10), 55);
}

#[test]
fn fibonacci_of_twenty() {
    assert_eq!(fibonacci(20), 6765);
}

#[test]
fn fibonacci_of_thirty() {
    assert_eq!(fibonacci(30), 832040);
}

#[test]
fn fibonacci_first_terms() {
    let expected: Vec<u64> = vec![0, 1, 1, 2, 3, 5, 8, 13, 21, 34, 55, 89, 144];
    for (n, want) in expected.iter().enumerate() {
        assert_eq!(fibonacci(n as u64), *want);
    }
}

#[test]
fn fibonacci_recurrence_holds() {
    for n in 2..=25u64 {
        assert_eq!(fibonacci(n), fibonacci(n - 1) + fibonacci(n - 2));
    }
}

#[test]
fn fibonacci_never_decreases() {
    for n in 0..25u64 {
        assert!(fibonacci(n + 1) >= fibonacci(n));
    }
}

#[test]
fn fibonacci_repeated_calls_agree() {
    for n in [0u64, 1, 7, 19, 24] {
        let first = fibonacci(n);
        let second = fibonacci(n);
        assert_eq!(first, second);
    }
}

#[test]
fn largest_index_is_ninety_three() {
    assert_eq!(MAX_FIB_INDEX, 93);
}
