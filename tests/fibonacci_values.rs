use fibonacci::{fibonacci, fibonacci_sequence, header, MAX_INDEX, SEQUENCE_LEN};

const FIRST_TEN: [i32; 10] = [0, 1, 1, 2, 3, 5, 8, 13, 21, 34];

#[test]
fn first_ten_match_the_listed_values() {
    for n in 0..10 {
        assert_eq!(fibonacci(n), FIRST_TEN[n as usize]);
    }
}

#[test]
fn base_cases() {
    assert_eq!(fibonacci(0), 0);
    assert_eq!(fibonacci(1), 1);
}

#[test]
fn recurrence_holds_over_the_tested_range() {
    for n in 2..10 {
        assert_eq!(fibonacci(n), fibonacci(n - 1) + fibonacci(n - 2));
    }
}

#[test]
fn recurrence_holds_at_a_larger_index() {
    assert_eq!(fibonacci(20), 6765);
    assert_eq!(fibonacci(20), fibonacci(19) + fibonacci(18));
}

#[test]
fn negative_index_is_returned_as_is() {
    assert_eq!(fibonacci(-1), -1);
    assert_eq!(fibonacci(-7), -7);
    assert_eq!(fibonacci(i32::MIN), i32::MIN);
}

#[test]
fn value_near_the_largest_index() {
    assert_eq!(MAX_INDEX, 46);
    assert_eq!(fibonacci(MAX_INDEX - 6), 102334155);
}

#[test]
fn report_lines_are_header_then_ten_values() {
    let mut lines: Vec<String> = vec![header().to_string()];
    for v in fibonacci_sequence(SEQUENCE_LEN) {
        lines.push(format!("{}", v));
    }
    let text = lines.join("\n") + "\n";
    assert_eq!(lines.len(), 11);
    assert_eq!(text, "Fibonacci sequence:\n0\n1\n1\n2\n3\n5\n8\n13\n21\n34\n");
}

#[test]
fn sequence_is_the_same_on_every_call() {
    let a = fibonacci_sequence(SEQUENCE_LEN);
    let b = fibonacci_sequence(SEQUENCE_LEN);
    assert_eq!(a, b);
    assert_eq!(a, FIRST_TEN.to_vec());
}

#[test]
fn empty_sequence() {
    assert!(fibonacci_sequence(0).is_empty());
}

#[test]
fn longer_sequence_keeps_index_order() {
    let all = fibonacci_sequence(30);
    assert_eq!(all.len(), 30);
    assert_eq!(all[29], 514229);
    for i in 2..30 {
        assert_eq!(all[i], all[i - 1] + all[i - 2]);
    }
}
