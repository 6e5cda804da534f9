use kilo_airdrop::report::{outcome_line, Stream};
use kilo_airdrop::retry::{Retry, Step};
use kilo_airdrop::tally::contributions;

fn total(outcomes: Vec<Result<f64, String>>) -> f64 {
    contributions(outcomes).iter().sum()
}

#[test]
fn successes_contribute_in_order() {
    let outcomes: Vec<Result<f64, String>> = vec![Ok(1.5), Ok(2.25), Ok(0.0)];
    assert_eq!(contributions(outcomes), vec![1.5, 2.25, 0.0]);
}

#[test]
fn failures_contribute_nothing() {
    let outcomes: Vec<Result<f64, String>> =
        vec![Err("a".to_string()), Ok(1.5), Err("b".to_string()), Ok(2.25)];
    assert_eq!(contributions(outcomes), vec![1.5, 2.25]);
}

#[test]
fn a_failure_is_not_counted_as_zero() {
    let outcomes: Vec<Result<f64, String>> = vec![Ok(4.0), Err("down".to_string())];
    assert_eq!(contributions(outcomes).len(), 1);
}

#[test]
fn nothing_to_tally() {
    let outcomes: Vec<Result<f64, String>> = Vec::new();
    assert_eq!(contributions(outcomes), Vec::<f64>::new());
}

#[test]
fn only_failures_leave_nothing_to_add() {
    let outcomes: Vec<Result<f64, String>> = vec![Err("a".to_string()), Err("b".to_string())];
    assert_eq!(contributions(outcomes), Vec::<f64>::new());
}

#[test]
fn equal_amounts_total_amount_times_addresses() {
    for count in 1..=20usize {
        let outcomes: Vec<Result<f64, String>> = (0..count).map(|_| Ok(1.5)).collect();
        assert_eq!(contributions(outcomes.clone()), vec![1.5; count]);
        assert_eq!(total(outcomes), 1.5 * count as f64);
    }
}

#[test]
fn equal_amounts_each_give_a_success_line() {
    let addresses = ["a0", "a1", "a2"];
    let outcomes: Vec<Result<f64, String>> = vec![Ok(2.0), Ok(2.0), Ok(2.0)];
    for (address, outcome) in addresses.iter().zip(outcomes.iter()) {
        let line = outcome_line(address, outcome, "2");
        assert_eq!(line.stream, Stream::Output);
        assert_eq!(line.text, format!("Address {}: 2 KILO", address));
    }
    assert_eq!(total(outcomes), 6.0);
}

#[test]
fn zero_amount_is_a_success_and_is_counted() {
    let outcomes: Vec<Result<f64, String>> = vec![Ok(0.0)];
    let line = outcome_line("0xabc", &outcomes[0], &0.0f64.to_string());
    assert_eq!(line.stream, Stream::Output);
    assert_eq!(line.text, "Address 0xabc: 0 KILO");
    assert_eq!(contributions(outcomes), vec![0.0]);
}

#[test]
fn two_amounts_add_up() {
    let outcomes: Vec<Result<f64, String>> = vec![Ok(1.5), Ok(2.25)];
    assert_eq!(total(outcomes), 3.75);
}

#[test]
fn total_ignores_the_order_of_completion() {
    let in_order: Vec<Result<f64, String>> =
        vec![Ok(1.5), Err("x".to_string()), Ok(2.25), Ok(8.0), Err("y".to_string()), Ok(0.5)];
    let mut reordered = in_order.clone();
    reordered.reverse();
    reordered.swap(0, 3);
    let mut first = contributions(in_order.clone());
    let mut second = contributions(reordered.clone());
    first.sort_by(|a, b| a.partial_cmp(b).unwrap());
    second.sort_by(|a, b| a.partial_cmp(b).unwrap());
    assert_eq!(first, second);
    assert_eq!(total(in_order), 12.25);
    assert_eq!(total(reordered), 12.25);
}

#[test]
fn exhausted_address_is_reported_and_left_out() {
    let mut policy = Retry::new(10);
    let mut attempts = 0;
    let outcome: Result<f64, String> = loop {
        attempts += 1;
        match policy.on_attempt(Err(format!("attempt {} failed", attempts))) {
            Step::Done(outcome) => break outcome,
            Step::Again { .. } => {}
        }
    };
    assert_eq!(attempts, 11);
    let line = outcome_line("0xdead", &outcome, "attempt 11 failed");
    assert_eq!(line.stream, Stream::Diagnostic);
    assert_eq!(line.text, "Failed after retries for address 0xdead: attempt 11 failed");
    assert_eq!(total(vec![Ok(1.0), outcome, Ok(2.0)]), 3.0);
}

#[test]
fn amounts_need_not_be_numbers() {
    let outcomes: Vec<Result<&str, u8>> = vec![Ok("a"), Err(1), Ok("b")];
    assert_eq!(contributions(outcomes), vec!["a", "b"]);
}
