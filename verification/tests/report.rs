use kilo_airdrop::report::{
    outcome_line, retry_notice, total_line, unreadable_addresses, Line, Stream,
};

#[test]
fn success_line_goes_to_the_primary_output() {
    let outcome: Result<f64, String> = Ok(3.75);
    let line = outcome_line("0xabc", &outcome, &3.75f64.to_string());
    assert_eq!(
        line,
        Line { stream: Stream::Output, text: "Address 0xabc: 3.75 KILO".to_string() }
    );
}

#[test]
fn success_line_of_a_zero_amount() {
    let outcome: Result<f64, String> = Ok(0.0);
    let line = outcome_line("0xabc", &outcome, &0.0f64.to_string());
    assert_eq!(line.text, "Address 0xabc: 0 KILO");
    assert_eq!(line.stream, Stream::Output);
}

#[test]
fn failure_line_goes_to_the_diagnostic_stream() {
    let outcome: Result<f64, String> = Err("error sending request".to_string());
    let line = outcome_line("0xabc", &outcome, "error sending request");
    assert_eq!(
        line,
        Line {
            stream: Stream::Diagnostic,
            text: "Failed after retries for address 0xabc: error sending request".to_string(),
        }
    );
}

#[test]
fn total_line_goes_to_the_primary_output() {
    assert_eq!(
        total_line("12.5"),
        Line {
            stream: Stream::Output,
            text: "Total sum across all addresses: 12.5 KILO".to_string(),
        }
    );
}

#[test]
fn retry_notice_counts_from_one() {
    assert_eq!(
        retry_notice(1, 10, "0xabc", "timed out"),
        Line {
            stream: Stream::Diagnostic,
            text: "Retry 1/10 for address 0xabc: timed out".to_string(),
        }
    );
}

#[test]
fn retry_notice_of_the_last_retry() {
    assert_eq!(retry_notice(10, 10, "a", "e").text, "Retry 10/10 for address a: e");
}

#[test]
fn retry_notice_with_the_largest_numbers() {
    assert_eq!(
        retry_notice(u32::MAX, u32::MAX, "a", "e").text,
        "Retry 4294967295/4294967295 for address a: e"
    );
}

#[test]
fn unreadable_addresses_is_a_diagnostic() {
    assert_eq!(
        unreadable_addresses("No such file or directory (os error 2)"),
        Line {
            stream: Stream::Diagnostic,
            text: "Error reading addresses file: No such file or directory (os error 2)"
                .to_string(),
        }
    );
}

#[test]
fn empty_parts_leave_the_frame() {
    let outcome: Result<(), ()> = Ok(());
    assert_eq!(outcome_line("", &outcome, "").text, "Address :  KILO");
    let outcome: Result<(), ()> = Err(());
    assert_eq!(outcome_line("", &outcome, "").text, "Failed after retries for address : ");
    assert_eq!(total_line("").text, "Total sum across all addresses:  KILO");
}
