//! The lines of a run: one per address, one for the total, and the
//! diagnostics. Results go to the primary output, and everything that tells
//! of a failure goes to the diagnostic stream.
//!
//! Amounts and errors come in as the text that is printed for them.

use crate::text::{decimal, push_decimal};
use vstd::prelude::*;
use vstd::string::*;

verus! {

/// Where a line is written.
#[derive(Clone, Copy, Debug, PartialEq, Eq, Structural)]
pub enum Stream {
    /// The primary output.
    Output,
    /// The diagnostic stream.
    Diagnostic,
}

/// One line to write, without its line feed.
#[derive(Debug, PartialEq, Eq)]
pub struct Line {
    /// The stream to write to.
    pub stream: Stream,
    /// The text to write.
    pub text: String,
}

/// A [`Line`] with its text as a sequence of characters.
pub struct LineView {
    /// The stream to write to.
    pub stream: Stream,
    /// The text to write.
    pub text: Seq<char>,
}

impl View for Line {
    type V = LineView;

    open spec fn view(&self) -> LineView {
        LineView { stream: self.stream, text: self.text@ }
    }
}

/// The line of an address that succeeded with `amount`.
pub open spec fn success_line(address: Seq<char>, amount: Seq<char>) -> LineView {
    LineView { stream: Stream::Output, text: "Address "@ + address + ": "@ + amount + " KILO"@ }
}

/// The line of an address that failed for good with `error`.
pub open spec fn failure_line(address: Seq<char>, error: Seq<char>) -> LineView {
    LineView {
        stream: Stream::Diagnostic,
        text: "Failed after retries for address "@ + address + ": "@ + error,
    }
}

/// The line of an address whose final outcome was a success or not, with
/// `shown` as the text of its amount or of its error.
pub open spec fn final_line(address: Seq<char>, succeeded: bool, shown: Seq<char>) -> LineView {
    if succeeded {
        success_line(address, shown)
    } else {
        failure_line(address, shown)
    }
}

/// The line that closes a run with `total`.
pub open spec fn closing_line(total: Seq<char>) -> LineView {
    LineView {
        stream: Stream::Output,
        text: "Total sum across all addresses: "@ + total + " KILO"@,
    }
}

/// The notice that retry number `retry` out of `max_retries` is granted to
/// `address` after `error`.
pub open spec fn retry_line(
    retry: nat,
    max_retries: nat,
    address: Seq<char>,
    error: Seq<char>,
) -> LineView {
    LineView {
        stream: Stream::Diagnostic,
        text: "Retry "@ + decimal(retry) + "/"@ + decimal(max_retries) + " for address "@
            + address + ": "@ + error,
    }
}

/// The diagnostic of a run that stops because the addresses could not be
/// read, with `error` as the reason.
pub open spec fn unreadable_line(error: Seq<char>) -> LineView {
    LineView { stream: Stream::Diagnostic, text: "Error reading addresses file: "@ + error }
}

/// The line that reports how `address` ended, given its final outcome and, as
/// `shown`, the text that is printed for the amount or for the error: a
/// success goes to the primary output, a failure to the diagnostic stream.
pub fn outcome_line<T, E>(address: &str, outcome: &Result<T, E>, shown: &str) -> (line: Line)
    ensures
        line@ == final_line(address@, outcome is Ok, shown@),
{
    match outcome {
        Ok(_) => {
            let mut text = String::from_str("Address ");
            text.append(address);
            text.append(": ");
            text.append(shown);
            text.append(" KILO");
            Line { stream: Stream::Output, text }
        },
        Err(_) => {
            let mut text = String::from_str("Failed after retries for address ");
            text.append(address);
            text.append(": ");
            text.append(shown);
            Line { stream: Stream::Diagnostic, text }
        },
    }
}

/// The line that closes a run, given the total as it is printed.
pub fn total_line(total: &str) -> (line: Line)
    ensures
        line@ == closing_line(total@),
{
    let mut text = String::from_str("Total sum across all addresses: ");
    text.append(total);
    text.append(" KILO");
    Line { stream: Stream::Output, text }
}

/// The notice that goes out before retry number `retry` out of `max_retries`
/// on `address`, given the error of the failed attempt as it is printed.
pub fn retry_notice(retry: u32, max_retries: u32, address: &str, error: &str) -> (line: Line)
    ensures
        line@ == retry_line(retry as nat, max_retries as nat, address@, error@),
{
    let mut text = String::from_str("Retry ");
    push_decimal(&mut text, retry as u64);
    text.append("/");
    push_decimal(&mut text, max_retries as u64);
    text.append(" for address ");
    text.append(address);
    text.append(": ");
    text.append(error);
    Line { stream: Stream::Diagnostic, text }
}

/// The only line of a run whose addresses could not be read, given the error
/// as it is printed.
pub fn unreadable_addresses(error: &str) -> (line: Line)
    ensures
        line@ == unreadable_line(error@),
{
    let mut text = String::from_str("Error reading addresses file: ");
    text.append(error);
    Line { stream: Stream::Diagnostic, text }
}

} // verus!
