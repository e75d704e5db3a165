//! The wording of a stall report.

use vstd::prelude::*;
use vstd::string::StringExecFns;

verus! {

/// The character that stands for a single decimal digit.
pub open spec fn digit_char(d: nat) -> char {
    if d == 0 {
        '0'
    } else if d == 1 {
        '1'
    } else if d == 2 {
        '2'
    } else if d == 3 {
        '3'
    } else if d == 4 {
        '4'
    } else if d == 5 {
        '5'
    } else if d == 6 {
        '6'
    } else if d == 7 {
        '7'
    } else if d == 8 {
        '8'
    } else {
        '9'
    }
}

/// A number written in decimal, without sign or leading zeros.
pub open spec fn decimal(n: nat) -> Seq<char>
    decreases n,
{
    if n < 10 {
        seq![digit_char(n)]
    } else {
        decimal(n / 10).push(digit_char(n % 10))
    }
}

/// The line that reports a stall: who saw it, which queue overran, by how much,
/// against which budget, and where the queue was at the time.
pub open spec fn report_text(
    executor: nat,
    queue_name: Seq<char>,
    overage: Seq<char>,
    budget: Seq<char>,
    trace: Seq<char>,
) -> Seq<char> {
    "[stall-detector -- executor "@ + decimal(executor) + "] task queue "@ + queue_name
        + " went over-budget: "@ + overage + " (budget: "@ + budget + "). Backtrace: "@ + trace
}

/// The text of a single decimal digit.
fn digit_text(d: usize) -> (text: &'static str)
    requires
        d < 10,
    ensures
        text@ == seq![digit_char(d as nat)],
{
    proof {
        reveal_strlit("0");
        reveal_strlit("1");
        reveal_strlit("2");
        reveal_strlit("3");
        reveal_strlit("4");
        reveal_strlit("5");
        reveal_strlit("6");
        reveal_strlit("7");
        reveal_strlit("8");
        reveal_strlit("9");
    }
    let text = if d == 0 {
        "0"
    } else if d == 1 {
        "1"
    } else if d == 2 {
        "2"
    } else if d == 3 {
        "3"
    } else if d == 4 {
        "4"
    } else if d == 5 {
        "5"
    } else if d == 6 {
        "6"
    } else if d == 7 {
        "7"
    } else if d == 8 {
        "8"
    } else {
        "9"
    };
    assert(text@ =~= seq![digit_char(d as nat)]);
    text
}

/// Writes a number in decimal.
pub fn decimal_string(n: usize) -> (text: String)
    ensures
        text@ == decimal(n as nat),
    decreases n,
{
    if n < 10 {
        String::from_str(digit_text(n))
    } else {
        let mut text = decimal_string(n / 10);
        text.append(digit_text(n % 10));
        assert(text@ =~= decimal(n as nat));
        text
    }
}

/// Puts the line that reports a stall together from its parts.
pub fn compose_report(
    executor: usize,
    queue_name: &str,
    overage: &str,
    budget: &str,
    trace: &str,
) -> (text: String)
    ensures
        text@ == report_text(executor as nat, queue_name@, overage@, budget@, trace@),
{
    let mut text = String::from_str("[stall-detector -- executor ");
    let id = decimal_string(executor);
    text.append(id.as_str());
    text.append("] task queue ");
    text.append(queue_name);
    text.append(" went over-budget: ");
    text.append(overage);
    text.append(" (budget: ");
    text.append(budget);
    text.append("). Backtrace: ");
    text.append(trace);
    text
}

} // verus!
