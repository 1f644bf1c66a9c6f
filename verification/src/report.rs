//! What a worker prints: progress groups and status lines. A group is handed
//! out whole, so that it can be written under one hold of the output lock.

use crate::text::{decimal, push_decimal};
use vstd::prelude::*;
use vstd::string::StringExecFns;

verus! {

/// The width of the rule that frames a progress group.
pub const RULE_WIDTH: usize = 50;

/// The views of `texts`, in order.
pub open spec fn texts_view(texts: Seq<String>) -> Seq<Seq<char>> {
    Seq::new(texts.len(), |i: int| texts[i]@)
}

/// A rule: a line of `RULE_WIDTH` dashes.
pub open spec fn rule() -> Seq<char> {
    Seq::new(RULE_WIDTH as nat, |i: int| '-')
}

/// The line that names worker `worker`.
pub open spec fn worker_label(worker: nat) -> Seq<char> {
    "Thread "@ + decimal(worker)
}

/// The group that relays one line of a fetch's output: the worker's label
/// and the line, between two rules.
pub open spec fn progress_lines(worker: nat, line: Seq<char>) -> Seq<Seq<char>> {
    seq![rule(), worker_label(worker), line, rule()]
}

/// The line that reports how the fetch into `destination` ended.
pub open spec fn status_text(worker: nat, destination: Seq<char>, success: bool) -> Seq<char> {
    if success {
        worker_label(worker) + ": Successfully downloaded "@ + destination
    } else {
        worker_label(worker) + ": Failed to download "@ + destination
    }
}

/// Builds a rule.
pub fn rule_line() -> (line: String)
    ensures
        line@ == rule(),
{
    let mut line = String::new();
    let mut i: usize = 0;
    while i < RULE_WIDTH
        invariant
            i <= RULE_WIDTH,
            line@ == Seq::new(i as nat, |k: int| '-'),
        decreases RULE_WIDTH - i,
    {
        line.push('-');
        i += 1;
    }
    line
}

/// Builds the label of worker `worker`.
pub fn label_line(worker: usize) -> (line: String)
    ensures
        line@ == worker_label(worker as nat),
{
    let mut line = String::from_str("Thread ");
    push_decimal(&mut line, worker);
    line
}

/// Builds the group that relays `line` on behalf of worker `worker`.
pub fn progress_group(worker: usize, line: &str) -> (group: Vec<String>)
    ensures
        texts_view(group@) == progress_lines(worker as nat, line@),
{
    let mut group: Vec<String> = Vec::new();
    group.push(rule_line());
    group.push(label_line(worker));
    group.push(String::from_str(line));
    group.push(rule_line());
    group
}

/// Builds the line that reports how worker `worker`'s fetch into
/// `destination` ended.
pub fn status_line(worker: usize, destination: &str, success: bool) -> (line: String)
    ensures
        line@ == status_text(worker as nat, destination@, success),
{
    let mut line = label_line(worker);
    if success {
        line.append(": Successfully downloaded ");
    } else {
        line.append(": Failed to download ");
    }
    line.append(destination);
    line
}

} // verus!
