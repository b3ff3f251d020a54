//! The report on a finished batch: one line per failed job, and the exit
//! status of the process.

use vstd::prelude::*;
use vstd::string::StringExecFns;

use crate::dispatch::Failure;

verus! {

/// The report on a finished batch.
#[derive(Debug)]
pub struct Report {
    /// One line per entry of the error log, in the order of the log.
    pub lines: Vec<String>,
    /// The exit status of the process.
    pub exit_code: i32,
}

/// The line that reports a failure: the source path, the words
/// " failed with code ", and the diagnostic code.
pub open spec fn failure_line_text(path: Seq<char>, diagnostic: Seq<char>) -> Seq<char> {
    path + " failed with code "@ + diagnostic
}

/// Writes the line that reports a failure.
pub fn failure_line(failure: &Failure) -> (line: String)
    ensures
        line@ == failure_line_text(failure.path@, failure.diagnostic@),
{
    let mut line = failure.path.clone();
    line.append(" failed with code ");
    line.append(failure.diagnostic.as_str());
    line
}

/// Reports on a finished batch. Failures are shown and do not change the exit
/// status: a batch that ran to its end exits with 0, whatever its error log
/// holds.
pub fn report(errors: &Vec<Failure>) -> (report: Report)
    ensures
        report.exit_code == 0,
        report.lines@.len() == errors@.len(),
        forall|i: int|
            0 <= i < errors@.len() ==> (#[trigger] report.lines@[i])@ == failure_line_text(
                errors@[i].path@,
                errors@[i].diagnostic@,
            ),
{
    let mut lines: Vec<String> = Vec::new();
    let mut i: usize = 0;
    while i < errors.len()
        invariant
            i <= errors.len(),
            lines@.len() == i,
            forall|k: int|
                0 <= k < i ==> (#[trigger] lines@[k])@ == failure_line_text(
                    errors@[k].path@,
                    errors@[k].diagnostic@,
                ),
        decreases errors.len() - i,
    {
        lines.push(failure_line(&errors[i]));
        i += 1;
    }
    Report { lines, exit_code: 0 }
}

} // verus!
