//! The decisions of a runner that feeds scripts to an interpreter and reads its output.
use vstd::prelude::*;
use vstd::string::StringExecFns;
use crate::text::{rfind, rfind_spec};

verus! {

/// An I/O error, as `std::io` reports it.
#[verifier::external_type_specification]
#[verifier::external_body]
pub struct ExIoError(std::io::Error);

/// How an interpreter process ended: its wait status, as the operating system reports it
/// (what `std::os::unix::process::ExitStatusExt::into_raw` gives, from which `from_raw` makes
/// the `std::process::ExitStatus` again, with its exit code or the signal that ended it).
#[derive(Debug, Clone, Copy, PartialEq, Eq)]
pub struct ExitStatus {
    /// The wait status.
    pub raw: i32,
}

/// Why a script run on an interpreter failed.
#[derive(Debug)]
pub enum Error {
    /// Reading from or writing to the interpreter failed.
    Io(std::io::Error),
    /// The interpreter ended with the given status and wrote this to its error stream.
    ExitStatus(ExitStatus, String),
    /// The interpreter reported this failure on its error stream while still running.
    RunError(String),
}

/// How a runner tells that a script failed while the interpreter keeps running.
pub enum ErrorDetector {
    /// Whatever the interpreter writes to its error stream is a failure.
    StderrNotIsEmpty,
}

impl ErrorDetector {
    /// Whether `stderr`, read from the interpreter's error stream, reports a failure.
    pub fn is_failure(&self, stderr: &str) -> (r: bool)
        ensures
            match self {
                ErrorDetector::StderrNotIsEmpty => r == (stderr@.len() > 0),
            },
    {
        match self {
            ErrorDetector::StderrNotIsEmpty => !stderr.is_empty(),
        }
    }
}

/// The output read so far, extended by one more line read from the interpreter.
pub open spec fn appended_output(out: Seq<char>, line: Seq<char>) -> Seq<char> {
    out + "\n"@ + line
}

/// Reading a line keeps what was read before and puts the line after it, on a line of its own:
/// the output so far, one line break, then the line.
pub proof fn law_output_grows_at_its_end(out: Seq<char>, line: Seq<char>)
    ensures
        appended_output(out, line).len() == out.len() + 1 + line.len(),
        appended_output(out, line).take(out.len() as int) == out,
        appended_output(out, line)[out.len() as int] == '\n',
        appended_output(out, line).skip(out.len() as int + 1) == line,
{
    reveal_strlit("\n");
    let a = appended_output(out, line);
    assert(a.take(out.len() as int) =~= out);
    assert(a.skip(out.len() as int + 1) =~= line);
}

/// Adds the line `line` to the output `out` read so far, and tells whether the output now
/// holds the end marker, so that the script has finished.
pub fn append_line(out: String, line: &str, end_marker: &str) -> (r: (String, bool))
    ensures
        r.0@ == appended_output(out@, line@),
        r.1 == rfind_spec(r.0@, end_marker@) is Some,
{
    let mut next = out;
    next.append("\n");
    next.append(line);
    let done = rfind(next.as_str(), end_marker).is_some();
    (next, done)
}


/// What the runner learns while it waits for the output of a script.
pub enum ReadEvent {
    /// The interpreter wrote this line (with its line break) to its output.
    Line(String),
    /// The interpreter ended with this status, and wrote this to its error stream.
    Exited(ExitStatus, String),
    /// The interpreter, still running, wrote this to its error stream.
    Stderr(String),
}

/// Where the reading of a script's output stands.
pub enum ReadState {
    /// The script has not finished; this is its output so far.
    Reading(String),
    /// The script has finished; this is its output, which holds the end marker.
    Done(String),
    /// The script failed.
    Failed(Error),
}

/// The reading of a script's output that stood at `out`, after `event`: a line is added to the
/// output, which is done once it holds the end marker; an exit of the interpreter is a failure;
/// so is a report on its error stream that `detector` counts as one.
pub fn read_step(out: String, event: ReadEvent, end_marker: &str, detector: &ErrorDetector) -> (r: ReadState)
    ensures
        match event {
            ReadEvent::Line(line) => {
                let next = appended_output(out@, line@);
                if rfind_spec(next, end_marker@) is Some {
                    r matches ReadState::Done(o) && o@ == next
                } else {
                    r matches ReadState::Reading(o) && o@ == next
                }
            },
            ReadEvent::Exited(status, err) => r matches ReadState::Failed(Error::ExitStatus(st, e))
                && st == status && e@ == err@,
            ReadEvent::Stderr(err) => match detector {
                ErrorDetector::StderrNotIsEmpty => if err@.len() > 0 {
                    r matches ReadState::Failed(Error::RunError(e)) && e@ == err@
                } else {
                    r matches ReadState::Reading(o) && o@ == out@
                },
            },
        },
{
    match event {
        ReadEvent::Line(line) => {
            let (next, done) = append_line(out, line.as_str(), end_marker);
            if done {
                ReadState::Done(next)
            } else {
                ReadState::Reading(next)
            }
        },
        ReadEvent::Exited(status, err) => ReadState::Failed(Error::ExitStatus(status, err)),
        ReadEvent::Stderr(err) => {
            if detector.is_failure(err.as_str()) {
                ReadState::Failed(Error::RunError(err))
            } else {
                ReadState::Reading(out)
            }
        },
    }
}

} // verus!
