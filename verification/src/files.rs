//! The persistence gateway's verified face: the exporter's identity (the
//! target path it was aimed at), the error type it reports with, and the
//! exact failure message for each phase of a file operation. The raw file
//! operations themselves are platform work outside this library; they hand
//! the failing phase and the platform's error text back in as plain values.

use vstd::prelude::*;
use vstd::string::StringExecFns;

verus! {

/// The well-known stats file path, overwritten wholesale on every save.
pub const STATS_PATH_STRING: &'static str = "stats.txt";

/// Helper struct whose primary purpose is to move data to and from files;
/// here it carries the target path and builds the exact error reports.
pub struct Io {
    pub path: String,
}

/// Error type which informs the user that an I/O error has occurred.
#[derive(PartialEq, Debug)]
pub struct IoError {
    pub reason: String,
}

impl IoError {
    /// The human-readable reason carried by this error.
    pub fn message(&self) -> (r: &String)
        ensures
            r@ == self.reason@,
    {
        &self.reason
    }
}

/// The phase of a file operation that can fail: the error taxonomy
/// distinguishes opening, writing, flushing and reading.
#[allow(non_camel_case_types)]
#[derive(Clone, Copy, PartialEq, Eq, Structural, Debug)]
pub enum IoOperation {
    OPEN,
    WRITE,
    FLUSH,
    READ,
}

/// The failure message of a phase: the phase's own wording, the resource,
/// and the platform's error text.
pub open spec fn spec_io_report(op: IoOperation, file: Seq<char>, err: Seq<char>) -> Seq<char> {
    match op {
        IoOperation::OPEN => "Cannot open file "@ + file + ": "@ + err,
        IoOperation::WRITE => "Cannot write data to "@ + file + ": "@ + err,
        IoOperation::FLUSH => "Cannot flush data to "@ + file + ": "@ + err,
        IoOperation::READ => "Cannot read data from "@ + file + ": "@ + err,
    }
}

impl IoOperation {
    /// The failure report of this phase against `file`, with the
    /// platform's error text `err`.
    pub fn report_error(&self, file: &String, err: &str) -> (r: String)
        ensures
            r@ == spec_io_report(*self, file@, err@),
    {
        let mut s = match self {
            IoOperation::OPEN => "Cannot open file ".to_owned(),
            IoOperation::WRITE => "Cannot write data to ".to_owned(),
            IoOperation::FLUSH => "Cannot flush data to ".to_owned(),
            IoOperation::READ => "Cannot read data from ".to_owned(),
        };
        s.append(file.as_str());
        s.append(": ");
        s.append(err);
        proof {
            assert(s@ =~= spec_io_report(*self, file@, err@));
        }
        s
    }
}

impl Io {
    /// Factory method: an exporter aimed at `path`.
    pub fn new(path: &str) -> (r: Io)
        ensures
            r.path@ == path@,
    {
        Io { path: path.to_owned() }
    }

    /// The target path this exporter was aimed at.
    pub fn get_path(&self) -> (r: &String)
        ensures
            r@ == self.path@,
    {
        &self.path
    }

    /// The error for a failure of phase `op` on this exporter's path, with
    /// the platform's error text `err`.
    pub fn report_error(&self, op: IoOperation, err: &str) -> (r: IoError)
        ensures
            r.reason@ == spec_io_report(op, self.path@, err@),
    {
        IoError { reason: op.report_error(&self.path, err) }
    }
}

} // verus!
