use vstd::prelude::*;
use crate::error::VMError;
use crate::reference::PathFacts;

verus! {

/// A piece of outside work that a job asks the embedding program to do.
#[derive(Debug)]
pub enum Request {
    /// Run the shell command under `buildah unshare sh -c`; report status and output.
    Capture(String),
    /// Run the shell command under `buildah unshare sh -c`; report its status.
    Run(String),
    /// Run the shell command under `buildah unshare sh -c`; whatever happens is ignored.
    Cleanup(String),
    /// Report whether the named program is on the search path, as an exit status.
    FindProgram(String),
    /// Report the directory of the embedded default image layout, if found.
    LocateEmbedded,
    /// Report the `PathFacts` of the directory.
    Probe(String),
    /// Create the directory `dir`, then write `content` to the file `path`.
    WriteFile { dir: String, path: String, content: String },
    /// Nothing is left to do; the job's result.
    Finished(Result<String, VMError>),
}

/// What came of a `Request`.
#[derive(Debug)]
pub enum Outcome {
    /// The command ran and exited.
    Exited { success: bool, stdout: String, stderr: String },
    /// The command could not be started.
    NotStarted(String),
    /// The embedded layout directory, if found.
    Located(Option<String>),
    /// The facts of the probed directory.
    Probed(PathFacts),
    /// The file was written, or the filesystem error.
    Written(Result<(), String>),
}

/// The error of a failed step: `resolution` picks `ImageResolution` over
/// `Execution`.
pub open spec fn is_failure(e: VMError, detail: Seq<char>, resolution: bool) -> bool {
    &&& e.detail() == detail
    &&& if resolution {
        e is ImageResolution
    } else {
        e is Execution
    }
}

/// The error for a command that could not be started.
pub open spec fn not_started_detail(m: Seq<char>) -> Seq<char> {
    "Failed to execute command: "@ + m
}

pub fn not_started_error(m: &String) -> (e: VMError)
    ensures
        is_failure(e, not_started_detail(m@), false),
{
    let mut d = "Failed to execute command: ".to_owned();
    d.append(m.as_str());
    VMError::Execution(d)
}

pub fn failure(head: &str, tail: &str, resolution: bool) -> (e: VMError)
    ensures
        is_failure(e, head@ + tail@, resolution),
{
    let mut d = head.to_owned();
    d.append(tail);
    if resolution {
        VMError::ImageResolution(d)
    } else {
        VMError::Execution(d)
    }
}

} // verus!
