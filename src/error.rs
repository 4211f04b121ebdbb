use vstd::prelude::*;

verus! {

/// Failures of the sandbox, by kind; each carries a human-readable detail.
#[derive(Debug, Clone, PartialEq, Eq)]
pub enum VMError {
    /// A bad or unreachable image reference, or a malformed image layout.
    ImageResolution(String),
    /// Invalid resource limits, an empty package list or a malformed workdir.
    VMConfiguration(String),
    /// An outside tool could not be run, or a required step exited non-zero.
    Execution(String),
    /// A filesystem failure.
    IO(String),
    /// A deadline was exceeded.
    Timeout(String),
    /// A required outside tool or hardware feature is absent.
    MissingDependency(String),
}

impl VMError {
    /// The detail text carried by the error.
    pub open spec fn detail(&self) -> Seq<char> {
        match self {
            VMError::ImageResolution(m) => m@,
            VMError::VMConfiguration(m) => m@,
            VMError::Execution(m) => m@,
            VMError::IO(m) => m@,
            VMError::Timeout(m) => m@,
            VMError::MissingDependency(m) => m@,
        }
    }

    /// The heading that `describe` puts before the detail.
    pub open spec fn heading(&self) -> Seq<char> {
        match self {
            VMError::ImageResolution(_) => "Image resolution error: "@,
            VMError::VMConfiguration(_) => "VM configuration error: "@,
            VMError::Execution(_) => "Execution error: "@,
            VMError::IO(_) => "IO error: "@,
            VMError::Timeout(_) => "Timeout: "@,
            VMError::MissingDependency(_) => "Missing dependency: "@,
        }
    }

    /// A one-line description: the kind's heading, then the detail.
    pub fn describe(&self) -> (r: String)
        ensures
            r@ == self.heading() + self.detail(),
    {
        let (head, m) = match self {
            VMError::ImageResolution(m) => ("Image resolution error: ", m),
            VMError::VMConfiguration(m) => ("VM configuration error: ", m),
            VMError::Execution(m) => ("Execution error: ", m),
            VMError::IO(m) => ("IO error: ", m),
            VMError::Timeout(m) => ("Timeout: ", m),
            VMError::MissingDependency(m) => ("Missing dependency: ", m),
        };
        let mut r = head.to_owned();
        r.append(m.as_str());
        r
    }
}

} // verus!
