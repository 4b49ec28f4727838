use vstd::prelude::*;

verus! {

/// The kinds of failure a run can meet.
#[derive(Clone, Copy, Debug, PartialEq, Eq, Structural)]
pub enum ErrorKind {
    /// The configuration or the home directory could not be read.
    Configuration,
    /// Too few command-line arguments.
    Usage,
    /// A key file is missing.
    KeyNotFound,
    /// The connection or the protocol handshake failed.
    Transport,
    /// The remote host rejected the key.
    Authentication,
    /// The channel, the exec request, reading the output or closing failed.
    Execution,
}

/// A failure of a given kind, with a human-readable cause.
#[derive(Clone, Debug)]
pub struct Failure {
    pub kind: ErrorKind,
    pub cause: String,
}

/// What a failure is, as mathematical values.
pub struct FailureView {
    pub kind: ErrorKind,
    pub cause: Seq<char>,
}

impl View for Failure {
    type V = FailureView;

    open spec fn view(&self) -> FailureView {
        FailureView { kind: self.kind, cause: self.cause@ }
    }
}

impl ErrorKind {
    /// Whether this failure ends the whole run before any node is contacted.
    pub open spec fn spec_is_fatal(self) -> bool {
        self is Configuration || self is Usage
    }

    #[verifier::when_used_as_spec(spec_is_fatal)]
    pub fn is_fatal(self) -> (r: bool)
        ensures
            r == self.spec_is_fatal(),
    {
        match self {
            ErrorKind::Configuration | ErrorKind::Usage => true,
            _ => false,
        }
    }
}

impl Failure {
    pub fn new(kind: ErrorKind, cause: String) -> (r: Failure)
        ensures
            r.kind == kind,
            r.cause@ == cause@,
    {
        Failure { kind, cause }
    }
}

} // verus!
