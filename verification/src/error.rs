use vstd::prelude::*;

verus! {

/// Everything that can go wrong between an embedded archive and a running tool.
#[derive(Copy, Clone, Debug, PartialEq, Eq, Structural)]
pub enum ToolError {
    /// The container's directory or header cannot be parsed.
    ContainerMalformed,
    /// No entry of the container carries the requested tool.
    EntryNotFound,
    /// Reading from a stream, or writing what was read, failed.
    IoFailure,
    /// The cache directory for mounted tools cannot be determined.
    MountFailed,
    /// The whole tool set is mounted already and has not been released.
    AlreadyMounted,
    /// The mounted executable could not be started.
    SpawnFailed,
}

impl ToolError {
    /// The text of [`ToolError::message`].
    pub open spec fn spec_message(self) -> Seq<char> {
        match self {
            ToolError::ContainerMalformed => "the tool archive is malformed"@,
            ToolError::EntryNotFound => "the tool is missing from the archive"@,
            ToolError::IoFailure => "reading or writing the tool failed"@,
            ToolError::MountFailed => "no cache directory is available for the tool"@,
            ToolError::AlreadyMounted => "the tools are already mounted"@,
            ToolError::SpawnFailed => "the tool could not be started"@,
        }
    }

    /// A one-line description fit for showing to the user.
    pub fn message(&self) -> (text: &'static str)
        ensures
            text@ == self.spec_message(),
    {
        match self {
            ToolError::ContainerMalformed => "the tool archive is malformed",
            ToolError::EntryNotFound => "the tool is missing from the archive",
            ToolError::IoFailure => "reading or writing the tool failed",
            ToolError::MountFailed => "no cache directory is available for the tool",
            ToolError::AlreadyMounted => "the tools are already mounted",
            ToolError::SpawnFailed => "the tool could not be started",
        }
    }
}

/// A failed operation: what went wrong and, where reading or writing failed, the
/// I/O error behind it.
#[derive(Debug)]
pub struct Failure {
    kind: ToolError,
    cause: Option<std::io::Error>,
}

impl Failure {
    /// What went wrong.
    pub closed spec fn spec_kind(&self) -> ToolError {
        self.kind
    }

    /// The I/O error behind the failure, if there is one.
    pub closed spec fn spec_cause(&self) -> Option<std::io::Error> {
        self.cause
    }

    /// Whether an I/O error lies behind the failure.
    pub open spec fn has_cause(&self) -> bool {
        self.spec_cause() is Some
    }

    /// A failure of the given kind with no I/O error behind it.
    pub fn of(kind: ToolError) -> (failure: Failure)
        ensures
            failure.spec_kind() == kind,
            failure.spec_cause() is None,
    {
        Failure { kind, cause: None }
    }

    /// An `IoFailure` with the I/O error that caused it.
    pub fn io(cause: std::io::Error) -> (failure: Failure)
        ensures
            failure.spec_kind() == ToolError::IoFailure,
            failure.spec_cause() == Some(cause),
    {
        Failure { kind: ToolError::IoFailure, cause: Some(cause) }
    }

    /// What went wrong.
    pub fn kind(&self) -> (kind: ToolError)
        ensures
            kind == self.spec_kind(),
    {
        self.kind
    }

    /// The I/O error behind the failure, if there is one.
    pub fn cause(&self) -> (cause: Option<&std::io::Error>)
        ensures
            match cause {
                Some(error) => self.spec_cause() == Some(*error),
                None => self.spec_cause() is None,
            },
    {
        self.cause.as_ref()
    }

    /// Take the failure apart: its kind, and the I/O error behind it.
    pub fn into_parts(self) -> (parts: (ToolError, Option<std::io::Error>))
        ensures
            parts.0 == self.spec_kind(),
            parts.1 == self.spec_cause(),
    {
        (self.kind, self.cause)
    }
}

} // verus!
