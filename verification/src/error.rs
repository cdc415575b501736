//! The error taxonomy.
use vstd::prelude::*;

verus! {

/// The five classes of failure.
#[derive(Clone, Copy, Debug, PartialEq, Eq, Structural)]
pub enum ErrorKind {
    /// Malformed configuration. Fatal at load time.
    Config,
    /// A failure of the container runtime during one execution.
    Runtime,
    /// A command that ran to completion with a non-zero exit code.
    Exec,
    /// Cooperative cancellation.
    Cancel,
    /// A scheduler loop met a state that must not occur.
    Fatal,
}

/// What went wrong.
#[derive(Clone, Copy, Debug, PartialEq, Eq, Structural)]
pub enum Fault {
    /// The attributes hold no `kind`.
    MissingKind,
    /// The `kind` is none of the four job kinds. The detail is the kind.
    UnsupportedKind,
    /// A required attribute is absent. The detail is its name.
    MissingAttribute,
    /// A single-valued attribute holds no value or several. The detail is
    /// its name.
    TooManyValues,
    /// A boolean attribute is neither `true` nor `false`. The detail is the
    /// value.
    InvalidBoolean,
    /// The schedule is no cron expression. The detail is the schedule as
    /// the user wrote it.
    InvalidSchedule,
    /// A run job names neither an image nor a container.
    MissingTarget,
    /// The command of a job is empty.
    EmptyCommand,
    /// The configuration declares no job.
    NoJobs,
    /// Two labels give one job two kinds. The detail is the label key.
    ConflictingKinds,
    /// Two labels give one parameter different values. The detail is the
    /// label key.
    ConflictingValues,
    /// The runtime could not list the containers of a prefix. The detail is
    /// the prefix.
    ContainerListing,
    /// A line of the INI payload starts a section header that is not
    /// closed. The detail is the line.
    IniSyntax,
    /// A section header is neither `kind "name"` nor `global`. The detail is
    /// the header.
    UnsupportedHeader,
    /// A property stands before the first section. The detail is its key.
    PropertyOutsideSection,
    /// The YAML payload is not well formed. The detail is the parser's
    /// message.
    YamlSyntax,
    /// A scalar stands where a mapping is expected.
    UnexpectedScalar,
    /// A sequence stands anywhere but at the value of an attribute.
    MisplacedSequence,
    /// A mapping stands below the attributes of a job.
    TooDeep,
    /// A mapping stands where the name of a job is expected.
    UnexpectedMapping,
    /// The YAML events end before the end of the stream.
    TruncatedStream,
    /// The configuration file is not UTF-8.
    InvalidEncoding,
    /// A call of the runtime failed. The detail is its message.
    RuntimeApi,
    /// The command line of a job has an unclosed quote. The detail is the
    /// command.
    InvalidCommand,
    /// An output frame is not UTF-8.
    InvalidOutput,
    /// Output was offered to a report that already holds some.
    ReportNotEmpty,
    /// The runtime says that the command is still running, or does not say
    /// whether it is.
    StillRunning,
    /// The runtime reports no exit code.
    MissingExitCode,
    /// The execution was cancelled.
    Cancelled,
    /// An execution task ended abnormally. The detail is the reason.
    JoinFailure,
    /// A scheduler has neither a timer nor an execution outstanding.
    Exhausted,
    /// The runtime started a command detached from its output.
    Detached,
    /// An event arrived that the current step does not expect.
    UnexpectedEvent,
}

/// The class of a fault.
pub open spec fn kind_of(fault: Fault) -> ErrorKind {
    match fault {
        Fault::MissingKind
        | Fault::UnsupportedKind
        | Fault::MissingAttribute
        | Fault::TooManyValues
        | Fault::InvalidBoolean
        | Fault::InvalidSchedule
        | Fault::MissingTarget
        | Fault::EmptyCommand
        | Fault::NoJobs
        | Fault::ConflictingKinds
        | Fault::ConflictingValues
        | Fault::ContainerListing
        | Fault::IniSyntax
        | Fault::UnsupportedHeader
        | Fault::PropertyOutsideSection
        | Fault::YamlSyntax
        | Fault::UnexpectedScalar
        | Fault::MisplacedSequence
        | Fault::TooDeep
        | Fault::UnexpectedMapping
        | Fault::TruncatedStream
        | Fault::InvalidEncoding => ErrorKind::Config,
        Fault::RuntimeApi
        | Fault::InvalidCommand
        | Fault::InvalidOutput
        | Fault::ReportNotEmpty
        | Fault::StillRunning
        | Fault::MissingExitCode => ErrorKind::Runtime,
        Fault::Cancelled => ErrorKind::Cancel,
        Fault::JoinFailure
        | Fault::Exhausted
        | Fault::Detached
        | Fault::UnexpectedEvent => ErrorKind::Fatal,
    }
}

/// A short description of a fault.
pub open spec fn fault_text(fault: Fault) -> Seq<char> {
    match fault {
        Fault::MissingKind => "the job has no job kind"@,
        Fault::UnsupportedKind => "unsupported job type"@,
        Fault::MissingAttribute => "a required job key is not set"@,
        Fault::TooManyValues => "a job key does not have exactly one value"@,
        Fault::InvalidBoolean => "a boolean is neither true nor false"@,
        Fault::InvalidSchedule => "the schedule is no cron expression"@,
        Fault::MissingTarget => "a run job needs an image or a container"@,
        Fault::EmptyCommand => "the command is empty"@,
        Fault::NoJobs => "no valid job could be found"@,
        Fault::ConflictingKinds => "conflicting cron types"@,
        Fault::ConflictingValues => "a parameter set more than once has different values"@,
        Fault::ContainerListing => "failed to get container list"@,
        Fault::IniSyntax => "malformed ini line"@,
        Fault::UnsupportedHeader => "unsupported ini header"@,
        Fault::PropertyOutsideSection => "property without a section"@,
        Fault::YamlSyntax => "malformed yaml"@,
        Fault::UnexpectedScalar => "unexpected scalar, a mapping was expected"@,
        Fault::MisplacedSequence => "sequences may only hold the values of an attribute"@,
        Fault::TooDeep => "the yaml mapping is too deeply nested"@,
        Fault::UnexpectedMapping => "unexpected mapping, a job name was expected"@,
        Fault::TruncatedStream => "the yaml parser ended unexpectedly"@,
        Fault::InvalidEncoding => "the configuration is not valid UTF-8"@,
        Fault::RuntimeApi => "the container runtime reported an error"@,
        Fault::InvalidCommand => "the command has an unclosed quote"@,
        Fault::InvalidOutput => "the output is not valid UTF-8"@,
        Fault::ReportNotEmpty => "the report already contains a stream's data"@,
        Fault::StillRunning => "the command has not terminated"@,
        Fault::MissingExitCode => "the runtime reported no exit code"@,
        Fault::Cancelled => "cancelled"@,
        Fault::JoinFailure => "an execution ended abnormally"@,
        Fault::Exhausted => "the job unexpectedly exhausted all its runners"@,
        Fault::Detached => "spawned a detached exec process"@,
        Fault::UnexpectedEvent => "unexpected event"@,
    }
}

/// The message of an error: the fault's description, followed by a colon,
/// a space and the detail where there is one.
pub open spec fn message_text(fault: Fault, detail: Seq<char>) -> Seq<char> {
    if detail.len() == 0 {
        fault_text(fault)
    } else {
        fault_text(fault) + ": "@ + detail
    }
}

/// An error: what went wrong, and the text it went wrong on.
#[derive(Clone, Debug, PartialEq, Eq)]
pub struct Error {
    pub fault: Fault,
    pub detail: String,
}

impl View for Error {
    type V = (Fault, Seq<char>);

    open spec fn view(&self) -> (Fault, Seq<char>) {
        (self.fault, self.detail@)
    }
}

impl Fault {
    /// The class of this fault.
    pub fn kind(&self) -> (r: ErrorKind)
        ensures
            r == kind_of(*self),
    {
        match self {
            Fault::MissingKind
            | Fault::UnsupportedKind
            | Fault::MissingAttribute
            | Fault::TooManyValues
            | Fault::InvalidBoolean
            | Fault::InvalidSchedule
            | Fault::MissingTarget
            | Fault::EmptyCommand
            | Fault::NoJobs
            | Fault::ConflictingKinds
            | Fault::ConflictingValues
            | Fault::ContainerListing
            | Fault::IniSyntax
            | Fault::UnsupportedHeader
            | Fault::PropertyOutsideSection
            | Fault::YamlSyntax
            | Fault::UnexpectedScalar
            | Fault::MisplacedSequence
            | Fault::TooDeep
            | Fault::UnexpectedMapping
            | Fault::TruncatedStream
            | Fault::InvalidEncoding => ErrorKind::Config,
            Fault::RuntimeApi
            | Fault::InvalidCommand
            | Fault::InvalidOutput
            | Fault::ReportNotEmpty
            | Fault::StillRunning
            | Fault::MissingExitCode => ErrorKind::Runtime,
            Fault::Cancelled => ErrorKind::Cancel,
            Fault::JoinFailure
            | Fault::Exhausted
            | Fault::Detached
            | Fault::UnexpectedEvent => ErrorKind::Fatal,
        }
    }

    /// A short description of this fault.
    pub fn text(&self) -> (r: &'static str)
        ensures
            r@ == fault_text(*self),
    {
        match self {
            Fault::MissingKind => "the job has no job kind",
            Fault::UnsupportedKind => "unsupported job type",
            Fault::MissingAttribute => "a required job key is not set",
            Fault::TooManyValues => "a job key does not have exactly one value",
            Fault::InvalidBoolean => "a boolean is neither true nor false",
            Fault::InvalidSchedule => "the schedule is no cron expression",
            Fault::MissingTarget => "a run job needs an image or a container",
            Fault::EmptyCommand => "the command is empty",
            Fault::NoJobs => "no valid job could be found",
            Fault::ConflictingKinds => "conflicting cron types",
            Fault::ConflictingValues => "a parameter set more than once has different values",
            Fault::ContainerListing => "failed to get container list",
            Fault::IniSyntax => "malformed ini line",
            Fault::UnsupportedHeader => "unsupported ini header",
            Fault::PropertyOutsideSection => "property without a section",
            Fault::YamlSyntax => "malformed yaml",
            Fault::UnexpectedScalar => "unexpected scalar, a mapping was expected",
            Fault::MisplacedSequence => "sequences may only hold the values of an attribute",
            Fault::TooDeep => "the yaml mapping is too deeply nested",
            Fault::UnexpectedMapping => "unexpected mapping, a job name was expected",
            Fault::TruncatedStream => "the yaml parser ended unexpectedly",
            Fault::InvalidEncoding => "the configuration is not valid UTF-8",
            Fault::RuntimeApi => "the container runtime reported an error",
            Fault::InvalidCommand => "the command has an unclosed quote",
            Fault::InvalidOutput => "the output is not valid UTF-8",
            Fault::ReportNotEmpty => "the report already contains a stream's data",
            Fault::StillRunning => "the command has not terminated",
            Fault::MissingExitCode => "the runtime reported no exit code",
            Fault::Cancelled => "cancelled",
            Fault::JoinFailure => "an execution ended abnormally",
            Fault::Exhausted => "the job unexpectedly exhausted all its runners",
            Fault::Detached => "spawned a detached exec process",
            Fault::UnexpectedEvent => "unexpected event",
        }
    }
}

impl Error {
    /// An error with the given fault and detail.
    pub fn new(fault: Fault, detail: &str) -> (r: Error)
        ensures
            r@ == (fault, detail@),
    {
        Error { fault, detail: String::from_str(detail) }
    }

    /// An error without detail.
    pub fn bare(fault: Fault) -> (r: Error)
        ensures
            r@ == (fault, Seq::<char>::empty()),
    {
        Error { fault, detail: String::new() }
    }

    /// The class of this error.
    pub fn kind(&self) -> (r: ErrorKind)
        ensures
            r == kind_of(self.fault),
    {
        self.fault.kind()
    }

    /// The message of this error, for a person to read.
    pub fn message(&self) -> (r: String)
        ensures
            r@ == message_text(self.fault, self.detail@),
    {
        let mut out = String::from_str(self.fault.text());
        if self.detail.as_str().unicode_len() > 0 {
            out.append(": ");
            out.append(self.detail.as_str());
        }
        out
    }
}

} // verus!
