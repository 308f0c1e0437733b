//! What can go wrong, and what is said about it.
//!
//! Every failure is caught where it is found and turned into one line for
//! the error stream. None of them stops the controller: a failure in a
//! child ends that child with a non-zero status, and every other failure
//! ends the line, after which the controller asks for the next one.

use vstd::prelude::*;
use vstd::string::*;
use crate::syntax::SyntaxError;

verus! {

/// The four kinds of failure.
#[derive(Clone, Copy, Debug, PartialEq, Eq, Structural)]
pub enum FailureKind {
    /// A metacharacter is misplaced. Found before any process exists; the
    /// line is dropped.
    Syntax,
    /// A file cannot be opened or created, or a descriptor cannot be
    /// duplicated. Ends the one process that asked for it.
    Resource,
    /// The program cannot be found or run. Ends the child that was to
    /// become it.
    Launch,
    /// No process can be created, or a stage of a pipeline cannot be set
    /// up. No child is affected.
    System,
}

/// A failure of the engine.
#[derive(Clone, Copy, Debug, PartialEq, Eq)]
pub enum Failure<'a> {
    /// The validator rejected the line.
    Syntax(SyntaxError<'a>),
    /// The redirection operator closes the line: no path follows it.
    MissingPath(&'a str),
    /// A file named in a redirection cannot be opened or created; the text
    /// is the system's.
    File(&'a str),
    /// The file was opened but cannot be bound to the standard stream.
    Descriptor,
    /// The program of that name cannot be found or run.
    NotFound(&'a str),
    /// The process cannot be created; the text is the system's.
    Fork(&'a str),
    /// A stage of a pipeline cannot be set up; the text is the system's.
    Stage(&'a str),
}

impl<'a> Failure<'a> {
    /// The kind of the failure.
    pub open spec fn spec_kind(self) -> FailureKind {
        match self {
            Failure::Syntax(_) => FailureKind::Syntax,
            Failure::MissingPath(_) => FailureKind::Resource,
            Failure::File(_) => FailureKind::Resource,
            Failure::Descriptor => FailureKind::Resource,
            Failure::NotFound(_) => FailureKind::Launch,
            Failure::Fork(_) => FailureKind::System,
            Failure::Stage(_) => FailureKind::System,
        }
    }

    /// The diagnostic for the failure.
    pub open spec fn text(self) -> Seq<char> {
        match self {
            Failure::Syntax(error) => error.text(),
            Failure::MissingPath(operator) => "Error: missing file path for redirection `"@
                + operator@ + "`"@,
            Failure::File(reason) => "Error: "@ + reason@,
            Failure::Descriptor => "Error: failed to duplicate file descriptor"@,
            Failure::NotFound(program) => program@ + " not found"@,
            Failure::Fork(reason) => "Fork failed: "@ + reason@,
            Failure::Stage(reason) => reason@,
        }
    }

    /// The status with which the child ends that met the failure, or `None`
    /// for a failure that the controller meets itself and survives.
    pub open spec fn spec_exit_status(self) -> Option<i32> {
        match self.spec_kind() {
            FailureKind::Resource => Some(1i32),
            FailureKind::Launch => Some(1i32),
            _ => None,
        }
    }

    /// The kind of the failure.
    pub fn kind(&self) -> (kind: FailureKind)
        ensures
            kind == self.spec_kind(),
    {
        match self {
            Failure::Syntax(_) => FailureKind::Syntax,
            Failure::MissingPath(_) => FailureKind::Resource,
            Failure::File(_) => FailureKind::Resource,
            Failure::Descriptor => FailureKind::Resource,
            Failure::NotFound(_) => FailureKind::Launch,
            Failure::Fork(_) => FailureKind::System,
            Failure::Stage(_) => FailureKind::System,
        }
    }

    /// Renders the line that goes to the error stream.
    pub fn message(&self) -> (m: String)
        ensures
            m@ == self.text(),
    {
        match self {
            Failure::Syntax(error) => error.message(),
            Failure::MissingPath(operator) => {
                let mut m = "Error: missing file path for redirection `".to_owned();
                m.append(operator);
                m.append("`");
                m
            },
            Failure::File(reason) => {
                let mut m = "Error: ".to_owned();
                m.append(reason);
                m
            },
            Failure::Descriptor => "Error: failed to duplicate file descriptor".to_owned(),
            Failure::NotFound(program) => {
                let mut m = (*program).to_owned();
                m.append(" not found");
                m
            },
            Failure::Fork(reason) => {
                let mut m = "Fork failed: ".to_owned();
                m.append(reason);
                m
            },
            Failure::Stage(reason) => (*reason).to_owned(),
        }
    }

    /// The status with which the child that met the failure must end at
    /// once, or `None` if the failure is met by the controller, which goes
    /// on to the next line.
    pub fn exit_status(&self) -> (status: Option<i32>)
        ensures
            status == self.spec_exit_status(),
            status matches Some(code) ==> code != 0,
    {
        match self {
            Failure::MissingPath(_) => Some(1),
            Failure::File(_) => Some(1),
            Failure::Descriptor => Some(1),
            Failure::NotFound(_) => Some(1),
            _ => None,
        }
    }
}

} // verus!
