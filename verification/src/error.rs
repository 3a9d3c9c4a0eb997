//! The ways in which establishing a connection fails.

use vstd::prelude::*;

verus! {

/// Why an operation failed.
#[derive(Debug, PartialEq, Eq)]
pub enum ErrorKind {
    /// The server cannot serve the deployment mode that the client asked for.
    IncompatibleServer { message: String },
    /// The credential cannot be used with its authentication mechanism.
    Authentication { message: String },
    /// An option cannot be written into a command.
    InvalidArgument { message: String },
    /// Sending a command or reading its reply failed.
    Io { message: String },
    /// The server answered a command with an error.
    Command { code: i32, message: String },
}

/// A failure, as handed to the caller.
#[derive(Debug, PartialEq, Eq)]
pub struct Error {
    pub kind: ErrorKind,
}

/// What an operation comes to: its value, or the failure.
pub type Result<T> = core::result::Result<T, Error>;

/// The mathematical value of an [`ErrorKind`].
pub enum ErrorKindView {
    IncompatibleServer { message: Seq<char> },
    Authentication { message: Seq<char> },
    InvalidArgument { message: Seq<char> },
    Io { message: Seq<char> },
    Command { code: i32, message: Seq<char> },
}

impl View for ErrorKind {
    type V = ErrorKindView;

    open spec fn view(&self) -> ErrorKindView {
        match self {
            ErrorKind::IncompatibleServer { message } => ErrorKindView::IncompatibleServer {
                message: message@,
            },
            ErrorKind::Authentication { message } => ErrorKindView::Authentication {
                message: message@,
            },
            ErrorKind::InvalidArgument { message } => ErrorKindView::InvalidArgument {
                message: message@,
            },
            ErrorKind::Io { message } => ErrorKindView::Io { message: message@ },
            ErrorKind::Command { code, message } => ErrorKindView::Command {
                code: *code,
                message: message@,
            },
        }
    }
}

impl View for Error {
    type V = ErrorKindView;

    open spec fn view(&self) -> ErrorKindView {
        self.kind@
    }
}

impl Clone for ErrorKind {
    fn clone(&self) -> (copy: ErrorKind)
        ensures
            copy == *self,
    {
        match self {
            ErrorKind::IncompatibleServer { message } => ErrorKind::IncompatibleServer {
                message: message.clone(),
            },
            ErrorKind::Authentication { message } => ErrorKind::Authentication {
                message: message.clone(),
            },
            ErrorKind::InvalidArgument { message } => ErrorKind::InvalidArgument {
                message: message.clone(),
            },
            ErrorKind::Io { message } => ErrorKind::Io { message: message.clone() },
            ErrorKind::Command { code, message } => ErrorKind::Command {
                code: *code,
                message: message.clone(),
            },
        }
    }
}

impl Clone for Error {
    fn clone(&self) -> (copy: Error)
        ensures
            copy == *self,
    {
        Error { kind: self.kind.clone() }
    }
}

impl Error {
    /// The failure of the given kind.
    pub fn new(kind: ErrorKind) -> (error: Error)
        ensures
            error.kind == kind,
    {
        Error { kind }
    }

    /// The explanation that the error carries.
    pub fn message(&self) -> (message: &str)
        ensures
            message@ == match self.kind {
                ErrorKind::IncompatibleServer { message } => message@,
                ErrorKind::Authentication { message } => message@,
                ErrorKind::InvalidArgument { message } => message@,
                ErrorKind::Io { message } => message@,
                ErrorKind::Command { message, .. } => message@,
            },
    {
        match &self.kind {
            ErrorKind::IncompatibleServer { message } => message.as_str(),
            ErrorKind::Authentication { message } => message.as_str(),
            ErrorKind::InvalidArgument { message } => message.as_str(),
            ErrorKind::Io { message } => message.as_str(),
            ErrorKind::Command { message, .. } => message.as_str(),
        }
    }
}

impl From<ErrorKind> for Error {
    fn from(kind: ErrorKind) -> (error: Error) {
        Error { kind }
    }
}

impl vstd::std_specs::convert::FromSpecImpl<ErrorKind> for Error {
    open spec fn obeys_from_spec() -> bool {
        true
    }

    open spec fn from_spec(kind: ErrorKind) -> Error {
        Error { kind }
    }
}

} // verus!
