//! Errors.
//!
//! Every failure mode is a variant of its own that carries what a caller needs
//! to react to it.

use vstd::prelude::*;
use vstd::string::*;

use crate::capability::Capability;
use crate::runtime::BoxState;
use crate::text;

verus! {

/// Errors returned by this crate.
#[derive(Debug, PartialEq, Eq)]
#[non_exhaustive]
pub enum Error {
    /// An identifier was empty, over-long, or contained characters outside the
    /// permitted `[A-Za-z0-9._-]` set.
    InvalidIdentifier {
        /// What the identifier was meant to name, such as `box id`.
        kind: &'static str,
        /// The rejected text, so a caller can report it back to a user.
        value: String,
    },
    /// A sandbox was asked for something it does not implement.
    Unsupported {
        /// The sandbox that refused the request.
        sandbox: String,
        /// The capability the caller needed.
        capability: Capability,
    },
    /// A resource limit was zero, and every limit must be positive to be
    /// meaningful.
    ZeroResourceLimit {
        /// Which limit was zero, such as `memory_bytes`.
        limit: &'static str,
    },
    /// A box was referenced that does not exist.
    UnknownBox {
        /// The identifier that did not resolve.
        id: String,
    },
    /// A snapshot was referenced that the sandbox does not know about.
    UnknownSnapshot {
        /// The identifier that did not resolve.
        id: String,
    },
    /// A record or a caller named a sandbox that this build does not have.
    UnknownSandbox {
        /// The name that did not resolve.
        name: String,
    },
    /// A box was asked to do something its current state does not allow.
    InvalidState {
        /// The box whose state blocked the request.
        id: String,
        /// The state the box is actually in.
        actual: BoxState,
        /// The state the operation required.
        expected: BoxState,
    },
    /// A box with this identifier is already recorded.
    DuplicateBox {
        /// The identifier that is taken.
        id: String,
    },
    /// A command named no program to run.
    EmptyCommand {
        /// Who was asked to run it.
        sandbox: String,
    },
    /// The operating system refused something.
    Io {
        /// What was attempted.
        operation: &'static str,
        /// What the operating system said.
        message: String,
    },
    /// Box records could not be located, read or written.
    Store {
        /// What was attempted.
        operation: &'static str,
        /// What went wrong.
        message: String,
    },
    /// A backend's own command failed.
    Backend {
        /// The backend that failed.
        sandbox: String,
        /// What was attempted.
        operation: &'static str,
        /// What the backend said.
        message: String,
    },
}

/// What an [`Error`] says, with every string as its characters.
pub enum ErrorView {
    InvalidIdentifier { kind: Seq<char>, value: Seq<char> },
    Unsupported { sandbox: Seq<char>, capability: Capability },
    ZeroResourceLimit { limit: Seq<char> },
    UnknownBox { id: Seq<char> },
    UnknownSnapshot { id: Seq<char> },
    UnknownSandbox { name: Seq<char> },
    InvalidState { id: Seq<char>, actual: BoxState, expected: BoxState },
    DuplicateBox { id: Seq<char> },
    EmptyCommand { sandbox: Seq<char> },
    Io { operation: Seq<char>, message: Seq<char> },
    Store { operation: Seq<char>, message: Seq<char> },
    Backend { sandbox: Seq<char>, operation: Seq<char>, message: Seq<char> },
}

impl View for Error {
    type V = ErrorView;

    open spec fn view(&self) -> ErrorView {
        match *self {
            Error::InvalidIdentifier { kind, value } => ErrorView::InvalidIdentifier {
                kind: kind@,
                value: value@,
            },
            Error::Unsupported { sandbox, capability } => ErrorView::Unsupported {
                sandbox: sandbox@,
                capability,
            },
            Error::ZeroResourceLimit { limit } => ErrorView::ZeroResourceLimit { limit: limit@ },
            Error::UnknownBox { id } => ErrorView::UnknownBox { id: id@ },
            Error::UnknownSnapshot { id } => ErrorView::UnknownSnapshot { id: id@ },
            Error::UnknownSandbox { name } => ErrorView::UnknownSandbox { name: name@ },
            Error::InvalidState { id, actual, expected } => ErrorView::InvalidState {
                id: id@,
                actual,
                expected,
            },
            Error::DuplicateBox { id } => ErrorView::DuplicateBox { id: id@ },
            Error::EmptyCommand { sandbox } => ErrorView::EmptyCommand { sandbox: sandbox@ },
            Error::Io { operation, message } => ErrorView::Io {
                operation: operation@,
                message: message@,
            },
            Error::Store { operation, message } => ErrorView::Store {
                operation: operation@,
                message: message@,
            },
            Error::Backend { sandbox, operation, message } => ErrorView::Backend {
                sandbox: sandbox@,
                operation: operation@,
                message: message@,
            },
        }
    }
}

/// A rejected name.
pub open spec fn invalid_name(kind: Seq<char>, value: Seq<char>) -> ErrorView {
    ErrorView::InvalidIdentifier { kind, value }
}

/// A refused capability.
pub open spec fn unsupported(sandbox: Seq<char>, capability: Capability) -> ErrorView {
    ErrorView::Unsupported { sandbox, capability }
}

impl ErrorView {
    /// The message that reports the error to a user.
    pub open spec fn text(self) -> Seq<char> {
        match self {
            ErrorView::InvalidIdentifier { kind, value } => "identifier "@ + text::debug_text(value)
                + " is not a valid "@ + kind,
            ErrorView::Unsupported { sandbox, capability } => "sandbox "@ + sandbox
                + " does not support "@ + capability.text(),
            ErrorView::ZeroResourceLimit { limit } => "resource limit "@ + limit
                + " must be greater than zero"@,
            ErrorView::UnknownBox { id } => "no box with id "@ + id,
            ErrorView::UnknownSnapshot { id } => "no snapshot with id "@ + id,
            ErrorView::UnknownSandbox { name } => "no sandbox named "@ + name,
            ErrorView::InvalidState { id, actual, expected } => "box "@ + id + " is "@
                + actual.text() + " but must be "@ + expected.text() + " for this operation"@,
            ErrorView::DuplicateBox { id } => "a box with id "@ + id + " already exists"@,
            ErrorView::EmptyCommand { sandbox } => sandbox + " was given no program to run"@,
            ErrorView::Io { operation, message } => "could not "@ + operation + ": "@ + message,
            ErrorView::Store { operation, message } => "could not "@ + operation
                + " the box store: "@ + message,
            ErrorView::Backend { sandbox, operation, message } => sandbox + " could not "@
                + operation + ": "@ + message,
        }
    }
}

impl Error {
    /// An error of the operating system, with what it said.
    pub fn io(operation: &'static str, message: &str) -> (error: Error)
        ensures
            error@ == (ErrorView::Io { operation: operation@, message: message@ }),
    {
        Error::Io { operation, message: message.to_owned() }
    }

    /// The message that reports the error to a user.
    pub fn to_string(&self) -> (message: String)
        ensures
            message@ == self@.text(),
    {
        match self {
            Error::InvalidIdentifier { kind, value } => {
                let shown: String = text::show_debug(value.as_str());
                text::concat3("identifier ", shown.as_str(), " is not a valid ").concat(kind)
            },
            Error::Unsupported { sandbox, capability } => {
                let named: String = capability.to_string();
                text::concat3("sandbox ", sandbox.as_str(), " does not support ").concat(
                    named.as_str(),
                )
            },
            Error::ZeroResourceLimit { limit } => text::concat3(
                "resource limit ",
                limit,
                " must be greater than zero",
            ),
            Error::UnknownBox { id } => "no box with id ".to_owned().concat(id.as_str()),
            Error::UnknownSnapshot { id } => "no snapshot with id ".to_owned().concat(id.as_str()),
            Error::UnknownSandbox { name } => "no sandbox named ".to_owned().concat(name.as_str()),
            Error::InvalidState { id, actual, expected } => {
                let is: String = actual.to_string();
                let must: String = expected.to_string();
                text::concat5("box ", id.as_str(), " is ", is.as_str(), " but must be ").concat(
                    must.as_str(),
                ).concat(" for this operation")
            },
            Error::DuplicateBox { id } => text::concat3(
                "a box with id ",
                id.as_str(),
                " already exists",
            ),
            Error::EmptyCommand { sandbox } => sandbox.clone().concat(" was given no program to run"),
            Error::Io { operation, message } => text::concat3("could not ", operation, ": ").concat(
                message.as_str(),
            ),
            Error::Store { operation, message } => text::concat3(
                "could not ",
                operation,
                " the box store: ",
            ).concat(message.as_str()),
            Error::Backend { sandbox, operation, message } => text::concat5(
                sandbox.as_str(),
                " could not ",
                operation,
                ": ",
                message.as_str(),
            ),
        }
    }
}

impl Clone for Error {
    fn clone(&self) -> (copy: Self)
        ensures
            copy@ == self@,
    {
        match self {
            Error::InvalidIdentifier { kind, value } => Error::InvalidIdentifier {
                kind: *kind,
                value: value.clone(),
            },
            Error::Unsupported { sandbox, capability } => Error::Unsupported {
                sandbox: sandbox.clone(),
                capability: *capability,
            },
            Error::ZeroResourceLimit { limit } => Error::ZeroResourceLimit { limit: *limit },
            Error::UnknownBox { id } => Error::UnknownBox { id: id.clone() },
            Error::UnknownSnapshot { id } => Error::UnknownSnapshot { id: id.clone() },
            Error::UnknownSandbox { name } => Error::UnknownSandbox { name: name.clone() },
            Error::InvalidState { id, actual, expected } => Error::InvalidState {
                id: id.clone(),
                actual: *actual,
                expected: *expected,
            },
            Error::DuplicateBox { id } => Error::DuplicateBox { id: id.clone() },
            Error::EmptyCommand { sandbox } => Error::EmptyCommand { sandbox: sandbox.clone() },
            Error::Io { operation, message } => Error::Io {
                operation: *operation,
                message: message.clone(),
            },
            Error::Store { operation, message } => Error::Store {
                operation: *operation,
                message: message.clone(),
            },
            Error::Backend { sandbox, operation, message } => Error::Backend {
                sandbox: sandbox.clone(),
                operation: *operation,
                message: message.clone(),
            },
        }
    }
}

/// Every error is said in words that hold all that it carries.
pub proof fn an_error_says_all_it_carries(
    first: Seq<char>,
    second: Seq<char>,
    third: Seq<char>,
    capability: Capability,
    actual: BoxState,
    expected: BoxState,
)
    ensures
        (ErrorView::InvalidIdentifier { kind: first, value: second }).text() == "identifier "@
            + text::debug_text(second) + " is not a valid "@ + first,
        (ErrorView::Unsupported { sandbox: first, capability }).text() == "sandbox "@ + first
            + " does not support "@ + capability.text(),
        (ErrorView::ZeroResourceLimit { limit: first }).text() == "resource limit "@ + first
            + " must be greater than zero"@,
        (ErrorView::UnknownBox { id: first }).text() == "no box with id "@ + first,
        (ErrorView::UnknownSnapshot { id: first }).text() == "no snapshot with id "@ + first,
        (ErrorView::UnknownSandbox { name: first }).text() == "no sandbox named "@ + first,
        (ErrorView::InvalidState { id: first, actual, expected }).text() == "box "@ + first
            + " is "@ + actual.text() + " but must be "@ + expected.text()
            + " for this operation"@,
        (ErrorView::DuplicateBox { id: first }).text() == "a box with id "@ + first
            + " already exists"@,
        (ErrorView::EmptyCommand { sandbox: first }).text() == first
            + " was given no program to run"@,
        (ErrorView::Io { operation: first, message: second }).text() == "could not "@ + first
            + ": "@ + second,
        (ErrorView::Store { operation: first, message: second }).text() == "could not "@ + first
            + " the box store: "@ + second,
        (ErrorView::Backend { sandbox: first, operation: second, message: third }).text() == first
            + " could not "@ + second + ": "@ + third,
        BoxState::Ready.text() == "ready"@,
        BoxState::Stopped.text() == "stopped"@,
{
}

/// An error reads as what it carries.
pub proof fn an_error_reads_as_what_it_carries(error: Error)
    ensures
        error matches Error::InvalidIdentifier { kind, value } ==> error@ == (
        ErrorView::InvalidIdentifier { kind: kind@, value: value@ }),
        error matches Error::Unsupported { sandbox, capability } ==> error@ == (
        ErrorView::Unsupported { sandbox: sandbox@, capability }),
        error matches Error::ZeroResourceLimit { limit } ==> error@ == (
        ErrorView::ZeroResourceLimit { limit: limit@ }),
        error matches Error::UnknownBox { id } ==> error@ == (ErrorView::UnknownBox { id: id@ }),
        error matches Error::UnknownSnapshot { id } ==> error@ == (ErrorView::UnknownSnapshot {
            id: id@,
        }),
        error matches Error::UnknownSandbox { name } ==> error@ == (ErrorView::UnknownSandbox {
            name: name@,
        }),
        error matches Error::InvalidState { id, actual, expected } ==> error@ == (
        ErrorView::InvalidState { id: id@, actual, expected }),
        error matches Error::DuplicateBox { id } ==> error@ == (ErrorView::DuplicateBox {
            id: id@,
        }),
        error matches Error::EmptyCommand { sandbox } ==> error@ == (ErrorView::EmptyCommand {
            sandbox: sandbox@,
        }),
        error matches Error::Io { operation, message } ==> error@ == (ErrorView::Io {
            operation: operation@,
            message: message@,
        }),
        error matches Error::Store { operation, message } ==> error@ == (ErrorView::Store {
            operation: operation@,
            message: message@,
        }),
        error matches Error::Backend { sandbox, operation, message } ==> error@ == (
        ErrorView::Backend { sandbox: sandbox@, operation: operation@, message: message@ }),
{
}

} // verus!
