//! Errors with which the aggregate rejects a command.

use vstd::prelude::*;
use vstd::string::StringExecFns;

verus! {

/// A rejected command.
#[derive(Debug)]
pub enum Error {
    /// The aggregate has never been started.
    NotFound { entity: String },
    /// The aggregate exists already.
    Uniqueness { field: String },
    /// The aggregate is soft-deleted.
    Forbidden,
    /// Reserved: no command produces it.
    InvalidStateTransition { from: String, to: String },
    /// A business rule is violated.
    Validation { message: String },
}

/// Mathematical model of an [`Error`].
pub enum ErrorModel {
    NotFound { entity: Seq<char> },
    Uniqueness { field: Seq<char> },
    Forbidden,
    InvalidStateTransition { from: Seq<char>, to: Seq<char> },
    Validation { message: Seq<char> },
}

impl View for Error {
    type V = ErrorModel;

    open spec fn view(&self) -> ErrorModel {
        match *self {
            Error::NotFound { entity } => ErrorModel::NotFound { entity: entity@ },
            Error::Uniqueness { field } => ErrorModel::Uniqueness { field: field@ },
            Error::Forbidden => ErrorModel::Forbidden,
            Error::InvalidStateTransition { from, to } => ErrorModel::InvalidStateTransition {
                from: from@,
                to: to@,
            },
            Error::Validation { message } => ErrorModel::Validation { message: message@ },
        }
    }
}

impl ErrorModel {
    /// The text that describes the error to a caller.
    pub open spec fn message(self) -> Seq<char> {
        match self {
            ErrorModel::NotFound { entity } => "Entity not found: "@ + entity,
            ErrorModel::Uniqueness { field } => "Uniqueness conflict: "@ + field,
            ErrorModel::Forbidden => "Forbidden action"@,
            ErrorModel::InvalidStateTransition { from, to } => "Invalid state transition from "@
                + from + " to "@ + to,
            ErrorModel::Validation { message } => "Validation error: "@ + message,
        }
    }
}

impl Error {
    /// Renders the error as text.
    pub fn message(&self) -> (text: String)
        ensures
            text@ == self@.message(),
    {
        match self {
            Error::NotFound { entity } => String::from_str("Entity not found: ").concat(
                entity.as_str(),
            ),
            Error::Uniqueness { field } => String::from_str("Uniqueness conflict: ").concat(
                field.as_str(),
            ),
            Error::Forbidden => String::from_str("Forbidden action"),
            Error::InvalidStateTransition { from, to } => String::from_str(
                "Invalid state transition from ",
            ).concat(from.as_str()).concat(" to ").concat(to.as_str()),
            Error::Validation { message } => String::from_str("Validation error: ").concat(
                message.as_str(),
            ),
        }
    }
}

} // verus!
