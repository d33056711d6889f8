//! Errors of the command line and of the data source.

use vstd::prelude::*;
use vstd::string::StringExecFns;

verus! {

/// A word or an action that cannot be turned into what was asked for.
#[derive(Debug, PartialEq, Eq)]
pub enum ConvertError {
    /// The action stands for no line-edit request.
    ConvertError,
    /// The word names no kind of command.
    InputTypeError(String),
}

impl ConvertError {
    /// The text shown to the user for this error.
    pub open spec fn text(&self) -> Seq<char> {
        match self {
            ConvertError::ConvertError => "Convertion error: report upstream"@,
            ConvertError::InputTypeError(word) => "Not a valid command: "@ + word@,
        }
    }

    /// The text shown to the user for this error.
    pub fn to_string(&self) -> (message: String)
        ensures
            message@ == self.text(),
    {
        match self {
            ConvertError::ConvertError => String::from_str("Convertion error: report upstream"),
            ConvertError::InputTypeError(word) => String::from_str("Not a valid command: ").concat(
                word.as_str(),
            ),
        }
    }
}

/// Why a command line could not be parsed.
#[derive(Debug, PartialEq, Eq)]
pub enum ParseError {
    /// The line holds no word at all.
    MissingKind,
    /// The first word of the line, which names no kind of command.
    UnknownKind(String),
}

impl ParseError {
    /// The text shown to the user for this error.
    pub open spec fn text(&self) -> Seq<char> {
        match self {
            ParseError::MissingKind => "Missing kind"@,
            ParseError::UnknownKind(word) => "Not a valid command: "@ + word@,
        }
    }

    /// The text shown to the user for this error.
    pub fn to_string(&self) -> (message: String)
        ensures
            message@ == self.text(),
    {
        match self {
            ParseError::MissingKind => String::from_str("Missing kind"),
            ParseError::UnknownKind(word) => String::from_str("Not a valid command: ").concat(
                word.as_str(),
            ),
        }
    }
}

/// A failure reported by the data source for a fetch, a query or a statement.
#[derive(Debug, PartialEq, Eq)]
pub struct DataSourceError {
    /// What the data source said.
    pub message: String,
}

impl DataSourceError {
    /// An error with the given message.
    pub fn new(message: String) -> (error: DataSourceError)
        ensures
            error.message@ == message@,
    {
        DataSourceError { message }
    }

    /// The text shown to the user for this error.
    pub fn to_string(&self) -> (message: String)
        ensures
            message@ == self.message@,
    {
        self.message.clone()
    }
}

} // verus!
