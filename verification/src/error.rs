use vstd::prelude::*;
use crate::status::internal_error_status_text;

verus! {

/// The reasons for which the library refuses a request.
#[derive(Clone, Copy, Debug, PartialEq, Eq, Structural)]
pub enum ErrorKind {
    UnsupportedMimeType,
    RowObjectNotFound,
    RowNotFound,
    RootItemCannotBeChanged,
    RootItemNotFound,
    RootItemCannotRemove,
    CannotChangeRelationToDescendants,
    ParentItemNotFound,
}

impl ErrorKind {
    /// The text that a client sees for this kind of error.
    pub open spec fn text(self) -> Seq<char> {
        match self {
            ErrorKind::UnsupportedMimeType => "Unsupported mime type."@,
            ErrorKind::RowObjectNotFound => "Row Object was not found."@,
            ErrorKind::RowNotFound => "Row not found."@,
            ErrorKind::RootItemCannotBeChanged => "Root item cannot be changed."@,
            ErrorKind::RootItemNotFound => "Root item was not found."@,
            ErrorKind::RootItemCannotRemove => "Root Item cannot remove."@,
            ErrorKind::CannotChangeRelationToDescendants => "Cannot change relation to descendants"@,
            ErrorKind::ParentItemNotFound => "Parent item was not found."@,
        }
    }

    pub fn message(&self) -> (r: String)
        ensures
            r@ == self.text(),
    {
        match self {
            ErrorKind::UnsupportedMimeType => String::from_str("Unsupported mime type."),
            ErrorKind::RowObjectNotFound => String::from_str("Row Object was not found."),
            ErrorKind::RowNotFound => String::from_str("Row not found."),
            ErrorKind::RootItemCannotBeChanged => String::from_str("Root item cannot be changed."),
            ErrorKind::RootItemNotFound => String::from_str("Root item was not found."),
            ErrorKind::RootItemCannotRemove => String::from_str("Root Item cannot remove."),
            ErrorKind::CannotChangeRelationToDescendants => String::from_str(
                "Cannot change relation to descendants",
            ),
            ErrorKind::ParentItemNotFound => String::from_str("Parent item was not found."),
        }
    }
}

/// The error that a handler answers with; it carries the reason it was raised.
#[derive(Clone, Copy, Debug, PartialEq, Eq, Structural)]
pub struct AppError(pub ErrorKind);

impl AppError {
    /// The message of the error body sent to a client: `Internal Server Error: ` and the reason.
    pub open spec fn response_text(self) -> Seq<char> {
        "Internal Server Error: "@ + self.0.text()
    }

    /// The status line of the error body: `500 Internal Server Error`.
    pub fn response_status(&self) -> (r: String)
        ensures
            r@ == "500 Internal Server Error"@,
    {
        internal_error_status_text()
    }

    pub fn response_message(&self) -> (r: String)
        ensures
            r@ == self.response_text(),
    {
        let reason = self.0.message();
        String::from_str("Internal Server Error: ").concat(reason.as_str())
    }
}

} // verus!
