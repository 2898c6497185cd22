//! The errors of typed and prefixed identifiers.

use vstd::prelude::*;

verus! {

/// Why an identifier could not be built from a UUID or from text.
#[derive(Debug, Clone, PartialEq, Eq)]
pub enum TypedUuidError {
    /// Byte 0 of the UUID is not the discriminant of any category.
    InvalidDiscriminant { found: u8 },
    /// The UUID part of the text is malformed; carries the parser's message.
    ParseError(String),
    /// The prefix is not the one of the category that the UUID encodes.
    UnknownPrefix { prefix: String },
    /// The text has no separator between prefix and UUID; carries a message.
    InvalidFormat(String),
}

/// An error as contracts speak of it: its texts are sequences of characters.
pub enum ErrorView {
    InvalidDiscriminant { found: u8 },
    ParseError(Seq<char>),
    UnknownPrefix { prefix: Seq<char> },
    InvalidFormat(Seq<char>),
}

/// The outcome of reading an identifier, as contracts speak of it: the
/// sixteen bytes of the identifier, or the error.
pub type Outcome = Result<Seq<u8>, ErrorView>;

/// The outcome that is an identifier with the given bytes.
pub open spec fn identifier(b: Seq<u8>) -> Outcome {
    Ok(b)
}

/// The outcome that is the given error.
pub open spec fn refusal(e: ErrorView) -> Outcome {
    Err(e)
}

impl View for TypedUuidError {
    type V = ErrorView;

    open spec fn view(&self) -> ErrorView {
        match *self {
            TypedUuidError::InvalidDiscriminant { found } => ErrorView::InvalidDiscriminant {
                found,
            },
            TypedUuidError::ParseError(detail) => ErrorView::ParseError(detail@),
            TypedUuidError::UnknownPrefix { prefix } => ErrorView::UnknownPrefix {
                prefix: prefix@,
            },
            TypedUuidError::InvalidFormat(detail) => ErrorView::InvalidFormat(detail@),
        }
    }
}

} // verus!
