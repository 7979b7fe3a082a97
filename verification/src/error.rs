use vstd::prelude::*;

verus! {

/// The failure taxonomy of the log decoder.
///
/// Every fallible step of the pipeline reports one of these variants instead
/// of aborting: the caller decides per line whether to skip or stop.
#[derive(Debug, Clone, PartialEq, Eq)]
pub enum JastorError {
    /// A file could not be opened or read; carries the underlying message.
    FileReadError(String),
    /// A line or a field does not match the shape the format promises.
    ParseError(String),
    /// An event tag that the registry does not know; carries the tag text.
    UnknownEvent(String),
    /// A recognized tag for which no assembly rule exists yet.
    UnhandledEvent(String),
    /// A domain value (a miss type, an aura type) outside the known set.
    UnknownValue(String),
    /// An index or window fell outside the tokenized field list.
    GenericError(String),
    /// A tag reached short-form assembly without being a short-form tag.
    InvalidSpecialEvent(String),
}

impl JastorError {
    /// The text carried by the error, whatever its variant.
    pub fn detail(&self) -> (r: &String)
        ensures
            r@ == self.detail_view(),
    {
        match self {
            JastorError::FileReadError(s) => s,
            JastorError::ParseError(s) => s,
            JastorError::UnknownEvent(s) => s,
            JastorError::UnhandledEvent(s) => s,
            JastorError::UnknownValue(s) => s,
            JastorError::GenericError(s) => s,
            JastorError::InvalidSpecialEvent(s) => s,
        }
    }

    /// The carried text, as a sequence of characters.
    pub open spec fn detail_view(self) -> Seq<char> {
        match self {
            JastorError::FileReadError(s) => s@,
            JastorError::ParseError(s) => s@,
            JastorError::UnknownEvent(s) => s@,
            JastorError::UnhandledEvent(s) => s@,
            JastorError::UnknownValue(s) => s@,
            JastorError::GenericError(s) => s@,
            JastorError::InvalidSpecialEvent(s) => s@,
        }
    }
}

} // verus!
