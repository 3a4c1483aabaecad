use vstd::prelude::*;
use vstd::string::StringExecFns;

verus! {

/// What can go wrong between the native object system and its typed view.
#[derive(Debug, PartialEq, Eq)]
pub enum XPCError {
    /// A value was asked for as a primitive that its runtime tag does not name.
    TypeMismatch,
    /// An object of the wrong runtime tag stood where a container was expected.
    TypeError,
    /// The bytes of a native string are not valid text.
    EncodingError,
    /// A native dictionary could not be walked or built in full.
    DictionaryError,
    /// A native array could not be walked or built in full.
    ArrayError,
    /// Virtual memory could not be had; carries the platform's description.
    IOError(String),
    /// A reply lacks the key that the request was made for.
    NotFound,
    /// The daemon refused a request; carries its description.
    CommandError(String),
}

impl Clone for XPCError {
    fn clone(&self) -> (r: Self)
        ensures
            r == *self,
    {
        match self {
            XPCError::TypeMismatch => XPCError::TypeMismatch,
            XPCError::TypeError => XPCError::TypeError,
            XPCError::EncodingError => XPCError::EncodingError,
            XPCError::DictionaryError => XPCError::DictionaryError,
            XPCError::ArrayError => XPCError::ArrayError,
            XPCError::IOError(text) => XPCError::IOError(text.clone()),
            XPCError::NotFound => XPCError::NotFound,
            XPCError::CommandError(text) => XPCError::CommandError(text.clone()),
        }
    }
}

impl XPCError {
    /// The text that describes the error.
    pub open spec fn spec_message(self) -> Seq<char> {
        match self {
            XPCError::TypeMismatch => "value does not have the requested type"@,
            XPCError::TypeError => "object does not have the expected type"@,
            XPCError::EncodingError => "string is not valid text"@,
            XPCError::DictionaryError => "dictionary could not be read"@,
            XPCError::ArrayError => "array could not be read"@,
            XPCError::IOError(text) => text@,
            XPCError::NotFound => "not found"@,
            XPCError::CommandError(text) => text@,
        }
    }

    /// The text that describes the error, for display.
    pub fn message(&self) -> (r: String)
        ensures
            r@ == self.spec_message(),
    {
        match self {
            XPCError::TypeMismatch => String::from_str("value does not have the requested type"),
            XPCError::TypeError => String::from_str("object does not have the expected type"),
            XPCError::EncodingError => String::from_str("string is not valid text"),
            XPCError::DictionaryError => String::from_str("dictionary could not be read"),
            XPCError::ArrayError => String::from_str("array could not be read"),
            XPCError::IOError(text) => text.clone(),
            XPCError::NotFound => String::from_str("not found"),
            XPCError::CommandError(text) => text.clone(),
        }
    }
}

} // verus!
