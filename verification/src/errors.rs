//! Errors of the conversions between documents and values.

use vstd::prelude::*;

use crate::text::{concat, copy_string};

verus! {

/// An error found while converting a document into a value.
#[derive(Debug)]
pub enum ConversionError {
    /// A key of the document is missing.
    MissingKey { key: String },
    /// The value of a key has the wrong type.
    WrongType { key: String },
    /// A value that was not expected.
    UnexpectedValue { value: String },
    /// A value that is not correct.
    IncorrectValue { value: String },
}

impl ConversionError {
    /// A key of the document is missing.
    pub fn missing_key(key: String) -> (r: Self)
        ensures
            r == (ConversionError::MissingKey { key }),
    {
        ConversionError::MissingKey { key }
    }

    /// The value of a key has the wrong type.
    pub fn wrong_type(key: String) -> (r: Self)
        ensures
            r == (ConversionError::WrongType { key }),
    {
        ConversionError::WrongType { key }
    }

    /// A value has the wrong type and its key is not known.
    pub fn wrong_type_for_unknown_key() -> (r: Self)
        ensures
            r matches ConversionError::WrongType { key } && key@ == "<unknown>"@,
    {
        let key = copy_string("<unknown>");
        proof {
            reveal_strlit("<unknown>");
        }
        ConversionError::WrongType { key }
    }

    /// A value that was not expected.
    pub fn unexpected_value(value: String) -> (r: Self)
        ensures
            r == (ConversionError::UnexpectedValue { value }),
    {
        ConversionError::UnexpectedValue { value }
    }

    /// A value that is not correct.
    pub fn incorrect_value(value: String) -> (r: Self)
        ensures
            r == (ConversionError::IncorrectValue { value }),
    {
        ConversionError::IncorrectValue { value }
    }

    /// The message describing the error.
    pub open spec fn spec_message(self) -> Seq<char> {
        match self {
            ConversionError::MissingKey { key } => "Missing key: '"@ + key@ + "'"@,
            ConversionError::WrongType { key } => "Wrong type for key: '"@ + key@ + "'"@,
            ConversionError::UnexpectedValue { value } => "Unexpected value. Found: '"@ + value@
                + "'"@,
            ConversionError::IncorrectValue { value } => "Incorrect value: '"@ + value@ + "'"@,
        }
    }

    /// Returns the message describing the error.
    pub fn message(&self) -> (r: String)
        ensures
            r@ == self.spec_message(),
    {
        match self {
            ConversionError::MissingKey { key } => {
                let s = concat("Missing key: '", key.as_str());
                concat(s.as_str(), "'")
            },
            ConversionError::WrongType { key } => {
                let s = concat("Wrong type for key: '", key.as_str());
                concat(s.as_str(), "'")
            },
            ConversionError::UnexpectedValue { value } => {
                let s = concat("Unexpected value. Found: '", value.as_str());
                concat(s.as_str(), "'")
            },
            ConversionError::IncorrectValue { value } => {
                let s = concat("Incorrect value: '", value.as_str());
                concat(s.as_str(), "'")
            },
        }
    }
}

}
