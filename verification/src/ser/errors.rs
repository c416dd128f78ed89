//! What can go wrong while a value is encoded.

use crate::text::{decimal, decimal_text};
use vstd::prelude::*;
use vstd::string::StringExecFns;

verus! {

/// Error during serialization.
#[derive(Debug, PartialEq, Eq)]
#[allow(inconsistent_fields)]
pub enum SerializationError {
    /// Custom error message.
    Custom {
        /// The message of the custom error.
        message: String,
    },
    /// Failure to serialize a part of a larger value.
    Failure {
        /// A description of what was being serialized.
        what: String,
        /// The error that occurred inside it.
        cause: Box<SerializationError>,
    },
    /// The sink refused the bytes.
    IoError {
        /// A description of what was being serialized.
        what: String,
        /// What the sink reported.
        cause: String,
    },
    /// Map types are not supported by XDR.
    MapNotSupported,
    /// Opaque data with more bytes than a 32-bit length can count.
    OpaqueTooLong {
        /// The length of the data.
        length: usize,
    },
    /// A sequence or tuple was used after it had failed.
    FatalSequenceState {
        /// The name of the type being serialized.
        name: String,
    },
    /// A struct was used after it had failed.
    FatalStructState {
        /// The name of the type being serialized.
        name: String,
    },
    /// A sequence with more elements than a 32-bit length can count.
    SequenceTooLong {
        /// The length of the sequence.
        length: usize,
    },
    /// Sequences with unknown lengths are not supported.
    SequenceUnknownLength,
    /// Only ASCII strings can be serialized.
    StringNotAscii {
        /// The string that is not ASCII.
        string: String,
    },
    /// A string with more bytes than a 32-bit length can count.
    StringTooLong {
        /// The string that is too long.
        string: String,
    },
}

/// The mathematical value of a [`SerializationError`].
#[allow(inconsistent_fields)]
pub enum SpecSerializationError {
    Custom { message: Seq<char> },
    Failure { what: Seq<char>, cause: Box<SpecSerializationError> },
    IoError { what: Seq<char>, cause: Seq<char> },
    MapNotSupported,
    OpaqueTooLong { length: usize },
    FatalSequenceState { name: Seq<char> },
    FatalStructState { name: Seq<char> },
    SequenceTooLong { length: usize },
    SequenceUnknownLength,
    StringNotAscii { string: Seq<char> },
    StringTooLong { string: Seq<char> },
}

impl SpecSerializationError {
    /// The error as a reader sees it: each description of a failure, from
    /// the outermost inwards, then the cause, joined by a colon and a space.
    pub open spec fn text(self) -> Seq<char>
        decreases self,
    {
        match self {
            SpecSerializationError::Custom { message } => "custom error message: "@ + message,
            SpecSerializationError::Failure { what, cause } => what + ": "@ + cause.text(),
            SpecSerializationError::IoError { what, cause } => "IO error while serializing "@
                + what + ": "@ + cause,
            SpecSerializationError::MapNotSupported => "XDR does not support a map type"@,
            SpecSerializationError::OpaqueTooLong { length } => "opaque data is too long: "@
                + decimal_text(length as nat) + " bytes"@,
            SpecSerializationError::FatalSequenceState { name } =>
                "fatal failure while serializing "@ + name,
            SpecSerializationError::FatalStructState { name } =>
                "fatal failure while serializing struct: "@ + name,
            SpecSerializationError::SequenceTooLong { length } =>
                "sequence is too long to be serialized: "@ + decimal_text(length as nat),
            SpecSerializationError::SequenceUnknownLength =>
                "can't serialize sequence with unknown length"@,
            SpecSerializationError::StringNotAscii { string } => "string is not ASCII encoded: "@
                + string,
            SpecSerializationError::StringTooLong { string } => "string is too long: "@ + string,
        }
    }

    /// Number of failures that wrap the cause.
    pub open spec fn depth(self) -> nat
        decreases self,
    {
        match self {
            SpecSerializationError::Failure { what, cause } => 1 + cause.depth(),
            _ => 0,
        }
    }
}

impl View for SerializationError {
    type V = SpecSerializationError;

    open spec fn view(&self) -> SpecSerializationError {
        self.model()
    }
}

impl SerializationError {
    /// The mathematical value of the error.
    pub open spec fn model(&self) -> SpecSerializationError
        decreases self,
    {
        match self {
            SerializationError::Custom { message } => SpecSerializationError::Custom {
                message: message@,
            },
            SerializationError::Failure { what, cause } => SpecSerializationError::Failure {
                what: what@,
                cause: Box::new(cause.model()),
            },
            SerializationError::IoError { what, cause } => SpecSerializationError::IoError {
                what: what@,
                cause: cause@,
            },
            SerializationError::MapNotSupported => SpecSerializationError::MapNotSupported,
            SerializationError::OpaqueTooLong { length } => SpecSerializationError::OpaqueTooLong {
                length: *length,
            },
            SerializationError::FatalSequenceState { name } =>
                SpecSerializationError::FatalSequenceState { name: name@ },
            SerializationError::FatalStructState { name } =>
                SpecSerializationError::FatalStructState { name: name@ },
            SerializationError::SequenceTooLong { length } =>
                SpecSerializationError::SequenceTooLong { length: *length },
            SerializationError::SequenceUnknownLength =>
                SpecSerializationError::SequenceUnknownLength,
            SerializationError::StringNotAscii { string } => SpecSerializationError::StringNotAscii {
                string: string@,
            },
            SerializationError::StringTooLong { string } => SpecSerializationError::StringTooLong {
                string: string@,
            },
        }
    }

    /// Wraps `cause` in a failure that says what was being serialized.
    pub fn failure(what: &str, cause: SerializationError) -> (error: Self)
        ensures
            error@ == (SpecSerializationError::Failure { what: what@, cause: Box::new(cause@) }),
    {
        SerializationError::Failure { what: String::from_str(what), cause: Box::new(cause) }
    }

    /// An error of the sink, with what was being serialized.
    pub fn io_error(what: &str, cause: &str) -> (error: Self)
        ensures
            error@ == (SpecSerializationError::IoError { what: what@, cause: cause@ }),
    {
        SerializationError::IoError { what: String::from_str(what), cause: String::from_str(cause) }
    }

    /// An error with a message of the caller's own.
    pub fn custom(message: &str) -> (error: Self)
        ensures
            error@ == (SpecSerializationError::Custom { message: message@ }),
    {
        SerializationError::Custom { message: String::from_str(message) }
    }

    /// The error as text: each description of a failure, from the outermost
    /// inwards, then the cause, joined by a colon and a space.
    pub fn to_string(&self) -> (text: String)
        ensures
            text@ == self@.text(),
        decreases self,
    {
        match self {
            SerializationError::Custom { message } => String::from_str(
                "custom error message: ",
            ).concat(message.as_str()),
            SerializationError::Failure { what, cause } => {
                let inner = cause.to_string();
                String::from_str(what.as_str()).concat(": ").concat(inner.as_str())
            },
            SerializationError::IoError { what, cause } => String::from_str(
                "IO error while serializing ",
            ).concat(what.as_str()).concat(": ").concat(cause.as_str()),
            SerializationError::MapNotSupported => String::from_str(
                "XDR does not support a map type",
            ),
            SerializationError::OpaqueTooLong { length } => {
                let number = decimal(*length as u64);
                String::from_str("opaque data is too long: ").concat(number.as_str()).concat(
                    " bytes",
                )
            },
            SerializationError::FatalSequenceState { name } => String::from_str(
                "fatal failure while serializing ",
            ).concat(name.as_str()),
            SerializationError::FatalStructState { name } => String::from_str(
                "fatal failure while serializing struct: ",
            ).concat(name.as_str()),
            SerializationError::SequenceTooLong { length } => {
                let number = decimal(*length as u64);
                String::from_str("sequence is too long to be serialized: ").concat(
                    number.as_str(),
                )
            },
            SerializationError::SequenceUnknownLength => String::from_str(
                "can't serialize sequence with unknown length",
            ),
            SerializationError::StringNotAscii { string } => String::from_str(
                "string is not ASCII encoded: ",
            ).concat(string.as_str()),
            SerializationError::StringTooLong { string } => String::from_str(
                "string is too long: ",
            ).concat(string.as_str()),
        }
    }
}

} // verus!
