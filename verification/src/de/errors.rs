//! What can go wrong while a value is decoded.

use crate::text::{
    decimal, decimal_text, hexadecimal, hexadecimal_text, signed_decimal, signed_decimal_text,
};
use vstd::prelude::*;
use vstd::string::StringExecFns;

verus! {

/// Error during deserialization.
#[derive(Debug, PartialEq, Eq)]
#[allow(inconsistent_fields)]
pub enum DeserializationError {
    /// Custom error message.
    Custom {
        /// The message of the custom error.
        message: String,
    },
    /// Failure while deserializing a part of a larger value.
    Failure {
        /// A description of what was being deserialized.
        what: String,
        /// The error that occurred inside it.
        cause: Box<DeserializationError>,
    },
    /// Deserialization of an identifier is not supported.
    IdentifierNotSupported,
    /// A boolean slot that holds neither zero nor one.
    InvalidBool {
        /// The number that the slot holds.
        raw: u32,
    },
    /// A character slot that holds no Unicode scalar value.
    InvalidChar {
        /// The number that the slot holds.
        raw: u32,
    },
    /// A union discriminant that selects no variant.
    InvalidEnumVariant {
        /// The discriminant that was read.
        variant: u32,
        /// The names of the variants that exist.
        variants: Vec<&'static str>,
    },
    /// A slot that holds a number outside a narrow signed range.
    InvalidSignedInteger {
        /// The number of bits expected.
        bits: u8,
        /// The number that the slot holds.
        value: i32,
    },
    /// An option discriminant that is neither zero nor one.
    InvalidOption,
    /// A string that is not UTF-8.
    InvalidUtf8,
    /// A slot that holds a number outside a narrow unsigned range.
    InvalidUnsignedInteger {
        /// The number of bits expected.
        bits: u8,
        /// The number that the slot holds.
        value: u32,
    },
    /// The source could not deliver the bytes.
    IoError {
        /// A description of what was being deserialized.
        what: String,
        /// What the source reported.
        cause: String,
    },
    /// Map types are not supported by XDR.
    MapNotSupported,
    /// A tuple with more elements than a 32-bit length can count.
    TupleTooLong {
        /// The number of elements that were expected.
        length: usize,
    },
    /// The type to deserialize is not known in advance.
    UnknownType,
}

/// The mathematical value of a [`DeserializationError`].
#[allow(inconsistent_fields)]
pub enum SpecDeserializationError {
    Custom { message: Seq<char> },
    Failure { what: Seq<char>, cause: Box<SpecDeserializationError> },
    IdentifierNotSupported,
    InvalidBool { raw: u32 },
    InvalidChar { raw: u32 },
    InvalidEnumVariant { variant: u32, variants: Seq<Seq<char>> },
    InvalidSignedInteger { bits: u8, value: i32 },
    InvalidOption,
    InvalidUtf8,
    InvalidUnsignedInteger { bits: u8, value: u32 },
    IoError { what: Seq<char>, cause: Seq<char> },
    MapNotSupported,
    TupleTooLong { length: usize },
    UnknownType,
}

/// What a source that ran out of bytes reports.
pub open spec fn end_of_input() -> Seq<char> {
    "failed to fill whole buffer"@
}

/// The texts of a list of names.
pub open spec fn names_of(names: Seq<&'static str>) -> Seq<Seq<char>> {
    Seq::new(names.len(), |i: int| names[i]@)
}

/// Names in double quotes, separated by a comma and a space.
pub open spec fn quoted_names_text(names: Seq<Seq<char>>) -> Seq<char>
    decreases names.len(),
{
    if names.len() == 0 {
        Seq::empty()
    } else if names.len() == 1 {
        "\""@ + names[0] + "\""@
    } else {
        quoted_names_text(names.drop_last()) + ", "@ + "\""@ + names.last() + "\""@
    }
}

impl SpecDeserializationError {
    /// The error as a reader sees it: each description of a failure, from
    /// the outermost inwards, then the cause, joined by a colon and a space.
    pub open spec fn text(self) -> Seq<char>
        decreases self,
    {
        match self {
            SpecDeserializationError::Custom { message } => "custom error message: "@ + message,
            SpecDeserializationError::Failure { what, cause } => what + ": "@ + cause.text(),
            SpecDeserializationError::IdentifierNotSupported =>
                "deserialization of an identifier is not supported"@,
            SpecDeserializationError::InvalidBool { raw } => "deserialized an invalid bool: "@
                + decimal_text(raw as nat),
            SpecDeserializationError::InvalidChar { raw } => "deserialized an invalid char: 0x"@
                + hexadecimal_text(raw as nat),
            SpecDeserializationError::InvalidEnumVariant { variant, variants } =>
                "deserialized an invalid enum variant: variant index is "@ + decimal_text(
                    variant as nat,
                ) + ", valid variants are ["@ + quoted_names_text(variants) + "]"@,
            SpecDeserializationError::InvalidSignedInteger { bits, value } =>
                "deserialized invalid "@ + decimal_text(bits as nat) + "-bit signed integer: "@
                    + signed_decimal_text(value as int),
            SpecDeserializationError::InvalidOption => "deserialized an invalid option"@,
            SpecDeserializationError::InvalidUtf8 => "deserialized an invalid UTF-8 string"@,
            SpecDeserializationError::InvalidUnsignedInteger { bits, value } =>
                "deserialized invalid "@ + decimal_text(bits as nat) + "-bit unsigned integer: "@
                    + decimal_text(value as nat),
            SpecDeserializationError::IoError { what, cause } =>
                "IO error while deserializing a value of type "@ + what + ": "@ + cause,
            SpecDeserializationError::MapNotSupported => "XDR does not support a map type"@,
            SpecDeserializationError::TupleTooLong { length } => "tuple has too many elements: "@
                + decimal_text(length as nat),
            SpecDeserializationError::UnknownType => "can't deserialize unknown type"@,
        }
    }

    /// The error at the end of the chain of failures.
    pub open spec fn root(self) -> SpecDeserializationError
        decreases self,
    {
        match self {
            SpecDeserializationError::Failure { what, cause } => cause.root(),
            _ => self,
        }
    }
}

impl View for DeserializationError {
    type V = SpecDeserializationError;

    open spec fn view(&self) -> SpecDeserializationError {
        self.model()
    }
}

fn quoted_names(names: &Vec<&'static str>) -> (text: String)
    ensures
        text@ == quoted_names_text(names_of(names@)),
{
    let mut text = String::from_str("");
    let mut index: usize = 0;
    proof {
        reveal_strlit("");
        assert(names_of(names@).take(0) =~= Seq::<Seq<char>>::empty());
        assert(text@ =~= Seq::<char>::empty());
    }
    while index < names.len()
        invariant
            index <= names.len(),
            text@ == quoted_names_text(names_of(names@).take(index as int)),
        decreases names.len() - index,
    {
        let ghost before = names_of(names@).take(index as int);
        let ghost after = names_of(names@).take(index as int + 1);
        proof {
            assert(after.drop_last() =~= before);
            assert(after.last() == names@[index as int]@);
            if index == 0 {
                reveal_strlit("");
                assert(text@ + "\""@ =~= "\""@);
            }
        }
        if index > 0 {
            text.append(", ");
        }
        text.append("\"");
        text.append(names[index]);
        text.append("\"");
        proof {
            if index == 0 {
                assert(text@ =~= "\""@ + names@[0]@ + "\""@);
            } else {
                assert(text@ =~= quoted_names_text(before) + ", "@ + "\""@ + after.last() + "\""@);
            }
        }
        index = index + 1;
    }
    proof {
        assert(names_of(names@).take(names.len() as int) =~= names_of(names@));
    }
    text
}

impl DeserializationError {
    /// The mathematical value of the error.
    pub open spec fn model(&self) -> SpecDeserializationError
        decreases self,
    {
        match self {
            DeserializationError::Custom { message } => SpecDeserializationError::Custom {
                message: message@,
            },
            DeserializationError::Failure { what, cause } => SpecDeserializationError::Failure {
                what: what@,
                cause: Box::new(cause.model()),
            },
            DeserializationError::IdentifierNotSupported =>
                SpecDeserializationError::IdentifierNotSupported,
            DeserializationError::InvalidBool { raw } => SpecDeserializationError::InvalidBool {
                raw: *raw,
            },
            DeserializationError::InvalidChar { raw } => SpecDeserializationError::InvalidChar {
                raw: *raw,
            },
            DeserializationError::InvalidEnumVariant { variant, variants } =>
                SpecDeserializationError::InvalidEnumVariant {
                    variant: *variant,
                    variants: names_of(variants@),
                },
            DeserializationError::InvalidSignedInteger { bits, value } =>
                SpecDeserializationError::InvalidSignedInteger { bits: *bits, value: *value },
            DeserializationError::InvalidOption => SpecDeserializationError::InvalidOption,
            DeserializationError::InvalidUtf8 => SpecDeserializationError::InvalidUtf8,
            DeserializationError::InvalidUnsignedInteger { bits, value } =>
                SpecDeserializationError::InvalidUnsignedInteger { bits: *bits, value: *value },
            DeserializationError::IoError { what, cause } => SpecDeserializationError::IoError {
                what: what@,
                cause: cause@,
            },
            DeserializationError::MapNotSupported => SpecDeserializationError::MapNotSupported,
            DeserializationError::TupleTooLong { length } =>
                SpecDeserializationError::TupleTooLong { length: *length },
            DeserializationError::UnknownType => SpecDeserializationError::UnknownType,
        }
    }

    /// Wraps `cause` in a failure that says what was being deserialized.
    pub fn failure(what: &str, cause: DeserializationError) -> (error: Self)
        ensures
            error@ == (SpecDeserializationError::Failure { what: what@, cause: Box::new(cause@) }),
    {
        DeserializationError::Failure { what: String::from_str(what), cause: Box::new(cause) }
    }

    /// An error of the source, with what was being deserialized.
    pub fn io_error(what: &str, cause: &str) -> (error: Self)
        ensures
            error@ == (SpecDeserializationError::IoError { what: what@, cause: cause@ }),
    {
        DeserializationError::IoError {
            what: String::from_str(what),
            cause: String::from_str(cause),
        }
    }

    /// The error of a source that ran out of bytes, with what was being
    /// deserialized.
    pub fn end_of_input(what: &str) -> (error: Self)
        ensures
            error@ == (SpecDeserializationError::IoError { what: what@, cause: end_of_input() }),
    {
        DeserializationError::io_error(what, "failed to fill whole buffer")
    }

    /// An error with a message of the caller's own.
    pub fn custom(message: &str) -> (error: Self)
        ensures
            error@ == (SpecDeserializationError::Custom { message: message@ }),
    {
        DeserializationError::Custom { message: String::from_str(message) }
    }

    /// The error as text: each description of a failure, from the outermost
    /// inwards, then the cause, joined by a colon and a space.
    pub fn to_string(&self) -> (text: String)
        ensures
            text@ == self@.text(),
        decreases self,
    {
        match self {
            DeserializationError::Custom { message } => String::from_str(
                "custom error message: ",
            ).concat(message.as_str()),
            DeserializationError::Failure { what, cause } => {
                let inner = cause.to_string();
                String::from_str(what.as_str()).concat(": ").concat(inner.as_str())
            },
            DeserializationError::IdentifierNotSupported => String::from_str(
                "deserialization of an identifier is not supported",
            ),
            DeserializationError::InvalidBool { raw } => {
                let number = decimal(*raw as u64);
                String::from_str("deserialized an invalid bool: ").concat(number.as_str())
            },
            DeserializationError::InvalidChar { raw } => {
                let number = hexadecimal(*raw as u64);
                String::from_str("deserialized an invalid char: 0x").concat(number.as_str())
            },
            DeserializationError::InvalidEnumVariant { variant, variants } => {
                let number = decimal(*variant as u64);
                let names = quoted_names(variants);
                String::from_str("deserialized an invalid enum variant: variant index is ").concat(
                    number.as_str(),
                ).concat(", valid variants are [").concat(names.as_str()).concat("]")
            },
            DeserializationError::InvalidSignedInteger { bits, value } => {
                let width = decimal(*bits as u64);
                let number = signed_decimal(*value as i64);
                String::from_str("deserialized invalid ").concat(width.as_str()).concat(
                    "-bit signed integer: ",
                ).concat(number.as_str())
            },
            DeserializationError::InvalidOption => String::from_str(
                "deserialized an invalid option",
            ),
            DeserializationError::InvalidUtf8 => String::from_str(
                "deserialized an invalid UTF-8 string",
            ),
            DeserializationError::InvalidUnsignedInteger { bits, value } => {
                let width = decimal(*bits as u64);
                let number = decimal(*value as u64);
                String::from_str("deserialized invalid ").concat(width.as_str()).concat(
                    "-bit unsigned integer: ",
                ).concat(number.as_str())
            },
            DeserializationError::IoError { what, cause } => String::from_str(
                "IO error while deserializing a value of type ",
            ).concat(what.as_str()).concat(": ").concat(cause.as_str()),
            DeserializationError::MapNotSupported => String::from_str(
                "XDR does not support a map type",
            ),
            DeserializationError::TupleTooLong { length } => {
                let number = decimal(*length as u64);
                String::from_str("tuple has too many elements: ").concat(number.as_str())
            },
            DeserializationError::UnknownType => String::from_str(
                "can't deserialize unknown type",
            ),
        }
    }
}

} // verus!
