//! Schema data support: ordering of floating-point schema values and the
//! errors raised while deserializing schema data.
//!
//! An error names the type being deserialized; callers pass that name in.

use vstd::prelude::*;
use crate::worker::utils::{decimal, push_decimal};

pub mod float_ord;

pub use self::float_ord::FloatOrd;

verus! {

/// The identifier of a field in a schema object.
pub type FieldId = u32;

/// The error returned when a serialized value is no variant of a schema enum.
#[derive(Debug, Clone, Copy, PartialEq, Eq, Hash)]
pub struct UnknownDiscriminantError {
    pub typename: &'static str,
    pub value: u32,
}

impl UnknownDiscriminantError {
    /// The error's message.
    pub open spec fn message(&self) -> Seq<char> {
        "Found unknown discriminant value "@ + decimal(self.value as nat) + " for enum `"@
            + self.typename@ + "` while deserializing schema data"@
    }

    /// The text `Found unknown discriminant value <value> for enum `<type>`
    /// while deserializing schema data`.
    pub fn to_string(&self) -> (res: String)
        ensures
            res@ == self.message(),
    {
        let mut s = String::from_str("Found unknown discriminant value ");
        push_decimal(&mut s, self.value as u64);
        s.append(" for enum `");
        s.append(self.typename);
        s.append("` while deserializing schema data");
        s
    }
}

/// A type that corresponds to a schemalang enumeration: a C-like enum that is
/// serialized as a `u32` and whose conversion back can fail with
/// `UnknownDiscriminantError`.
pub trait EnumField: Sized + Clone + Copy + Default + core::convert::TryFrom<u32, Error = UnknownDiscriminantError> + Into<u32> {
}

/// What went wrong while deserializing schema data.
#[derive(Debug)]
pub enum ErrorKind {
    UnknownDiscriminant(u32),
    UnknownCommand(u32),
    MissingField,
    IndexOutOfBounds { index: usize, count: usize },
    InvalidValue { field: FieldId, index: Option<usize>, error: Box<Error> },
    SchemaError(String),
}

/// An error that can occur during schema deserialization: the name of the
/// type being deserialized and what went wrong.
#[derive(Debug)]
pub struct Error {
    pub typename: &'static str,
    pub kind: ErrorKind,
}

pub type Result<T> = core::result::Result<T, Error>;

/// The message of an error; an invalid value nests the message of the error
/// found inside it.
pub open spec fn error_message(e: Error) -> Seq<char>
    decreases e,
{
    match e.kind {
        ErrorKind::UnknownDiscriminant(value) => "Unknown discriminant "@ + decimal(value as nat)
            + " for enum "@ + e.typename@,
        ErrorKind::UnknownCommand(index) => "Unknown command index "@ + decimal(index as nat)
            + " for command "@ + e.typename@,
        ErrorKind::MissingField => "Missing field of type "@ + e.typename@,
        ErrorKind::IndexOutOfBounds { index, count } => "Index out of bounds for type "@
            + e.typename@ + ", index: "@ + decimal(index as nat) + ", count: "@ + decimal(
            count as nat,
        ),
        ErrorKind::InvalidValue { field, index, error } => match index {
            Some(i) => "Invalid value in field "@ + decimal(field as nat) + " at index "@
                + decimal(i as nat) + " for type "@ + e.typename@ + ": "@ + error_message(*error),
            None => "Invalid value in field "@ + decimal(field as nat) + " for type "@
                + e.typename@ + ": "@ + error_message(*error),
        },
        ErrorKind::SchemaError(msg) => "Generic schema error "@ + msg@,
    }
}

impl From<UnknownDiscriminantError> for Error {
    /// The error an enum conversion failure stands for.
    fn from(from: UnknownDiscriminantError) -> (res: Self) {
        Error { typename: from.typename, kind: ErrorKind::UnknownDiscriminant(from.value) }
    }
}

impl vstd::std_specs::convert::FromSpecImpl<UnknownDiscriminantError> for Error {
    open spec fn obeys_from_spec() -> bool {
        true
    }

    open spec fn from_spec(from: UnknownDiscriminantError) -> Error {
        Error { typename: from.typename, kind: ErrorKind::UnknownDiscriminant(from.value) }
    }
}

impl Error {
    /// A serialized value of the enum type `typename` matched none of its
    /// variants.
    pub fn unknown_discriminant(typename: &'static str, value: u32) -> (res: Self)
        ensures
            res.typename == typename,
            res.kind == ErrorKind::UnknownDiscriminant(value),
    {
        Error { typename, kind: ErrorKind::UnknownDiscriminant(value) }
    }

    /// A command index is no command of the component `typename`.
    pub fn unknown_command(typename: &'static str, command_index: u32) -> (res: Self)
        ensures
            res.typename == typename,
            res.kind == ErrorKind::UnknownCommand(command_index),
    {
        Error { typename, kind: ErrorKind::UnknownCommand(command_index) }
    }

    /// A field of type `typename` was missing.
    pub fn missing_field(typename: &'static str) -> (res: Self)
        ensures
            res.typename == typename,
            res.kind == ErrorKind::MissingField,
    {
        Error { typename, kind: ErrorKind::MissingField }
    }

    /// An index was at or past the number of values of type `typename`.
    pub fn index_out_of_bounds(typename: &'static str, index: usize, count: usize) -> (res:
        Self)
        ensures
            res.typename == typename,
            res.kind == (ErrorKind::IndexOutOfBounds { index, count }),
    {
        Error { typename, kind: ErrorKind::IndexOutOfBounds { index, count } }
    }

    /// Places `error` at field `field` of the type `typename`.
    pub fn at_field(typename: &'static str, field: FieldId, error: Error) -> (res: Self)
        ensures
            res.typename == typename,
            res.kind == (ErrorKind::InvalidValue { field, index: None, error: Box::new(error) }),
    {
        Error { typename, kind: ErrorKind::InvalidValue { field, index: None, error: Box::new(error) } }
    }

    /// Places `error` at position `index` of the list in field `field` of the
    /// type `typename`.
    pub fn at_index(typename: &'static str, field: FieldId, index: usize, error: Error) -> (res:
        Self)
        ensures
            res.typename == typename,
            res.kind == (ErrorKind::InvalidValue {
                field,
                index: Some(index),
                error: Box::new(error),
            }),
    {
        Error {
            typename,
            kind: ErrorKind::InvalidValue { field, index: Some(index), error: Box::new(error) },
        }
    }

    /// A generic error of the schema data of type `typename`.
    pub fn schema_error(typename: &'static str, msg: String) -> (res: Self)
        ensures
            res.typename == typename,
            res.kind == ErrorKind::SchemaError(msg),
    {
        Error { typename, kind: ErrorKind::SchemaError(msg) }
    }

    /// The error found inside an invalid value, if this is one.
    pub fn source(&self) -> (res: Option<&Error>)
        ensures
            res == (match self.kind {
                ErrorKind::InvalidValue { error, .. } => Some(&*error),
                _ => None,
            }),
    {
        match &self.kind {
            ErrorKind::InvalidValue { error, .. } => Some(&**error),
            _ => None,
        }
    }

    /// Appends the error's message to `s`.
    pub fn write_message(&self, s: &mut String)
        ensures
            final(s)@ == old(s)@ + error_message(*self),
        decreases self,
    {
        match &self.kind {
            ErrorKind::UnknownDiscriminant(value) => {
                s.append("Unknown discriminant ");
                push_decimal(s, *value as u64);
                s.append(" for enum ");
                s.append(self.typename);
            },
            ErrorKind::UnknownCommand(index) => {
                s.append("Unknown command index ");
                push_decimal(s, *index as u64);
                s.append(" for command ");
                s.append(self.typename);
            },
            ErrorKind::MissingField => {
                s.append("Missing field of type ");
                s.append(self.typename);
            },
            ErrorKind::IndexOutOfBounds { index, count } => {
                s.append("Index out of bounds for type ");
                s.append(self.typename);
                s.append(", index: ");
                push_decimal(s, *index as u64);
                s.append(", count: ");
                push_decimal(s, *count as u64);
            },
            ErrorKind::InvalidValue { field, index, error } => {
                s.append("Invalid value in field ");
                push_decimal(s, *field as u64);
                match index {
                    Some(i) => {
                        s.append(" at index ");
                        push_decimal(s, *i as u64);
                    },
                    None => {},
                }
                s.append(" for type ");
                s.append(self.typename);
                s.append(": ");
                error.write_message(s);
            },
            ErrorKind::SchemaError(msg) => {
                s.append("Generic schema error ");
                s.append(msg.as_str());
            },
        }
        proof {
            assert(final(s)@ =~= old(s)@ + error_message(*self));
        }
    }

    /// The error's message.
    pub fn to_string(&self) -> (res: String)
        ensures
            res@ == error_message(*self),
    {
        let mut s = String::new();
        self.write_message(&mut s);
        proof {
            assert(s@ =~= error_message(*self));
        }
        s
    }
}


/// The message of an error placed at a field or list position ends with the
/// message of the error found there.
pub proof fn lemma_nested_message_ends_with_source(outer: Error)
    requires
        outer.kind matches ErrorKind::InvalidValue { .. },
    ensures
        ({
            let inner = match outer.kind {
                ErrorKind::InvalidValue { error, .. } => *error,
                _ => outer,
            };
            let m = error_message(outer);
            let n = error_message(inner);
            n.len() <= m.len() && m.subrange(m.len() - n.len(), m.len() as int) == n
        }),
{
    let inner = match outer.kind {
        ErrorKind::InvalidValue { error, .. } => *error,
        _ => outer,
    };
    let m = error_message(outer);
    let n = error_message(inner);
    assert(m.subrange(m.len() - n.len(), m.len() as int) =~= n);
}

} // verus!
