//! Errors of one derivation pass.
//!
//! Every failure aborts the whole pass: either the complete marker namespace
//! and accessor set are produced, or one of these errors and nothing else.

use vstd::prelude::*;

verus! {

/// Why a derivation pass was rejected.
#[derive(Clone, Copy, Debug, PartialEq, Eq, Structural)]
pub enum GenError {
    /// The annotated type is an enumeration, not a struct.
    EnumNotSupported,
    /// The annotated type is a union, not a struct.
    UnionNotSupported,
    /// The struct has positional (tuple) fields instead of named ones.
    TupleFieldsNotSupported,
    /// The struct has no fields at all (unit struct).
    UnitFieldsNotSupported,
    /// A bare framework annotation was applied to the whole struct.
    EmptyStructAttribute,
    /// The framework annotation was written in `name = value` form.
    NameValueAttribute,
    /// An annotation argument has a shape the grammar does not know.
    UnrecognizedSyntax,
    /// An unknown command inside a framework annotation.
    UnknownCommand,
    /// A struct-only command was applied to a field.
    StructCommandOnField,
    /// A field-only command was applied to the whole struct.
    FieldCommandOnStruct,
    /// A command was given the wrong number of arguments.
    WrongArgumentCount,
    /// A non-string literal where a string literal was expected.
    WrongLiteralType,
    /// The struct default receiver was set more than once.
    DuplicateReceiver,
    /// The entry module name was set more than once.
    DuplicateEntryModule,
    /// The entry module visibility was set more than once.
    DuplicateEntryModuleVisibility,
    /// A marker name was supplied twice within one command.
    DuplicateMarkerName,
    /// A receiver was supplied twice within one command.
    DuplicateReceiverArg,
    /// A marker reference that is not a well-formed path.
    MalformedPath,
    /// An entry module name that is not a single plain identifier.
    MalformedModuleName,
    /// A receiver text that does not parse as `constructor -> Type`.
    MalformedReceiver,
}

/// The mathematical value of a result: the success value is replaced by its
/// view, the error is kept.
pub open spec fn ok_view<T: View, E>(r: Result<T, E>) -> Result<T::V, E> {
    match r {
        Ok(t) => Ok(t@),
        Err(e) => Err(e),
    }
}

} // verus!
