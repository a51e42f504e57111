//! Shape matchers: each one accepts exactly one shape of its input and
//! rejects every other with the error the taxonomy assigns to it.

use vstd::prelude::*;
use crate::ast::{Field, Fields, Meta, MetaLit, MetaPath, NestedMeta, TypeData};
use crate::error::GenError;

verus! {

/// Accepts a struct body; an enumeration or a union cannot be a config table.
pub fn typedata_struct(type_data: TypeData) -> (r: Result<Fields, GenError>)
    ensures
        match type_data {
            TypeData::Struct(f) => r == Ok::<Fields, GenError>(f),
            TypeData::Enum => r == Err::<Fields, GenError>(GenError::EnumNotSupported),
            TypeData::Union => r == Err::<Fields, GenError>(GenError::UnionNotSupported),
        },
{
    match type_data {
        TypeData::Struct(f) => Ok(f),
        TypeData::Enum => Err(GenError::EnumNotSupported),
        TypeData::Union => Err(GenError::UnionNotSupported),
    }
}

/// Accepts named fields; tuple structs and unit structs cannot be config
/// tables.
pub fn fields_named(fields: Fields) -> (r: Result<Vec<Field>, GenError>)
    ensures
        match fields {
            Fields::Named(f) => r == Ok::<Vec<Field>, GenError>(f),
            Fields::Unnamed => r == Err::<Vec<Field>, GenError>(GenError::TupleFieldsNotSupported),
            Fields::Unit => r == Err::<Vec<Field>, GenError>(GenError::UnitFieldsNotSupported),
        },
{
    match fields {
        Fields::Named(f) => Ok(f),
        Fields::Unnamed => Err(GenError::TupleFieldsNotSupported),
        Fields::Unit => Err(GenError::UnitFieldsNotSupported),
    }
}

/// Accepts a bare path node and nothing else.
pub fn meta_path(meta: Meta) -> (r: Result<MetaPath, GenError>)
    ensures
        match meta {
            Meta::Path(p) => r == Ok::<MetaPath, GenError>(p),
            _ => r == Err::<MetaPath, GenError>(GenError::UnrecognizedSyntax),
        },
{
    match meta {
        Meta::Path(p) => Ok(p),
        _ => Err(GenError::UnrecognizedSyntax),
    }
}

/// Accepts an annotation argument that is itself an annotation node, not a
/// literal.
pub fn nested_meta_normal(nested_meta: NestedMeta) -> (r: Result<Meta, GenError>)
    ensures
        match nested_meta {
            NestedMeta::Meta(m) => r == Ok::<Meta, GenError>(m),
            NestedMeta::Lit(_) => r == Err::<Meta, GenError>(GenError::UnrecognizedSyntax),
        },
{
    match nested_meta {
        NestedMeta::Meta(m) => Ok(m),
        NestedMeta::Lit(_) => Err(GenError::UnrecognizedSyntax),
    }
}

/// Accepts an annotation argument that is a literal, not an annotation node.
pub fn nested_meta_literal(nested_meta: NestedMeta) -> (r: Result<MetaLit, GenError>)
    ensures
        match nested_meta {
            NestedMeta::Lit(l) => r == Ok::<MetaLit, GenError>(l),
            NestedMeta::Meta(_) => r == Err::<MetaLit, GenError>(GenError::UnrecognizedSyntax),
        },
{
    match nested_meta {
        NestedMeta::Lit(l) => Ok(l),
        NestedMeta::Meta(_) => Err(GenError::UnrecognizedSyntax),
    }
}

/// Accepts a string literal and rejects every other literal kind.
pub fn lit_str(lit: MetaLit) -> (r: Result<Vec<u8>, GenError>)
    ensures
        match lit {
            MetaLit::Str(s) => r == Ok::<Vec<u8>, GenError>(s),
            _ => r == Err::<Vec<u8>, GenError>(GenError::WrongLiteralType),
        },
{
    match lit {
        MetaLit::Str(s) => Ok(s),
        _ => Err(GenError::WrongLiteralType),
    }
}

} // verus!
