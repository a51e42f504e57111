//! The annotation parser: turns the framework's annotations, one `Meta`
//! node at a time, into validated commands.
//!
//! Struct-level annotations carry the commands `receiver = "expr -> Type"`,
//! `entry_module = "name"`, `entry_module_visibility = "vis"` and
//! `entry_module_attributes(...)`; field-level annotations carry the bare
//! shorthand, `entry(...)` and `use_entry(...)`. A struct-only command on a
//! field, or a field-only command on the struct, is a scope error; malformed
//! shapes, wrong argument counts and duplicated sub-arguments are rejected
//! with the error the taxonomy assigns to them.

use vstd::prelude::*;
use crate::ast::{opt_view, path_is_ident, Meta, MetaLit, MetaPath, NestedMeta, SpecPath};
use crate::ast::spec_path_is_ident;
use crate::error::{ok_view, GenError};
use crate::receiver_syntax::{
    is_ident_text, spec_is_ident_text, spec_parse_receiver, AnnotatedReceiverFn, SpecReceiverFn,
};

verus! {

broadcast use vstd::seq::group_seq_axioms;

/// The command name `receiver`.
pub open spec fn receiver_kw() -> Seq<u8> {
    seq!['r' as u8, 'e' as u8, 'c' as u8, 'e' as u8, 'i' as u8, 'v' as u8, 'e' as u8, 'r' as u8]
}

/// The command name `entry_module`.
pub open spec fn entry_module_kw() -> Seq<u8> {
    seq![
        'e' as u8,
        'n' as u8,
        't' as u8,
        'r' as u8,
        'y' as u8,
        '_' as u8,
        'm' as u8,
        'o' as u8,
        'd' as u8,
        'u' as u8,
        'l' as u8,
        'e' as u8,
    ]
}

/// The command name `entry_module_visibility`.
pub open spec fn entry_module_visibility_kw() -> Seq<u8> {
    entry_module_kw() + seq![
        '_' as u8,
        'v' as u8,
        'i' as u8,
        's' as u8,
        'i' as u8,
        'b' as u8,
        'i' as u8,
        'l' as u8,
        'i' as u8,
        't' as u8,
        'y' as u8,
    ]
}

/// The command name `entry_module_attributes`.
pub open spec fn entry_module_attributes_kw() -> Seq<u8> {
    entry_module_kw() + seq![
        '_' as u8,
        'a' as u8,
        't' as u8,
        't' as u8,
        'r' as u8,
        'i' as u8,
        'b' as u8,
        'u' as u8,
        't' as u8,
        'e' as u8,
        's' as u8,
    ]
}

/// The command name `entry`.
pub open spec fn entry_kw() -> Seq<u8> {
    seq!['e' as u8, 'n' as u8, 't' as u8, 'r' as u8, 'y' as u8]
}

/// The command name `use_entry`.
pub open spec fn use_entry_kw() -> Seq<u8> {
    seq!['u' as u8, 's' as u8, 'e' as u8, '_' as u8] + entry_kw()
}

/// The byte text `receiver`.
fn receiver_kw_bytes() -> (r: Vec<u8>)
    ensures
        r@ == receiver_kw(),
{
    let r: Vec<u8> = vec!['r' as u8, 'e' as u8, 'c' as u8, 'e' as u8, 'i' as u8, 'v' as u8,
        'e' as u8, 'r' as u8];
    proof {
        assert(r@ =~= receiver_kw());
    }
    r
}

/// The byte text `entry_module`.
fn entry_module_kw_bytes() -> (r: Vec<u8>)
    ensures
        r@ == entry_module_kw(),
{
    let r: Vec<u8> = vec!['e' as u8, 'n' as u8, 't' as u8, 'r' as u8, 'y' as u8, '_' as u8,
        'm' as u8, 'o' as u8, 'd' as u8, 'u' as u8, 'l' as u8, 'e' as u8];
    proof {
        assert(r@ =~= entry_module_kw());
    }
    r
}

/// The byte text `entry_module_visibility`.
fn entry_module_visibility_kw_bytes() -> (r: Vec<u8>)
    ensures
        r@ == entry_module_visibility_kw(),
{
    let r: Vec<u8> = vec!['e' as u8, 'n' as u8, 't' as u8, 'r' as u8, 'y' as u8, '_' as u8,
        'm' as u8, 'o' as u8, 'd' as u8, 'u' as u8, 'l' as u8, 'e' as u8, '_' as u8, 'v' as u8,
        'i' as u8, 's' as u8, 'i' as u8, 'b' as u8, 'i' as u8, 'l' as u8, 'i' as u8, 't' as u8,
        'y' as u8];
    proof {
        assert(r@ =~= entry_module_visibility_kw());
    }
    r
}

/// The byte text `entry_module_attributes`.
fn entry_module_attributes_kw_bytes() -> (r: Vec<u8>)
    ensures
        r@ == entry_module_attributes_kw(),
{
    let r: Vec<u8> = vec!['e' as u8, 'n' as u8, 't' as u8, 'r' as u8, 'y' as u8, '_' as u8,
        'm' as u8, 'o' as u8, 'd' as u8, 'u' as u8, 'l' as u8, 'e' as u8, '_' as u8, 'a' as u8,
        't' as u8, 't' as u8, 'r' as u8, 'i' as u8, 'b' as u8, 'u' as u8, 't' as u8, 'e' as u8,
        's' as u8];
    proof {
        assert(r@ =~= entry_module_attributes_kw());
    }
    r
}

/// The byte text `entry`.
fn entry_kw_bytes() -> (r: Vec<u8>)
    ensures
        r@ == entry_kw(),
{
    let r: Vec<u8> = vec!['e' as u8, 'n' as u8, 't' as u8, 'r' as u8, 'y' as u8];
    proof {
        assert(r@ =~= entry_kw());
    }
    r
}

/// The byte text `use_entry`.
fn use_entry_kw_bytes() -> (r: Vec<u8>)
    ensures
        r@ == use_entry_kw(),
{
    let r: Vec<u8> = vec!['u' as u8, 's' as u8, 'e' as u8, '_' as u8, 'e' as u8, 'n' as u8,
        't' as u8, 'r' as u8, 'y' as u8];
    proof {
        assert(r@ =~= use_entry_kw());
    }
    r
}

/// A validated struct-level command.
#[derive(Debug)]
pub enum StructAttributeOutcome {
    /// Set the default receiver for every accessor of the struct.
    SetDefaultReceiver(AnnotatedReceiverFn),
    /// Set the name of the generated entry module.
    SetGenEntryModule(Vec<u8>),
    /// Set the visibility of the generated entry module.
    SetGenEntryModuleVisibility(Vec<u8>),
    /// Append annotations to attach to the generated entry module.
    AppendGenEntryModuleAttributes(Vec<NestedMeta>),
}

/// The mathematical value of a struct-level command.
pub ghost enum SpecStructOutcome {
    SetReceiver(SpecReceiverFn),
    SetModule(Seq<u8>),
    SetVisibility(Seq<u8>),
    AppendAttrs(Seq<NestedMeta>),
}

impl View for StructAttributeOutcome {
    type V = SpecStructOutcome;

    open spec fn view(&self) -> SpecStructOutcome {
        match self {
            StructAttributeOutcome::SetDefaultReceiver(r) => SpecStructOutcome::SetReceiver(r@),
            StructAttributeOutcome::SetGenEntryModule(n) => SpecStructOutcome::SetModule(n@),
            StructAttributeOutcome::SetGenEntryModuleVisibility(v) => SpecStructOutcome::SetVisibility(
                v@,
            ),
            StructAttributeOutcome::AppendGenEntryModuleAttributes(a) => SpecStructOutcome::AppendAttrs(
                a@,
            ),
        }
    }
}

/// What one command inside a struct-level annotation means.
pub open spec fn spec_struct_command(m: Meta) -> Result<SpecStructOutcome, GenError> {
    match m {
        Meta::NameValue(p, lit) => {
            if spec_path_is_ident(p@, receiver_kw()) {
                match lit {
                    MetaLit::Str(s) => match spec_parse_receiver(s@) {
                        Option::Some(pair) => Ok(
                            SpecStructOutcome::SetReceiver(
                                SpecReceiverFn { receiver_fn: pair.0, annotation: pair.1 },
                            ),
                        ),
                        Option::None => Err(GenError::MalformedReceiver),
                    },
                    _ => Err(GenError::WrongLiteralType),
                }
            } else if spec_path_is_ident(p@, entry_module_kw()) {
                match lit {
                    MetaLit::Str(s) => if spec_is_ident_text(s@) {
                        Ok(SpecStructOutcome::SetModule(s@))
                    } else {
                        Err(GenError::MalformedModuleName)
                    },
                    _ => Err(GenError::WrongLiteralType),
                }
            } else if spec_path_is_ident(p@, entry_module_visibility_kw()) {
                match lit {
                    MetaLit::Str(s) => Ok(SpecStructOutcome::SetVisibility(s@)),
                    _ => Err(GenError::WrongLiteralType),
                }
            } else if spec_path_is_ident(p@, entry_kw()) || spec_path_is_ident(
                p@,
                use_entry_kw(),
            ) {
                Err(GenError::FieldCommandOnStruct)
            } else if spec_path_is_ident(p@, entry_module_attributes_kw()) {
                Err(GenError::UnrecognizedSyntax)
            } else {
                Err(GenError::UnknownCommand)
            }
        },
        Meta::List(p, nested) => {
            if spec_path_is_ident(p@, entry_module_attributes_kw()) {
                Ok(SpecStructOutcome::AppendAttrs(nested@))
            } else if spec_path_is_ident(p@, entry_kw()) || spec_path_is_ident(
                p@,
                use_entry_kw(),
            ) {
                Err(GenError::FieldCommandOnStruct)
            } else if spec_path_is_ident(p@, receiver_kw()) || spec_path_is_ident(
                p@,
                entry_module_kw(),
            ) || spec_path_is_ident(p@, entry_module_visibility_kw()) {
                Err(GenError::UnrecognizedSyntax)
            } else {
                Err(GenError::UnknownCommand)
            }
        },
        Meta::Path(p) => {
            if spec_path_is_ident(p@, entry_kw()) || spec_path_is_ident(p@, use_entry_kw()) {
                Err(GenError::FieldCommandOnStruct)
            } else if spec_path_is_ident(p@, receiver_kw()) || spec_path_is_ident(
                p@,
                entry_module_kw(),
            ) || spec_path_is_ident(p@, entry_module_visibility_kw()) || spec_path_is_ident(
                p@,
                entry_module_attributes_kw(),
            ) {
                Err(GenError::UnrecognizedSyntax)
            } else {
                Err(GenError::UnknownCommand)
            }
        },
    }
}

/// Reads one command inside a struct-level annotation.
pub fn handle_snec_struct_attribute(attribute: Meta) -> (r: Result<
    StructAttributeOutcome,
    GenError,
>)
    ensures
        ok_view(r) == spec_struct_command(attribute),
{
    match attribute {
        Meta::NameValue(p, lit) => {
            if path_is_ident(&p, &receiver_kw_bytes()) {
                match lit {
                    MetaLit::Str(s) => {
                        match AnnotatedReceiverFn::parse(&s) {
                            Ok(recv) => Ok(StructAttributeOutcome::SetDefaultReceiver(recv)),
                            Err(e) => Err(e),
                        }
                    },
                    _ => Err(GenError::WrongLiteralType),
                }
            } else if path_is_ident(&p, &entry_module_kw_bytes()) {
                match lit {
                    MetaLit::Str(s) => {
                        if is_ident_text(&s) {
                            Ok(StructAttributeOutcome::SetGenEntryModule(s))
                        } else {
                            Err(GenError::MalformedModuleName)
                        }
                    },
                    _ => Err(GenError::WrongLiteralType),
                }
            } else if path_is_ident(&p, &entry_module_visibility_kw_bytes()) {
                match lit {
                    MetaLit::Str(s) => Ok(StructAttributeOutcome::SetGenEntryModuleVisibility(s)),
                    _ => Err(GenError::WrongLiteralType),
                }
            } else if path_is_ident(&p, &entry_kw_bytes()) || path_is_ident(
                &p,
                &use_entry_kw_bytes(),
            ) {
                Err(GenError::FieldCommandOnStruct)
            } else if path_is_ident(&p, &entry_module_attributes_kw_bytes()) {
                Err(GenError::UnrecognizedSyntax)
            } else {
                Err(GenError::UnknownCommand)
            }
        },
        Meta::List(p, nested) => {
            if path_is_ident(&p, &entry_module_attributes_kw_bytes()) {
                Ok(StructAttributeOutcome::AppendGenEntryModuleAttributes(nested))
            } else if path_is_ident(&p, &entry_kw_bytes()) || path_is_ident(
                &p,
                &use_entry_kw_bytes(),
            ) {
                Err(GenError::FieldCommandOnStruct)
            } else if path_is_ident(&p, &receiver_kw_bytes()) || path_is_ident(
                &p,
                &entry_module_kw_bytes(),
            ) || path_is_ident(&p, &entry_module_visibility_kw_bytes()) {
                Err(GenError::UnrecognizedSyntax)
            } else {
                Err(GenError::UnknownCommand)
            }
        },
        Meta::Path(p) => {
            if path_is_ident(&p, &entry_kw_bytes()) || path_is_ident(&p, &use_entry_kw_bytes()) {
                Err(GenError::FieldCommandOnStruct)
            } else if path_is_ident(&p, &receiver_kw_bytes()) || path_is_ident(
                &p,
                &entry_module_kw_bytes(),
            ) || path_is_ident(&p, &entry_module_visibility_kw_bytes()) || path_is_ident(
                &p,
                &entry_module_attributes_kw_bytes(),
            ) {
                Err(GenError::UnrecognizedSyntax)
            } else {
                Err(GenError::UnknownCommand)
            }
        },
    }
}

/// The mathematical value of a list of struct-level commands.
pub open spec fn souts_view(v: Seq<StructAttributeOutcome>) -> Seq<SpecStructOutcome> {
    Seq::new(v.len(), |k: int| v[k]@)
}

/// What the commands of one struct-level annotation body mean, in order;
/// the first offending command aborts the whole annotation.
pub open spec fn spec_struct_commands(ns: Seq<NestedMeta>) -> Result<
    Seq<SpecStructOutcome>,
    GenError,
>
    decreases ns.len(),
{
    if ns.len() == 0 {
        Ok(Seq::empty())
    } else {
        match ns[0] {
            NestedMeta::Lit(_) => Err(GenError::UnrecognizedSyntax),
            NestedMeta::Meta(m) => match spec_struct_command(m) {
                Err(e) => Err(e),
                Ok(o) => match spec_struct_commands(ns.drop_first()) {
                    Err(e) => Err(e),
                    Ok(rest) => Ok(seq![o] + rest),
                },
            },
        }
    }
}

/// What one whole struct-level annotation means: a bare or `name = value`
/// occurrence of the framework annotation is rejected, a list is read
/// command by command.
pub open spec fn spec_struct_attr(m: Meta) -> Result<Seq<SpecStructOutcome>, GenError> {
    match m {
        Meta::Path(_) => Err(GenError::EmptyStructAttribute),
        Meta::NameValue(_, _) => Err(GenError::NameValueAttribute),
        Meta::List(_, nested) => spec_struct_commands(nested@),
    }
}

/// Reads one whole struct-level annotation into its command list.
pub fn handle_struct_attribute(attribute: Meta) -> (r: Result<
    Vec<StructAttributeOutcome>,
    GenError,
>)
    ensures
        match r {
            Ok(outs) => spec_struct_attr(attribute) == Ok::<_, GenError>(souts_view(outs@)),
            Err(e) => spec_struct_attr(attribute) == Err::<Seq<SpecStructOutcome>, _>(e),
        },
{
    match attribute {
        Meta::Path(_) => Err(GenError::EmptyStructAttribute),
        Meta::NameValue(_, _) => Err(GenError::NameValueAttribute),
        Meta::List(_, nested) => {
            let ghost orig: Seq<NestedMeta> = nested@;
            proof {
                assert(spec_struct_attr(attribute) == spec_struct_commands(orig));
            }
            let mut rest = nested;
            let mut outs: Vec<StructAttributeOutcome> = Vec::new();
            while rest.len() > 0
                invariant
                    spec_struct_attr(attribute) == spec_struct_commands(orig),
                    spec_struct_commands(orig) == match spec_struct_commands(rest@) {
                        Ok(tail) => Ok::<_, GenError>(souts_view(outs@) + tail),
                        Err(e) => Err::<Seq<SpecStructOutcome>, _>(e),
                    },
                decreases rest@.len(),
            {
                let ghost before: Seq<NestedMeta> = rest@;
                let n = rest.remove(0);
                proof {
                    assert(before.remove(0) =~= before.drop_first());
                }
                match n {
                    NestedMeta::Lit(_) => {
                        return Err(GenError::UnrecognizedSyntax);
                    },
                    NestedMeta::Meta(m) => {
                        match handle_snec_struct_attribute(m) {
                            Err(e) => {
                                return Err(e);
                            },
                            Ok(o) => {
                                let ghost pre: Seq<SpecStructOutcome> = souts_view(outs@);
                                let ghost ov: SpecStructOutcome = o@;
                                outs.push(o);
                                proof {
                                    assert(souts_view(outs@) =~= pre + seq![ov]);
                                    let c = spec_struct_commands(rest@);
                                    if c is Ok {
                                        let tail = c->Ok_0;
                                        assert((pre + seq![ov]) + tail =~= pre + (seq![ov]
                                            + tail));
                                    }
                                }
                            },
                        }
                    },
                }
            }
            proof {
                assert(souts_view(outs@) + Seq::<SpecStructOutcome>::empty() =~= souts_view(
                    outs@,
                ));
            }
            Ok(outs)
        },
    }
}

/// A validated field-level command.
#[derive(Debug)]
#[allow(inconsistent_fields)]
pub enum FieldAttributeOutcome {
    /// Generate an accessor bound to an existing marker type.
    RequestGetImpl { entry_name: MetaPath, receiver_name: Option<AnnotatedReceiverFn> },
    /// Generate a new marker type and an accessor bound to it.
    CreateEntryAndGetImpl { entry_name: Option<Vec<u8>>, receiver_name: Option<AnnotatedReceiverFn> },
}

/// The mathematical value of a field-level command.
pub ghost enum SpecFieldOutcome {
    UseEntry { path: SpecPath, receiver: Option<SpecReceiverFn> },
    CreateEntry { name: Option<Seq<u8>>, receiver: Option<SpecReceiverFn> },
}

impl View for FieldAttributeOutcome {
    type V = SpecFieldOutcome;

    open spec fn view(&self) -> SpecFieldOutcome {
        match self {
            FieldAttributeOutcome::RequestGetImpl { entry_name, receiver_name } => SpecFieldOutcome::UseEntry {
                path: entry_name@,
                receiver: opt_view(*receiver_name),
            },
            FieldAttributeOutcome::CreateEntryAndGetImpl { entry_name, receiver_name } => SpecFieldOutcome::CreateEntry {
                name: opt_view(*entry_name),
                receiver: opt_view(*receiver_name),
            },
        }
    }
}

/// What the arguments of a `use_entry(...)` command mean: a marker path,
/// then optionally a receiver text.
pub open spec fn spec_use_entry_args(ns: Seq<NestedMeta>) -> Result<
    (SpecPath, Option<SpecReceiverFn>),
    GenError,
> {
    if ns.len() != 1 && ns.len() != 2 {
        Err(GenError::WrongArgumentCount)
    } else {
        match ns[0] {
            NestedMeta::Lit(_) => Err(GenError::UnrecognizedSyntax),
            NestedMeta::Meta(mm) => match mm {
                Meta::Path(p) => {
                    if ns.len() == 2 {
                        match ns[1] {
                            NestedMeta::Meta(_) => Err(GenError::UnrecognizedSyntax),
                            NestedMeta::Lit(l) => match l {
                                MetaLit::Str(s) => match spec_parse_receiver(s@) {
                                    Option::Some(pair) => Ok(
                                        (
                                            p@,
                                            Option::Some(
                                                SpecReceiverFn {
                                                    receiver_fn: pair.0,
                                                    annotation: pair.1,
                                                },
                                            ),
                                        ),
                                    ),
                                    Option::None => Err(GenError::MalformedReceiver),
                                },
                                _ => Err(GenError::WrongLiteralType),
                            },
                        }
                    } else {
                        Ok((p@, Option::None))
                    }
                },
                _ => Err(GenError::UnrecognizedSyntax),
            },
        }
    }
}

/// What the arguments of an `entry(...)` command mean, folded left to right
/// over the marker-name slot and the receiver slot; filling a slot twice is
/// a duplication error.
pub open spec fn spec_entry_args(
    ns: Seq<NestedMeta>,
    name: Option<Seq<u8>>,
    recv: Option<SpecReceiverFn>,
) -> Result<(Option<Seq<u8>>, Option<SpecReceiverFn>), GenError>
    decreases ns.len(),
{
    if ns.len() == 0 {
        Ok((name, recv))
    } else {
        match ns[0] {
            NestedMeta::Meta(mm) => {
                if name is Some {
                    Err(GenError::DuplicateMarkerName)
                } else {
                    match mm {
                        Meta::Path(p) => if !p@.leading_colon && p@.segments.len() == 1 {
                            spec_entry_args(
                                ns.drop_first(),
                                Option::Some(p@.segments[0]),
                                recv,
                            )
                        } else {
                            Err(GenError::MalformedPath)
                        },
                        _ => Err(GenError::UnrecognizedSyntax),
                    }
                }
            },
            NestedMeta::Lit(l) => {
                if recv is Some {
                    Err(GenError::DuplicateReceiverArg)
                } else {
                    match l {
                        MetaLit::Str(s) => match spec_parse_receiver(s@) {
                            Option::Some(pair) => spec_entry_args(
                                ns.drop_first(),
                                name,
                                Option::Some(
                                    SpecReceiverFn { receiver_fn: pair.0, annotation: pair.1 },
                                ),
                            ),
                            Option::None => Err(GenError::MalformedReceiver),
                        },
                        _ => Err(GenError::WrongLiteralType),
                    }
                }
            },
        }
    }
}

/// What one command inside a field-level annotation means.
pub open spec fn spec_field_command(m: Meta) -> Result<SpecFieldOutcome, GenError> {
    match m {
        Meta::List(p, ns) => {
            if spec_path_is_ident(p@, use_entry_kw()) {
                match spec_use_entry_args(ns@) {
                    Ok(pair) => Ok(
                        SpecFieldOutcome::UseEntry { path: pair.0, receiver: pair.1 },
                    ),
                    Err(e) => Err(e),
                }
            } else if spec_path_is_ident(p@, entry_kw()) {
                if ns@.len() > 2 {
                    Err(GenError::WrongArgumentCount)
                } else {
                    match spec_entry_args(ns@, Option::None, Option::None) {
                        Ok(pair) => Ok(
                            SpecFieldOutcome::CreateEntry { name: pair.0, receiver: pair.1 },
                        ),
                        Err(e) => Err(e),
                    }
                }
            } else if spec_path_is_ident(p@, receiver_kw()) || spec_path_is_ident(
                p@,
                entry_module_kw(),
            ) || spec_path_is_ident(p@, entry_module_visibility_kw()) || spec_path_is_ident(
                p@,
                entry_module_attributes_kw(),
            ) {
                Err(GenError::StructCommandOnField)
            } else {
                Err(GenError::UnknownCommand)
            }
        },
        Meta::NameValue(p, _) => {
            if spec_path_is_ident(p@, receiver_kw()) || spec_path_is_ident(p@, entry_module_kw())
                || spec_path_is_ident(p@, entry_module_visibility_kw()) || spec_path_is_ident(
                p@,
                entry_module_attributes_kw(),
            ) {
                Err(GenError::StructCommandOnField)
            } else {
                Err(GenError::UnrecognizedSyntax)
            }
        },
        Meta::Path(p) => {
            if spec_path_is_ident(p@, receiver_kw()) || spec_path_is_ident(p@, entry_module_kw())
                || spec_path_is_ident(p@, entry_module_visibility_kw()) || spec_path_is_ident(
                p@,
                entry_module_attributes_kw(),
            ) {
                Err(GenError::StructCommandOnField)
            } else {
                Err(GenError::UnrecognizedSyntax)
            }
        },
    }
}

/// Reads one command inside a field-level annotation.
pub fn handle_snec_field_attribute(attribute: Meta) -> (r: Result<FieldAttributeOutcome, GenError>)
    ensures
        ok_view(r) == spec_field_command(attribute),
{
    match attribute {
        Meta::List(p, ns) => {
            if path_is_ident(&p, &use_entry_kw_bytes()) {
                let ghost nsv: Seq<NestedMeta> = ns@;
                if ns.len() != 1 && ns.len() != 2 {
                    return Err(GenError::WrongArgumentCount);
                }
                let two: bool = ns.len() == 2;
                let mut rest = ns;
                let first = rest.remove(0);
                proof {
                    assert(first == nsv[0]);
                }
                match first {
                    NestedMeta::Lit(_) => Err(GenError::UnrecognizedSyntax),
                    NestedMeta::Meta(mm) => match mm {
                        Meta::Path(entry_path) => {
                            if two {
                                let second = rest.remove(0);
                                proof {
                                    assert(second == nsv[1]);
                                }
                                match second {
                                    NestedMeta::Meta(_) => Err(GenError::UnrecognizedSyntax),
                                    NestedMeta::Lit(l) => match l {
                                        MetaLit::Str(s) => match AnnotatedReceiverFn::parse(&s) {
                                            Ok(recv) => Ok(
                                                FieldAttributeOutcome::RequestGetImpl {
                                                    entry_name: entry_path,
                                                    receiver_name: Some(recv),
                                                },
                                            ),
                                            Err(e) => Err(e),
                                        },
                                        _ => Err(GenError::WrongLiteralType),
                                    },
                                }
                            } else {
                                Ok(
                                    FieldAttributeOutcome::RequestGetImpl {
                                        entry_name: entry_path,
                                        receiver_name: None,
                                    },
                                )
                            }
                        },
                        _ => Err(GenError::UnrecognizedSyntax),
                    },
                }
            } else if path_is_ident(&p, &entry_kw_bytes()) {
                let ghost nsv: Seq<NestedMeta> = ns@;
                if ns.len() > 2 {
                    return Err(GenError::WrongArgumentCount);
                }
                let mut rest = ns;
                let mut name: Option<Vec<u8>> = None;
                let mut recv: Option<AnnotatedReceiverFn> = None;
                proof {
                    assert(spec_field_command(attribute) == (match spec_entry_args(
                        nsv,
                        Option::None,
                        Option::None,
                    ) {
                        Ok(pair) => Ok::<SpecFieldOutcome, GenError>(
                            SpecFieldOutcome::CreateEntry { name: pair.0, receiver: pair.1 },
                        ),
                        Err(e) => Err::<SpecFieldOutcome, GenError>(e),
                    }));
                }
                while rest.len() > 0
                    invariant
                        spec_field_command(attribute) == (match spec_entry_args(
                            nsv,
                            Option::None,
                            Option::None,
                        ) {
                            Ok(pair) => Ok::<SpecFieldOutcome, GenError>(
                                SpecFieldOutcome::CreateEntry { name: pair.0, receiver: pair.1 },
                            ),
                            Err(e) => Err::<SpecFieldOutcome, GenError>(e),
                        }),
                        spec_entry_args(nsv, Option::None, Option::None) == spec_entry_args(
                            rest@,
                            opt_view(name),
                            opt_view(recv),
                        ),
                    decreases rest@.len(),
                {
                    let ghost before: Seq<NestedMeta> = rest@;
                    let n = rest.remove(0);
                    proof {
                        assert(n == before[0]);
                        assert(before.remove(0) =~= before.drop_first());
                    }
                    match n {
                        NestedMeta::Meta(mm) => {
                            if name.is_some() {
                                return Err(GenError::DuplicateMarkerName);
                            }
                            match mm {
                                Meta::Path(mp) => {
                                    let ghost mpv: SpecPath = mp@;
                                    if mp.leading_colon || mp.segments.len() != 1 {
                                        return Err(GenError::MalformedPath);
                                    }
                                    let MetaPath { leading_colon: _, segments: mut segs } = mp;
                                    let seg = segs.remove(0);
                                    proof {
                                        assert(seg@ == mpv.segments[0]);
                                    }
                                    name = Some(seg);
                                },
                                _ => {
                                    return Err(GenError::UnrecognizedSyntax);
                                },
                            }
                        },
                        NestedMeta::Lit(l) => {
                            if recv.is_some() {
                                return Err(GenError::DuplicateReceiverArg);
                            }
                            match l {
                                MetaLit::Str(s) => {
                                    match AnnotatedReceiverFn::parse(&s) {
                                        Ok(rv) => {
                                            recv = Some(rv);
                                        },
                                        Err(e) => {
                                            return Err(e);
                                        },
                                    }
                                },
                                _ => {
                                    return Err(GenError::WrongLiteralType);
                                },
                            }
                        },
                    }
                }
                Ok(FieldAttributeOutcome::CreateEntryAndGetImpl {
                    entry_name: name,
                    receiver_name: recv,
                })
            } else if path_is_ident(&p, &receiver_kw_bytes()) || path_is_ident(
                &p,
                &entry_module_kw_bytes(),
            ) || path_is_ident(&p, &entry_module_visibility_kw_bytes()) || path_is_ident(
                &p,
                &entry_module_attributes_kw_bytes(),
            ) {
                Err(GenError::StructCommandOnField)
            } else {
                Err(GenError::UnknownCommand)
            }
        },
        Meta::NameValue(p, _) => {
            if path_is_ident(&p, &receiver_kw_bytes()) || path_is_ident(
                &p,
                &entry_module_kw_bytes(),
            ) || path_is_ident(&p, &entry_module_visibility_kw_bytes()) || path_is_ident(
                &p,
                &entry_module_attributes_kw_bytes(),
            ) {
                Err(GenError::StructCommandOnField)
            } else {
                Err(GenError::UnrecognizedSyntax)
            }
        },
        Meta::Path(p) => {
            if path_is_ident(&p, &receiver_kw_bytes()) || path_is_ident(
                &p,
                &entry_module_kw_bytes(),
            ) || path_is_ident(&p, &entry_module_visibility_kw_bytes()) || path_is_ident(
                &p,
                &entry_module_attributes_kw_bytes(),
            ) {
                Err(GenError::StructCommandOnField)
            } else {
                Err(GenError::UnrecognizedSyntax)
            }
        },
    }
}

/// The mathematical value of a list of field-level commands.
pub open spec fn fouts_view(v: Seq<FieldAttributeOutcome>) -> Seq<SpecFieldOutcome> {
    Seq::new(v.len(), |k: int| v[k]@)
}

/// What the commands of one field-level annotation body mean, in order.
pub open spec fn spec_field_commands(ns: Seq<NestedMeta>) -> Result<
    Seq<SpecFieldOutcome>,
    GenError,
>
    decreases ns.len(),
{
    if ns.len() == 0 {
        Ok(Seq::empty())
    } else {
        match ns[0] {
            NestedMeta::Lit(_) => Err(GenError::UnrecognizedSyntax),
            NestedMeta::Meta(m) => match spec_field_command(m) {
                Err(e) => Err(e),
                Ok(o) => match spec_field_commands(ns.drop_first()) {
                    Err(e) => Err(e),
                    Ok(rest) => Ok(seq![o] + rest),
                },
            },
        }
    }
}

/// What one whole field-level annotation means: the bare framework
/// annotation is the shorthand for one default marker-and-accessor request,
/// a `name = value` occurrence is rejected, a list is read command by
/// command.
pub open spec fn spec_field_attr(m: Meta) -> Result<Seq<SpecFieldOutcome>, GenError> {
    match m {
        Meta::Path(_) => Ok(
            seq![
                SpecFieldOutcome::CreateEntry { name: Option::None, receiver: Option::None },
            ],
        ),
        Meta::NameValue(_, _) => Err(GenError::NameValueAttribute),
        Meta::List(_, nested) => spec_field_commands(nested@),
    }
}

/// Reads one whole field-level annotation into its command list.
pub fn handle_field_attribute(attribute: Meta) -> (r: Result<Vec<FieldAttributeOutcome>, GenError>)
    ensures
        match r {
            Ok(outs) => spec_field_attr(attribute) == Ok::<_, GenError>(fouts_view(outs@)),
            Err(e) => spec_field_attr(attribute) == Err::<Seq<SpecFieldOutcome>, _>(e),
        },
{
    match attribute {
        Meta::Path(_) => {
            let mut outs: Vec<FieldAttributeOutcome> = Vec::new();
            outs.push(
                FieldAttributeOutcome::CreateEntryAndGetImpl {
                    entry_name: None,
                    receiver_name: None,
                },
            );
            proof {
                assert(fouts_view(outs@) =~= seq![
                    SpecFieldOutcome::CreateEntry { name: Option::None, receiver: Option::None },
                ]);
            }
            Ok(outs)
        },
        Meta::NameValue(_, _) => Err(GenError::NameValueAttribute),
        Meta::List(_, nested) => {
            let ghost orig: Seq<NestedMeta> = nested@;
            proof {
                assert(spec_field_attr(attribute) == spec_field_commands(orig));
            }
            let mut rest = nested;
            let mut outs: Vec<FieldAttributeOutcome> = Vec::new();
            while rest.len() > 0
                invariant
                    spec_field_attr(attribute) == spec_field_commands(orig),
                    spec_field_commands(orig) == match spec_field_commands(rest@) {
                        Ok(tail) => Ok::<_, GenError>(fouts_view(outs@) + tail),
                        Err(e) => Err::<Seq<SpecFieldOutcome>, _>(e),
                    },
                decreases rest@.len(),
            {
                let ghost before: Seq<NestedMeta> = rest@;
                let n = rest.remove(0);
                proof {
                    assert(before.remove(0) =~= before.drop_first());
                }
                match n {
                    NestedMeta::Lit(_) => {
                        return Err(GenError::UnrecognizedSyntax);
                    },
                    NestedMeta::Meta(m) => {
                        match handle_snec_field_attribute(m) {
                            Err(e) => {
                                return Err(e);
                            },
                            Ok(o) => {
                                let ghost pre: Seq<SpecFieldOutcome> = fouts_view(outs@);
                                let ghost ov: SpecFieldOutcome = o@;
                                outs.push(o);
                                proof {
                                    assert(fouts_view(outs@) =~= pre + seq![ov]);
                                    let c = spec_field_commands(rest@);
                                    if c is Ok {
                                        let tail = c->Ok_0;
                                        assert((pre + seq![ov]) + tail =~= pre + (seq![ov]
                                            + tail));
                                    }
                                }
                            },
                        }
                    },
                }
            }
            proof {
                assert(fouts_view(outs@) + Seq::<SpecFieldOutcome>::empty() =~= fouts_view(
                    outs@,
                ));
            }
            Ok(outs)
        },
    }
}

} // verus!
