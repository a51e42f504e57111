//! The code generator: turns the parsed struct shape into the description of
//! what is emitted for it, or aborts the derivation with the first error.
//!
//! Resolution happens in two stages. The struct-level commands fold into the
//! struct options: the default receiver, the entry module's name, visibility
//! and extra annotations, each settable at most once (annotations append).
//! Then each field's commands fold into that field's plan: every marker
//! generation request queues one entry, and the accessor binding and the
//! field's receiver override each keep the last value written. A field whose
//! plan holds a binding yields exactly one accessor; a field with no
//! commands yields nothing.

use vstd::prelude::*;
use crate::ast::{
    bytes_copy, opt_view, path_copy, ConfigTableStruct, Field, Fields, Meta, MetaPath, NestedMeta,
    SpecPath, TypeData,
};
use crate::attributes::{
    fouts_view, handle_field_attribute, handle_struct_attribute, souts_view, spec_field_attr,
    spec_struct_attr, FieldAttributeOutcome, SpecFieldOutcome, SpecStructOutcome,
    StructAttributeOutcome,
};
use crate::error::{ok_view, GenError};
use crate::matching::{fields_named, typedata_struct};
use crate::misc::{
    camel_of, concat_to_path, default_entry_module, default_receiver_path, entries_name,
    filter_to_snec_attributes, snake_to_camel, spec_default_receiver_path, spec_snec_attrs,
};
use crate::receiver_syntax::{AnnotatedReceiverFn, SpecReceiverFn};

verus! {

broadcast use vstd::seq::group_seq_axioms;

/// The resolved struct-level options.
#[derive(Debug)]
pub struct StructOptions {
    /// The default receiver for every accessor, when one was set.
    pub receiver: Option<AnnotatedReceiverFn>,
    /// The entry module name, when one was set.
    pub module: Option<Vec<u8>>,
    /// The entry module visibility, when one was set.
    pub visibility: Option<Vec<u8>>,
    /// Annotations to attach to the entry module, in order of appearance.
    pub attrs: Vec<NestedMeta>,
}

/// The mathematical value of the resolved struct-level options.
pub ghost struct SpecStructOptions {
    pub receiver: Option<SpecReceiverFn>,
    pub module: Option<Seq<u8>>,
    pub visibility: Option<Seq<u8>>,
    pub attrs: Seq<NestedMeta>,
}

impl View for StructOptions {
    type V = SpecStructOptions;

    open spec fn view(&self) -> SpecStructOptions {
        SpecStructOptions {
            receiver: opt_view(self.receiver),
            module: opt_view(self.module),
            visibility: opt_view(self.visibility),
            attrs: self.attrs@,
        }
    }
}

/// Options with nothing set.
pub open spec fn spec_no_options() -> SpecStructOptions {
    SpecStructOptions {
        receiver: Option::None,
        module: Option::None,
        visibility: Option::None,
        attrs: Seq::empty(),
    }
}

/// Applies one struct-level command to the options: a singleton option that
/// is already set is a duplication error; module annotations append.
pub open spec fn spec_apply_struct_outcome(o: SpecStructOptions, c: SpecStructOutcome) -> Result<
    SpecStructOptions,
    GenError,
> {
    match c {
        SpecStructOutcome::SetReceiver(r) => {
            if o.receiver is Some {
                Err(GenError::DuplicateReceiver)
            } else {
                Ok(SpecStructOptions { receiver: Option::Some(r), ..o })
            }
        },
        SpecStructOutcome::SetModule(m) => {
            if o.module is Some {
                Err(GenError::DuplicateEntryModule)
            } else {
                Ok(SpecStructOptions { module: Option::Some(m), ..o })
            }
        },
        SpecStructOutcome::SetVisibility(v) => {
            if o.visibility is Some {
                Err(GenError::DuplicateEntryModuleVisibility)
            } else {
                Ok(SpecStructOptions { visibility: Option::Some(v), ..o })
            }
        },
        SpecStructOutcome::AppendAttrs(a) => Ok(SpecStructOptions { attrs: o.attrs + a, ..o }),
    }
}

/// Folds a list of struct-level commands into the options.
pub open spec fn spec_apply_struct_outcomes(
    o: SpecStructOptions,
    cs: Seq<SpecStructOutcome>,
) -> Result<SpecStructOptions, GenError>
    decreases cs.len(),
{
    if cs.len() == 0 {
        Ok(o)
    } else {
        match spec_apply_struct_outcome(o, cs[0]) {
            Err(e) => Err(e),
            Ok(o2) => spec_apply_struct_outcomes(o2, cs.drop_first()),
        }
    }
}

/// Folds the framework annotations of the struct into the options.
pub open spec fn spec_struct_options(o: SpecStructOptions, attrs: Seq<Meta>) -> Result<
    SpecStructOptions,
    GenError,
>
    decreases attrs.len(),
{
    if attrs.len() == 0 {
        Ok(o)
    } else {
        match spec_struct_attr(attrs[0]) {
            Err(e) => Err(e),
            Ok(cs) => match spec_apply_struct_outcomes(o, cs) {
                Err(e) => Err(e),
                Ok(o2) => spec_struct_options(o2, attrs.drop_first()),
            },
        }
    }
}

/// Applies one struct-level command.
fn apply_struct_outcome(o: StructOptions, c: StructAttributeOutcome) -> (r: Result<
    StructOptions,
    GenError,
>)
    ensures
        ok_view(r) == spec_apply_struct_outcome(o@, c@),
{
    let StructOptions { receiver, module, visibility, attrs } = o;
    match c {
        StructAttributeOutcome::SetDefaultReceiver(rv) => {
            if receiver.is_some() {
                Err(GenError::DuplicateReceiver)
            } else {
                Ok(StructOptions { receiver: Some(rv), module, visibility, attrs })
            }
        },
        StructAttributeOutcome::SetGenEntryModule(m) => {
            if module.is_some() {
                Err(GenError::DuplicateEntryModule)
            } else {
                Ok(StructOptions { receiver, module: Some(m), visibility, attrs })
            }
        },
        StructAttributeOutcome::SetGenEntryModuleVisibility(v) => {
            if visibility.is_some() {
                Err(GenError::DuplicateEntryModuleVisibility)
            } else {
                Ok(StructOptions { receiver, module, visibility: Some(v), attrs })
            }
        },
        StructAttributeOutcome::AppendGenEntryModuleAttributes(a) => {
            let mut attrs = attrs;
            let mut extra = a;
            attrs.append(&mut extra);
            Ok(StructOptions { receiver, module, visibility, attrs })
        },
    }
}

/// Folds the commands of one struct-level annotation into the options.
fn apply_struct_outcomes(o: StructOptions, cs: Vec<StructAttributeOutcome>) -> (r: Result<
    StructOptions,
    GenError,
>)
    ensures
        ok_view(r) == spec_apply_struct_outcomes(o@, souts_view(cs@)),
{
    let mut cur = o;
    let mut rest = cs;
    while rest.len() > 0
        invariant
            spec_apply_struct_outcomes(o@, souts_view(cs@)) == spec_apply_struct_outcomes(
                cur@,
                souts_view(rest@),
            ),
        decreases rest@.len(),
    {
        let ghost before: Seq<StructAttributeOutcome> = rest@;
        let c = rest.remove(0);
        proof {
            assert(c == before[0]);
            assert(souts_view(before)[0] == c@);
            assert(souts_view(before).drop_first() =~= souts_view(before.remove(0)));
            assert(before.remove(0) =~= before.drop_first());
            assert(souts_view(rest@) =~= souts_view(before).drop_first());
        }
        match apply_struct_outcome(cur, c) {
            Err(e) => {
                return Err(e);
            },
            Ok(o2) => {
                cur = o2;
            },
        }
    }
    proof {
        assert(souts_view(rest@) =~= Seq::<SpecStructOutcome>::empty());
    }
    Ok(cur)
}

/// Resolves the struct-level options from all annotations of the struct:
/// unrelated annotations are ignored, the framework's own are folded in
/// order.
pub fn resolve_struct_options(attrs: Vec<Meta>) -> (r: Result<StructOptions, GenError>)
    ensures
        ok_view(r) == spec_struct_options(spec_no_options(), spec_snec_attrs(attrs@)),
{
    let mut rest = filter_to_snec_attributes(attrs);
    let mut cur = StructOptions { receiver: None, module: None, visibility: None, attrs: Vec::new() };
    proof {
        assert(cur@ == spec_no_options());
    }
    while rest.len() > 0
        invariant
            spec_struct_options(spec_no_options(), spec_snec_attrs(attrs@)) == spec_struct_options(
                cur@,
                rest@,
            ),
        decreases rest@.len(),
    {
        let ghost before: Seq<Meta> = rest@;
        let attr = rest.remove(0);
        proof {
            assert(attr == before[0]);
            assert(before.remove(0) =~= before.drop_first());
        }
        match handle_struct_attribute(attr) {
            Err(e) => {
                return Err(e);
            },
            Ok(outs) => {
                match apply_struct_outcomes(cur, outs) {
                    Err(e) => {
                        return Err(e);
                    },
                    Ok(o2) => {
                        cur = o2;
                    },
                }
            },
        }
    }
    Ok(cur)
}

/// One queued marker generation request: the marker type to emit for one
/// field, bound to the field's value type and to its name as a string
/// constant.
#[derive(Debug)]
pub struct RequestedGeneratedEntry {
    pub field_name: Vec<u8>,
    pub field_type: Vec<u8>,
    pub marker_name: Vec<u8>,
}

/// The mathematical value of a marker generation request.
pub ghost struct SpecEntryReq {
    pub field_name: Seq<u8>,
    pub field_type: Seq<u8>,
    pub marker_name: Seq<u8>,
}

impl View for RequestedGeneratedEntry {
    type V = SpecEntryReq;

    open spec fn view(&self) -> SpecEntryReq {
        SpecEntryReq {
            field_name: self.field_name@,
            field_type: self.field_type@,
            marker_name: self.marker_name@,
        }
    }
}

/// One accessor implementation to emit: the field it exposes, the marker
/// type it binds to, and the receiver constructor expression and type it
/// wires in.
#[derive(Debug)]
pub struct RequestedGetImpl {
    pub field_name: Vec<u8>,
    pub marker_path: MetaPath,
    pub receiver_expr: MetaPath,
    pub receiver_type: MetaPath,
}

/// The mathematical value of an accessor implementation.
pub ghost struct SpecGetImpl {
    pub field_name: Seq<u8>,
    pub marker_path: SpecPath,
    pub receiver_expr: SpecPath,
    pub receiver_type: SpecPath,
}

impl View for RequestedGetImpl {
    type V = SpecGetImpl;

    open spec fn view(&self) -> SpecGetImpl {
        SpecGetImpl {
            field_name: self.field_name@,
            marker_path: self.marker_path@,
            receiver_expr: self.receiver_expr@,
            receiver_type: self.receiver_type@,
        }
    }
}

/// The mathematical value of a list of marker generation requests.
pub open spec fn ereqs_view(v: Seq<RequestedGeneratedEntry>) -> Seq<SpecEntryReq> {
    Seq::new(v.len(), |k: int| v[k]@)
}

/// The mathematical value of a list of accessor implementations.
pub open spec fn gimpls_view(v: Seq<RequestedGetImpl>) -> Seq<SpecGetImpl> {
    Seq::new(v.len(), |k: int| v[k]@)
}

/// What one field's commands have requested so far: the queued marker
/// generation requests, the accessor's marker binding, and the field's
/// receiver override; the binding and the override keep the last value
/// written.
#[derive(Debug)]
pub struct FieldPlan {
    pub entries: Vec<RequestedGeneratedEntry>,
    pub binding: Option<MetaPath>,
    pub receiver: Option<AnnotatedReceiverFn>,
}

/// The mathematical value of a field plan.
pub ghost struct SpecFieldPlan {
    pub entries: Seq<SpecEntryReq>,
    pub binding: Option<SpecPath>,
    pub receiver: Option<SpecReceiverFn>,
}

impl View for FieldPlan {
    type V = SpecFieldPlan;

    open spec fn view(&self) -> SpecFieldPlan {
        SpecFieldPlan {
            entries: ereqs_view(self.entries@),
            binding: opt_view(self.binding),
            receiver: opt_view(self.receiver),
        }
    }
}

/// A plan with nothing requested.
pub open spec fn spec_no_plan() -> SpecFieldPlan {
    SpecFieldPlan { entries: Seq::empty(), binding: Option::None, receiver: Option::None }
}

/// Applies one field-level command to the field's plan. A marker generation
/// request queues one entry — named explicitly or by case-converting the
/// field name — and binds the accessor to it inside the entry module; a
/// reuse request binds the accessor to the referenced marker verbatim; a
/// receiver argument overrides the field's receiver. The binding and the
/// override keep whichever command wrote them last.
pub open spec fn spec_apply_field_outcome(
    st: SpecFieldPlan,
    c: SpecFieldOutcome,
    fname: Seq<u8>,
    ftype: Seq<u8>,
    module: Seq<u8>,
) -> SpecFieldPlan {
    match c {
        SpecFieldOutcome::CreateEntry { name, receiver } => {
            let marker = match name {
                Option::Some(n) => n,
                Option::None => camel_of(fname),
            };
            SpecFieldPlan {
                entries: st.entries.push(
                    SpecEntryReq { field_name: fname, field_type: ftype, marker_name: marker },
                ),
                binding: Option::Some(
                    SpecPath { leading_colon: false, segments: seq![module, marker] },
                ),
                receiver: match receiver {
                    Option::Some(r) => Option::Some(r),
                    Option::None => st.receiver,
                },
            }
        },
        SpecFieldOutcome::UseEntry { path, receiver } => SpecFieldPlan {
            entries: st.entries,
            binding: Option::Some(path),
            receiver: match receiver {
                Option::Some(r) => Option::Some(r),
                Option::None => st.receiver,
            },
        },
    }
}

/// Folds a list of field-level commands into the field's plan.
pub open spec fn spec_apply_field_outcomes(
    st: SpecFieldPlan,
    cs: Seq<SpecFieldOutcome>,
    fname: Seq<u8>,
    ftype: Seq<u8>,
    module: Seq<u8>,
) -> SpecFieldPlan
    decreases cs.len(),
{
    if cs.len() == 0 {
        st
    } else {
        spec_apply_field_outcomes(
            spec_apply_field_outcome(st, cs[0], fname, ftype, module),
            cs.drop_first(),
            fname,
            ftype,
            module,
        )
    }
}

/// Folds the framework annotations of one field into its plan.
pub open spec fn spec_field_plan(
    st: SpecFieldPlan,
    attrs: Seq<Meta>,
    fname: Seq<u8>,
    ftype: Seq<u8>,
    module: Seq<u8>,
) -> Result<SpecFieldPlan, GenError>
    decreases attrs.len(),
{
    if attrs.len() == 0 {
        Ok(st)
    } else {
        match spec_field_attr(attrs[0]) {
            Err(e) => Err(e),
            Ok(cs) => spec_field_plan(
                spec_apply_field_outcomes(st, cs, fname, ftype, module),
                attrs.drop_first(),
                fname,
                ftype,
                module,
            ),
        }
    }
}

/// What one field contributes: its queued marker generation requests, and
/// one accessor exactly when some command bound a marker to the field. The
/// accessor's receiver is the field override when one was given, else the
/// struct default.
pub open spec fn spec_field_result(f: Field, module: Seq<u8>, drecv: SpecReceiverFn) -> Result<
    (Seq<SpecEntryReq>, Option<SpecGetImpl>),
    GenError,
> {
    match spec_field_plan(spec_no_plan(), spec_snec_attrs(f.attrs@), f.name@, f.ty@, module) {
        Err(e) => Err(e),
        Ok(st) => {
            let gi = match st.binding {
                Option::None => Option::None,
                Option::Some(path) => {
                    let recv = match st.receiver {
                        Option::Some(r) => r,
                        Option::None => drecv,
                    };
                    Option::Some(
                        SpecGetImpl {
                            field_name: f.name@,
                            marker_path: path,
                            receiver_expr: recv.receiver_fn,
                            receiver_type: recv.annotation,
                        },
                    )
                },
            };
            Ok((st.entries, gi))
        },
    }
}

/// What all fields contribute, in declaration order: the queued marker
/// generation requests concatenated, and the accessors of the fields that
/// bound one.
pub open spec fn spec_fields_result(
    fs: Seq<Field>,
    module: Seq<u8>,
    drecv: SpecReceiverFn,
) -> Result<(Seq<SpecEntryReq>, Seq<SpecGetImpl>), GenError>
    decreases fs.len(),
{
    if fs.len() == 0 {
        Ok((Seq::empty(), Seq::empty()))
    } else {
        match spec_field_result(fs[0], module, drecv) {
            Err(e) => Err(e),
            Ok(pair) => match spec_fields_result(fs.drop_first(), module, drecv) {
                Err(e) => Err(e),
                Ok(rest) => Ok(
                    (
                        pair.0 + rest.0,
                        (match pair.1 {
                            Option::Some(g) => seq![g],
                            Option::None => Seq::empty(),
                        }) + rest.1,
                    ),
                ),
            },
        }
    }
}

/// Applies one field-level command to the field's plan.
fn apply_field_outcome(
    st: FieldPlan,
    c: FieldAttributeOutcome,
    fname: &Vec<u8>,
    ftype: &Vec<u8>,
    module: &Vec<u8>,
) -> (r: FieldPlan)
    ensures
        r@ == spec_apply_field_outcome(st@, c@, fname@, ftype@, module@),
{
    let FieldPlan { mut entries, binding, receiver } = st;
    match c {
        FieldAttributeOutcome::CreateEntryAndGetImpl { entry_name, receiver_name } => {
            let marker: Vec<u8> = match entry_name {
                Some(n) => n,
                None => snake_to_camel(fname),
            };
            let ghost markerv: Seq<u8> = marker@;
            let marker_for_path = bytes_copy(&marker);
            let ghost pre: Seq<SpecEntryReq> = ereqs_view(entries@);
            entries.push(
                RequestedGeneratedEntry {
                    field_name: bytes_copy(fname),
                    field_type: bytes_copy(ftype),
                    marker_name: marker,
                },
            );
            proof {
                assert(ereqs_view(entries@) =~= pre.push(
                    SpecEntryReq { field_name: fname@, field_type: ftype@, marker_name: markerv },
                ));
            }
            let path = concat_to_path(bytes_copy(module), marker_for_path);
            let r = FieldPlan {
                entries,
                binding: Some(path),
                receiver: match receiver_name {
                    Some(rv) => Some(rv),
                    None => receiver,
                },
            };
            proof {
                assert(r@.binding->0.segments =~= seq![module@, markerv]);
            }
            r
        },
        FieldAttributeOutcome::RequestGetImpl { entry_name, receiver_name } => {
            FieldPlan {
                entries,
                binding: Some(entry_name),
                receiver: match receiver_name {
                    Some(rv) => Some(rv),
                    None => receiver,
                },
            }
        },
    }
}

/// Folds the commands of one field-level annotation into the field's plan.
fn apply_field_outcomes(
    st: FieldPlan,
    cs: Vec<FieldAttributeOutcome>,
    fname: &Vec<u8>,
    ftype: &Vec<u8>,
    module: &Vec<u8>,
) -> (r: FieldPlan)
    ensures
        r@ == spec_apply_field_outcomes(st@, fouts_view(cs@), fname@, ftype@, module@),
{
    let mut cur = st;
    let mut rest = cs;
    while rest.len() > 0
        invariant
            spec_apply_field_outcomes(st@, fouts_view(cs@), fname@, ftype@, module@)
                == spec_apply_field_outcomes(cur@, fouts_view(rest@), fname@, ftype@, module@),
        decreases rest@.len(),
    {
        let ghost before: Seq<FieldAttributeOutcome> = rest@;
        let c = rest.remove(0);
        proof {
            assert(c == before[0]);
            assert(fouts_view(before)[0] == c@);
            assert(before.remove(0) =~= before.drop_first());
            assert(fouts_view(rest@) =~= fouts_view(before).drop_first());
        }
        cur = apply_field_outcome(cur, c, fname, ftype, module);
    }
    proof {
        assert(fouts_view(rest@) =~= Seq::<SpecFieldOutcome>::empty());
    }
    cur
}

/// Resolves one field: folds its framework annotations into its plan and
/// produces its marker generation requests and, when a marker was bound,
/// its one accessor.
fn compute_field(f: Field, module: &Vec<u8>, drecv: &AnnotatedReceiverFn) -> (r: Result<
    (Vec<RequestedGeneratedEntry>, Option<RequestedGetImpl>),
    GenError,
>)
    ensures
        match r {
            Ok(pair) => spec_field_result(f, module@, drecv@) == Ok::<_, GenError>(
                (ereqs_view(pair.0@), opt_view(pair.1)),
            ),
            Err(e) => spec_field_result(f, module@, drecv@) == Err::<
                (Seq<SpecEntryReq>, Option<SpecGetImpl>),
                GenError,
            >(e),
        },
{
    let Field { name, ty, attrs } = f;
    let mut rest = filter_to_snec_attributes(attrs);
    let mut cur = FieldPlan { entries: Vec::new(), binding: None, receiver: None };
    proof {
        assert(cur@.entries =~= Seq::<SpecEntryReq>::empty());
        assert(cur@ == spec_no_plan());
    }
    while rest.len() > 0
        invariant
            spec_field_plan(spec_no_plan(), spec_snec_attrs(f.attrs@), f.name@, f.ty@, module@)
                == spec_field_plan(cur@, rest@, f.name@, f.ty@, module@),
            name@ == f.name@,
            ty@ == f.ty@,
        decreases rest@.len(),
    {
        let ghost before: Seq<Meta> = rest@;
        let attr = rest.remove(0);
        proof {
            assert(attr == before[0]);
            assert(before.remove(0) =~= before.drop_first());
        }
        match handle_field_attribute(attr) {
            Err(e) => {
                return Err(e);
            },
            Ok(outs) => {
                cur = apply_field_outcomes(cur, outs, &name, &ty, module);
            },
        }
    }
    let FieldPlan { entries, binding, receiver } = cur;
    match binding {
        None => Ok((entries, None)),
        Some(path) => {
            let recv = match receiver {
                Some(rv) => rv,
                None => AnnotatedReceiverFn {
                    receiver_fn: path_copy(&drecv.receiver_fn),
                    annotation: path_copy(&drecv.annotation),
                },
            };
            let gi = RequestedGetImpl {
                field_name: name,
                marker_path: path,
                receiver_expr: recv.receiver_fn,
                receiver_type: recv.annotation,
            };
            Ok((entries, Some(gi)))
        },
    }
}

/// Resolves all fields in declaration order.
fn compute_fields(fields: Vec<Field>, module: &Vec<u8>, drecv: &AnnotatedReceiverFn) -> (r: Result<
    (Vec<RequestedGeneratedEntry>, Vec<RequestedGetImpl>),
    GenError,
>)
    ensures
        match r {
            Ok(pair) => spec_fields_result(fields@, module@, drecv@) == Ok::<_, GenError>(
                (ereqs_view(pair.0@), gimpls_view(pair.1@)),
            ),
            Err(e) => spec_fields_result(fields@, module@, drecv@) == Err::<
                (Seq<SpecEntryReq>, Seq<SpecGetImpl>),
                GenError,
            >(e),
        },
{
    let mut rest = fields;
    let mut entries: Vec<RequestedGeneratedEntry> = Vec::new();
    let mut impls: Vec<RequestedGetImpl> = Vec::new();
    while rest.len() > 0
        invariant
            spec_fields_result(fields@, module@, drecv@) == (match spec_fields_result(
                rest@,
                module@,
                drecv@,
            ) {
                Ok(pair) => Ok::<_, GenError>(
                    (ereqs_view(entries@) + pair.0, gimpls_view(impls@) + pair.1),
                ),
                Err(e) => Err::<(Seq<SpecEntryReq>, Seq<SpecGetImpl>), GenError>(e),
            }),
        decreases rest@.len(),
    {
        let ghost before: Seq<Field> = rest@;
        let f = rest.remove(0);
        proof {
            assert(f == before[0]);
            assert(before.remove(0) =~= before.drop_first());
        }
        match compute_field(f, module, drecv) {
            Err(e) => {
                return Err(e);
            },
            Ok((mut es, gi)) => {
                let ghost pre_e: Seq<SpecEntryReq> = ereqs_view(entries@);
                let ghost pre_g: Seq<SpecGetImpl> = gimpls_view(impls@);
                let ghost esv: Seq<SpecEntryReq> = ereqs_view(es@);
                let ghost giv: Option<SpecGetImpl> = opt_view(gi);
                entries.append(&mut es);
                proof {
                    assert(ereqs_view(entries@) =~= pre_e + esv);
                }
                match gi {
                    Some(g) => {
                        let ghost gv: SpecGetImpl = g@;
                        impls.push(g);
                        proof {
                            assert(gimpls_view(impls@) =~= pre_g + seq![gv]);
                        }
                    },
                    None => {
                        proof {
                            assert(gimpls_view(impls@) =~= pre_g + Seq::<SpecGetImpl>::empty());
                        }
                    },
                }
                proof {
                    let c = spec_fields_result(rest@, module@, drecv@);
                    if c is Ok {
                        let pair = c->Ok_0;
                        assert((pre_e + esv) + pair.0 =~= pre_e + (esv + pair.0));
                        let gseq = match giv {
                            Option::Some(g) => seq![g],
                            Option::None => Seq::<SpecGetImpl>::empty(),
                        };
                        assert((pre_g + gseq) + pair.1 =~= pre_g + (gseq + pair.1));
                    }
                }
            },
        }
    }
    proof {
        assert(ereqs_view(entries@) + Seq::<SpecEntryReq>::empty() =~= ereqs_view(entries@));
        assert(gimpls_view(impls@) + Seq::<SpecGetImpl>::empty() =~= gimpls_view(impls@));
    }
    Ok((entries, impls))
}

/// The qualified path of a generated marker: the entry module, then the
/// explicit marker name if one was given, else the case-converted field
/// name.
pub fn path_to_generated_entry(
    generated_module: Vec<u8>,
    entry_name: Option<Vec<u8>>,
    field_ident: &Vec<u8>,
) -> (r: MetaPath)
    ensures
        r@.leading_colon == false,
        r@.segments.len() == 2,
        r@.segments[0] == generated_module@,
        r@.segments[1] == match opt_view(entry_name) {
            Option::Some(n) => n,
            Option::None => camel_of(field_ident@),
        },
{
    let ghost gmv: Seq<u8> = generated_module@;
    let ghost expected: Seq<u8> = match opt_view(entry_name) {
        Option::Some(n) => n,
        Option::None => camel_of(field_ident@),
    };
    let marker: Vec<u8> = match entry_name {
        Some(n) => n,
        None => snake_to_camel(field_ident),
    };
    proof {
        assert(marker@ == expected);
    }
    let r = concat_to_path(generated_module, marker);
    proof {
        assert(r@.segments =~= seq![gmv, expected]);
    }
    r
}

/// Everything one derivation emits: the entry module (name, visibility,
/// attached annotations, and one marker per queued request, in queue
/// order), followed by one accessor implementation per bound field, in
/// field declaration order.
#[derive(Debug)]
pub struct GeneratedOutput {
    pub struct_name: Vec<u8>,
    pub entry_module: Vec<u8>,
    pub entry_module_visibility: Option<Vec<u8>>,
    pub entry_module_attributes: Vec<NestedMeta>,
    pub entries: Vec<RequestedGeneratedEntry>,
    pub impls: Vec<RequestedGetImpl>,
}

/// The mathematical value of a derivation's output.
pub ghost struct SpecOutput {
    pub struct_name: Seq<u8>,
    pub entry_module: Seq<u8>,
    pub entry_module_visibility: Option<Seq<u8>>,
    pub entry_module_attributes: Seq<NestedMeta>,
    pub entries: Seq<SpecEntryReq>,
    pub impls: Seq<SpecGetImpl>,
}

impl View for GeneratedOutput {
    type V = SpecOutput;

    open spec fn view(&self) -> SpecOutput {
        SpecOutput {
            struct_name: self.struct_name@,
            entry_module: self.entry_module@,
            entry_module_visibility: opt_view(self.entry_module_visibility),
            entry_module_attributes: self.entry_module_attributes@,
            entries: ereqs_view(self.entries@),
            impls: gimpls_view(self.impls@),
        }
    }
}

/// The default receiver: the no-op receiver's unit constructor expression
/// and its type.
pub open spec fn spec_default_receiver() -> SpecReceiverFn {
    SpecReceiverFn {
        receiver_fn: spec_default_receiver_path(),
        annotation: spec_default_receiver_path(),
    }
}

/// What one whole derivation means. The input must be a struct with named
/// fields; its annotations resolve the struct options, with fixed defaults
/// for whatever stays unset; each field then contributes its marker
/// requests and at most one accessor. Any error aborts the derivation with
/// no output at all.
pub open spec fn spec_expand(input: ConfigTableStruct) -> Result<SpecOutput, GenError> {
    match input.data {
        TypeData::Enum => Err(GenError::EnumNotSupported),
        TypeData::Union => Err(GenError::UnionNotSupported),
        TypeData::Struct(fields) => match fields {
            Fields::Unnamed => Err(GenError::TupleFieldsNotSupported),
            Fields::Unit => Err(GenError::UnitFieldsNotSupported),
            Fields::Named(fs) => match spec_struct_options(
                spec_no_options(),
                spec_snec_attrs(input.attrs@),
            ) {
                Err(e) => Err(e),
                Ok(o) => {
                    let module = match o.module {
                        Option::Some(m) => m,
                        Option::None => entries_name(),
                    };
                    let drecv = match o.receiver {
                        Option::Some(r) => r,
                        Option::None => spec_default_receiver(),
                    };
                    match spec_fields_result(fs@, module, drecv) {
                        Err(e) => Err(e),
                        Ok(pair) => Ok(
                            SpecOutput {
                                struct_name: input.ident@,
                                entry_module: module,
                                entry_module_visibility: o.visibility,
                                entry_module_attributes: o.attrs,
                                entries: pair.0,
                                impls: pair.1,
                            },
                        ),
                    }
                },
            },
        },
    }
}

/// One whole derivation pass: either the complete output or the first
/// error, exactly as `spec_expand` states it.
pub fn derive_config_table_expand(input: ConfigTableStruct) -> (r: Result<GeneratedOutput, GenError>)
    ensures
        match r {
            Ok(o) => spec_expand(input) == Ok::<SpecOutput, GenError>(o@),
            Err(e) => spec_expand(input) == Err::<SpecOutput, GenError>(e),
        },
{
    let ConfigTableStruct { attrs, ident, data } = input;
    let fields = match typedata_struct(data) {
        Err(e) => {
            return Err(e);
        },
        Ok(fs) => match fields_named(fs) {
            Err(e) => {
                return Err(e);
            },
            Ok(v) => v,
        },
    };
    let opts = match resolve_struct_options(attrs) {
        Err(e) => {
            return Err(e);
        },
        Ok(o) => o,
    };
    let StructOptions { receiver, module, visibility, attrs: module_attrs } = opts;
    let entry_module: Vec<u8> = match module {
        Some(m) => m,
        None => default_entry_module(),
    };
    let drecv: AnnotatedReceiverFn = match receiver {
        Some(r) => r,
        None => AnnotatedReceiverFn {
            receiver_fn: default_receiver_path(),
            annotation: default_receiver_path(),
        },
    };
    match compute_fields(fields, &entry_module, &drecv) {
        Err(e) => Err(e),
        Ok((entries, impls)) => Ok(
            GeneratedOutput {
                struct_name: ident,
                entry_module,
                entry_module_visibility: visibility,
                entry_module_attributes: module_attrs,
                entries,
                impls,
            },
        ),
    }
}

} // verus!
