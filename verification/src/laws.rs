//! Laws of the code generator, each proved from the generator's own
//! specification.

use vstd::prelude::*;
use crate::ast::{ConfigTableStruct, Field, Fields, Meta, SpecPath, TypeData};
use crate::attributes::{spec_field_attr, SpecFieldOutcome};
use crate::error::GenError;
use crate::generate::{
    spec_apply_field_outcome, spec_default_receiver, spec_expand, spec_field_plan,
    spec_field_result, spec_fields_result, spec_no_options, spec_no_plan, spec_struct_options,
    SpecEntryReq, SpecGetImpl, SpecOutput,
};
use crate::misc::{camel_of, entries_name, spec_snec_attrs};
use crate::receiver_syntax::SpecReceiverFn;

verus! {

broadcast use vstd::seq::group_seq_axioms;

/// A field whose framework annotations are exactly one command list
/// resolving to the single command `c` yields: the marker requests that `c`
/// queues, and — since both command forms bind a marker — exactly one
/// accessor, carrying `c`'s receiver when it has one and the struct default
/// otherwise.
proof fn lemma_single_command_field(
    f: Field,
    m: Meta,
    c: SpecFieldOutcome,
    module: Seq<u8>,
    drecv: SpecReceiverFn,
)
    requires
        spec_snec_attrs(f.attrs@) == seq![m],
        spec_field_attr(m) == Ok::<_, GenError>(seq![c]),
    ensures
        spec_field_result(f, module, drecv) == ({
            let st = spec_apply_field_outcome(spec_no_plan(), c, f.name@, f.ty@, module);
            let recv = match st.receiver {
                Option::Some(r) => r,
                Option::None => drecv,
            };
            Ok::<_, GenError>(
                (
                    st.entries,
                    Option::Some(
                        SpecGetImpl {
                            field_name: f.name@,
                            marker_path: st.binding->0,
                            receiver_expr: recv.receiver_fn,
                            receiver_type: recv.annotation,
                        },
                    ),
                ),
            )
        }),
{
    let attrs = spec_snec_attrs(f.attrs@);
    let cs = seq![c];
    let st = spec_apply_field_outcome(spec_no_plan(), c, f.name@, f.ty@, module);
    assert(attrs[0] == m);
    assert(attrs.drop_first() =~= Seq::<Meta>::empty());
    assert(cs[0] == c);
    assert(cs.drop_first() =~= Seq::<SpecFieldOutcome>::empty());
    assert(crate::generate::spec_apply_field_outcomes(st, cs.drop_first(), f.name@, f.ty@, module)
        == st);
    assert(crate::generate::spec_apply_field_outcomes(spec_no_plan(), cs, f.name@, f.ty@, module)
        == st);
    assert(spec_field_plan(st, attrs.drop_first(), f.name@, f.ty@, module) == Ok::<_, GenError>(
        st,
    ));
    assert(spec_field_plan(spec_no_plan(), attrs, f.name@, f.ty@, module) == Ok::<_, GenError>(
        st,
    ));
    assert(st.binding is Some);
}

/// A bare generation annotation on a field queues exactly one marker, named
/// by case-converting the field name, and binds the field's accessor to
/// that marker inside the entry module, with the struct default receiver.
pub proof fn lemma_bare_annotation_field(f: Field, m: Meta, module: Seq<u8>, drecv: SpecReceiverFn)
    requires
        spec_snec_attrs(f.attrs@) == seq![m],
        m is Path,
    ensures
        spec_field_result(f, module, drecv) == Ok::<_, GenError>(
            (
                seq![
                    SpecEntryReq {
                        field_name: f.name@,
                        field_type: f.ty@,
                        marker_name: camel_of(f.name@),
                    },
                ],
                Option::Some(
                    SpecGetImpl {
                        field_name: f.name@,
                        marker_path: SpecPath {
                            leading_colon: false,
                            segments: seq![module, camel_of(f.name@)],
                        },
                        receiver_expr: drecv.receiver_fn,
                        receiver_type: drecv.annotation,
                    },
                ),
            ),
        ),
{
    let c = SpecFieldOutcome::CreateEntry { name: Option::None, receiver: Option::None };
    lemma_single_command_field(f, m, c, module, drecv);
    let st = spec_apply_field_outcome(spec_no_plan(), c, f.name@, f.ty@, module);
    assert(st.entries =~= seq![
        SpecEntryReq { field_name: f.name@, field_type: f.ty@, marker_name: camel_of(f.name@) },
    ]);
}

/// For a `use_entry` command referencing a marker: no new marker type is
/// emitted for that field, and the field's accessor binds to the referenced
/// marker verbatim — no case conversion or qualification is applied to an
/// explicit reference.
pub proof fn lemma_use_entry_binds_verbatim(
    f: Field,
    m: Meta,
    module: Seq<u8>,
    drecv: SpecReceiverFn,
    path: SpecPath,
    recv: Option<SpecReceiverFn>,
)
    requires
        spec_snec_attrs(f.attrs@) == seq![m],
        spec_field_attr(m) == Ok::<_, GenError>(
            seq![SpecFieldOutcome::UseEntry { path, receiver: recv }],
        ),
    ensures
        spec_field_result(f, module, drecv) is Ok,
        spec_field_result(f, module, drecv)->Ok_0.0 == Seq::<SpecEntryReq>::empty(),
        spec_field_result(f, module, drecv)->Ok_0.1 is Some,
        spec_field_result(f, module, drecv)->Ok_0.1->0.marker_path == path,
{
    let c = SpecFieldOutcome::UseEntry { path, receiver: recv };
    lemma_single_command_field(f, m, c, module, drecv);
}

/// A receiver override at field level governs that field's accessor alone:
/// the accessor of a field whose one command carries a receiver uses it,
/// and the accessor of a field whose command carries none uses the struct
/// default.
pub proof fn lemma_receiver_override(
    f: Field,
    m: Meta,
    module: Seq<u8>,
    drecv: SpecReceiverFn,
    name: Option<Seq<u8>>,
    recv: Option<SpecReceiverFn>,
)
    requires
        spec_snec_attrs(f.attrs@) == seq![m],
        spec_field_attr(m) == Ok::<_, GenError>(
            seq![SpecFieldOutcome::CreateEntry { name, receiver: recv }],
        ),
    ensures
        spec_field_result(f, module, drecv) is Ok,
        spec_field_result(f, module, drecv)->Ok_0.1 is Some,
        spec_field_result(f, module, drecv)->Ok_0.1->0.receiver_expr == (match recv {
            Option::Some(r) => r.receiver_fn,
            Option::None => drecv.receiver_fn,
        }),
        spec_field_result(f, module, drecv)->Ok_0.1->0.receiver_type == (match recv {
            Option::Some(r) => r.annotation,
            Option::None => drecv.annotation,
        }),
{
    let c = SpecFieldOutcome::CreateEntry { name, receiver: recv };
    lemma_single_command_field(f, m, c, module, drecv);
}

/// A struct with named fields, no struct-level framework annotations, and a
/// bare generation annotation on each of its `N` fields derives exactly `N`
/// marker types and exactly `N` accessor implementations, in field order:
/// the `k`-th marker is the case-converted name of the `k`-th field, bound
/// to that field's type and name, and the `k`-th accessor binds to that
/// marker inside the default entry module, with the default no-op receiver.
pub proof fn lemma_bare_annotations_generate_all(input: ConfigTableStruct, fs: Seq<Field>)
    requires
        input.data is Struct,
        input.data->Struct_0 is Named,
        fs == input.data->Struct_0->Named_0@,
        spec_snec_attrs(input.attrs@) == Seq::<Meta>::empty(),
        forall|k: int|
            0 <= k < fs.len() ==> (#[trigger] spec_snec_attrs(fs[k].attrs@)).len() == 1
                && spec_snec_attrs(fs[k].attrs@)[0] is Path,
    ensures
        spec_expand(input) is Ok,
        spec_expand(input)->Ok_0.entries.len() == fs.len(),
        spec_expand(input)->Ok_0.impls.len() == fs.len(),
        forall|k: int|
            0 <= k < fs.len() ==> #[trigger] spec_expand(input)->Ok_0.entries[k]
                == (SpecEntryReq {
                field_name: fs[k].name@,
                field_type: fs[k].ty@,
                marker_name: camel_of(fs[k].name@),
            }),
        forall|k: int|
            0 <= k < fs.len() ==> #[trigger] spec_expand(input)->Ok_0.impls[k] == (SpecGetImpl {
                field_name: fs[k].name@,
                marker_path: SpecPath {
                    leading_colon: false,
                    segments: seq![entries_name(), camel_of(fs[k].name@)],
                },
                receiver_expr: spec_default_receiver().receiver_fn,
                receiver_type: spec_default_receiver().annotation,
            }),
{
    assert(spec_struct_options(spec_no_options(), spec_snec_attrs(input.attrs@)) == Ok::<
        _,
        GenError,
    >(spec_no_options()));
    lemma_all_bare_fields(fs, entries_name(), spec_default_receiver());
}

/// The whole-field fold under a bare annotation on every field: one entry
/// and one accessor per field, in order.
proof fn lemma_all_bare_fields(fs: Seq<Field>, module: Seq<u8>, drecv: SpecReceiverFn)
    requires
        forall|k: int|
            0 <= k < fs.len() ==> (#[trigger] spec_snec_attrs(fs[k].attrs@)).len() == 1
                && spec_snec_attrs(fs[k].attrs@)[0] is Path,
    ensures
        spec_fields_result(fs, module, drecv) is Ok,
        spec_fields_result(fs, module, drecv)->Ok_0.0.len() == fs.len(),
        spec_fields_result(fs, module, drecv)->Ok_0.1.len() == fs.len(),
        forall|k: int|
            0 <= k < fs.len() ==> #[trigger] spec_fields_result(fs, module, drecv)->Ok_0.0[k]
                == (SpecEntryReq {
                field_name: fs[k].name@,
                field_type: fs[k].ty@,
                marker_name: camel_of(fs[k].name@),
            }),
        forall|k: int|
            0 <= k < fs.len() ==> #[trigger] spec_fields_result(fs, module, drecv)->Ok_0.1[k]
                == (SpecGetImpl {
                field_name: fs[k].name@,
                marker_path: SpecPath {
                    leading_colon: false,
                    segments: seq![module, camel_of(fs[k].name@)],
                },
                receiver_expr: drecv.receiver_fn,
                receiver_type: drecv.annotation,
            }),
    decreases fs.len(),
{
    if fs.len() == 0 {
    } else {
        let f = fs[0];
        let attrs = spec_snec_attrs(f.attrs@);
        assert(attrs == seq![attrs[0]]) by {
            assert(attrs =~= seq![attrs[0]]);
        }
        lemma_bare_annotation_field(f, attrs[0], module, drecv);
        assert(forall|k: int|
            0 <= k < fs.drop_first().len() ==> #[trigger] spec_snec_attrs(
                fs.drop_first()[k].attrs@,
            ).len() == 1 && spec_snec_attrs(fs.drop_first()[k].attrs@)[0] is Path) by {
            assert(forall|k: int|
                0 <= k < fs.drop_first().len() ==> fs.drop_first()[k] == fs[k + 1]);
        }
        lemma_all_bare_fields(fs.drop_first(), module, drecv);
        let head_e = spec_field_result(f, module, drecv)->Ok_0.0;
        let head_g = spec_field_result(f, module, drecv)->Ok_0.1;
        let rest = spec_fields_result(fs.drop_first(), module, drecv)->Ok_0;
        let whole = spec_fields_result(fs, module, drecv)->Ok_0;
        assert(whole.0 == head_e + rest.0);
        assert(whole.1 == seq![head_g->0] + rest.1);
        assert forall|k: int| 0 <= k < fs.len() implies #[trigger] whole.0[k] == (SpecEntryReq {
            field_name: fs[k].name@,
            field_type: fs[k].ty@,
            marker_name: camel_of(fs[k].name@),
        }) by {
            if k > 0 {
                assert(whole.0[k] == rest.0[k - 1]);
                assert(fs.drop_first()[k - 1] == fs[k]);
            }
        }
        assert forall|k: int| 0 <= k < fs.len() implies #[trigger] whole.1[k] == (SpecGetImpl {
            field_name: fs[k].name@,
            marker_path: SpecPath {
                leading_colon: false,
                segments: seq![module, camel_of(fs[k].name@)],
            },
            receiver_expr: drecv.receiver_fn,
            receiver_type: drecv.annotation,
        }) by {
            if k > 0 {
                assert(whole.1[k] == rest.1[k - 1]);
                assert(fs.drop_first()[k - 1] == fs[k]);
            }
        }
    }
}

/// Setting the same struct-level singleton option twice — here the default
/// receiver — aborts the derivation with the matching duplication error; no
/// output is produced for any part of the struct.
pub proof fn lemma_duplicate_receiver_rejected(
    input: ConfigTableStruct,
    m1: Meta,
    m2: Meta,
    r1: SpecReceiverFn,
    r2: SpecReceiverFn,
)
    requires
        input.data is Struct,
        input.data->Struct_0 is Named,
        spec_snec_attrs(input.attrs@) == seq![m1, m2],
        crate::attributes::spec_struct_attr(m1) == Ok::<_, GenError>(
            seq![crate::attributes::SpecStructOutcome::SetReceiver(r1)],
        ),
        crate::attributes::spec_struct_attr(m2) == Ok::<_, GenError>(
            seq![crate::attributes::SpecStructOutcome::SetReceiver(r2)],
        ),
    ensures
        spec_expand(input) == Err::<SpecOutput, GenError>(GenError::DuplicateReceiver),
{
    let attrs = spec_snec_attrs(input.attrs@);
    let cs1 = seq![crate::attributes::SpecStructOutcome::SetReceiver(r1)];
    let cs2 = seq![crate::attributes::SpecStructOutcome::SetReceiver(r2)];
    let o1 = crate::generate::SpecStructOptions {
        receiver: Option::Some(r1),
        module: Option::None,
        visibility: Option::None,
        attrs: Seq::empty(),
    };
    assert(attrs[0] == m1);
    assert(attrs.drop_first() =~= seq![m2]);
    assert(attrs.drop_first()[0] == m2);
    assert(attrs.drop_first().drop_first() =~= Seq::<Meta>::empty());
    assert(cs1[0] == crate::attributes::SpecStructOutcome::SetReceiver(r1));
    assert(cs1.drop_first() =~= Seq::<crate::attributes::SpecStructOutcome>::empty());
    assert(cs2[0] == crate::attributes::SpecStructOutcome::SetReceiver(r2));
    assert(crate::generate::spec_apply_struct_outcome(
        spec_no_options(),
        crate::attributes::SpecStructOutcome::SetReceiver(r1),
    ) == Ok::<_, GenError>(o1));
    assert(crate::generate::spec_apply_struct_outcomes(o1, cs1.drop_first()) == Ok::<_, GenError>(
        o1,
    ));
    assert(crate::generate::spec_apply_struct_outcomes(spec_no_options(), cs1) == Ok::<
        _,
        GenError,
    >(o1));
    assert(crate::generate::spec_apply_struct_outcome(
        o1,
        crate::attributes::SpecStructOutcome::SetReceiver(r2),
    ) == Err::<crate::generate::SpecStructOptions, GenError>(GenError::DuplicateReceiver));
    assert(crate::generate::spec_apply_struct_outcomes(o1, cs2) == Err::<
        crate::generate::SpecStructOptions,
        GenError,
    >(GenError::DuplicateReceiver));
    assert(spec_struct_options(o1, attrs.drop_first()) == Err::<
        crate::generate::SpecStructOptions,
        GenError,
    >(GenError::DuplicateReceiver));
    assert(spec_struct_options(spec_no_options(), attrs) == Err::<
        crate::generate::SpecStructOptions,
        GenError,
    >(GenError::DuplicateReceiver));
}

} // verus!
