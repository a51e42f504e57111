//! A verified core for a compile-time configuration-table framework.
//!
//! A config table is a struct whose fields are configuration values. From
//! declarative annotations on the struct and its fields, the library derives
//! a description of the code to generate: one marker type per field that
//! requests one, collected in an entry module, and one accessor binding per
//! field that requests access, each wired to a marker and to a receiver
//! constructor. The annotation parser and the code generator are verified
//! here over a plain data model of the annotation syntax; a thin unverified
//! layer converts host-language syntax trees into that model and renders the
//! derived description back into source text.
//!
//! The library also carries the small runtime that generated accessors
//! target: `Entry` markers, `Get` accessors, notifying `Handle`s and the
//! `Receiver` observer contract.

mod ast;
mod attributes;
mod entry;
mod error;
mod generate;
mod handle;
mod laws;
mod matching;
mod misc;
mod receiver;
mod receiver_syntax;

pub use ast::{
    bytes_copy, bytes_eq, bytes_range, is_snec_attr, path_copy, path_is_ident, snec_name,
    snec_name_bytes,
    spec_is_snec_attr, spec_is_snec_path, spec_meta_path_of, spec_path_is_ident, ConfigTableStruct,
    Field, Fields, Meta, MetaLit, MetaPath, NestedMeta, SpecPath, TypeData,
};
pub use attributes::{
    entry_kw, entry_module_attributes_kw, entry_module_kw, entry_module_visibility_kw, fouts_view,
    handle_field_attribute, handle_snec_field_attribute, handle_snec_struct_attribute,
    handle_struct_attribute, receiver_kw, souts_view, spec_entry_args, spec_field_attr,
    spec_field_command, spec_field_commands, spec_struct_attr, spec_struct_command,
    spec_struct_commands, spec_use_entry_args, use_entry_kw, FieldAttributeOutcome,
    SpecFieldOutcome, SpecStructOutcome, StructAttributeOutcome,
};
pub use entry::{Entry, Get, GetExt};
pub use error::{ok_view, GenError};
pub use handle::{Handle, ModificationScope};
pub use laws::{
    lemma_bare_annotation_field, lemma_bare_annotations_generate_all,
    lemma_duplicate_receiver_rejected, lemma_receiver_override, lemma_use_entry_binds_verbatim,
};
pub use receiver::{EmptyReceiver, FnReceiver, IterReceiver, Receiver};
pub use generate::{
    derive_config_table_expand, ereqs_view, gimpls_view, path_to_generated_entry,
    resolve_struct_options, spec_apply_field_outcome, spec_apply_field_outcomes,
    spec_apply_struct_outcome, spec_apply_struct_outcomes, spec_default_receiver, spec_expand,
    spec_field_plan, spec_field_result, spec_fields_result, spec_no_options, spec_no_plan,
    spec_struct_options, FieldPlan, GeneratedOutput, RequestedGeneratedEntry, RequestedGetImpl,
    SpecEntryReq, SpecFieldPlan, SpecGetImpl, SpecOutput, SpecStructOptions, StructOptions,
};
pub use matching::{
    fields_named, lit_str, meta_path, nested_meta_literal, nested_meta_normal, typedata_struct,
};
pub use misc::{
    ascii_upper, camel_of, camel_of_from, concat_to_path, default_entry_module,
    default_receiver_expr, default_receiver_path, default_receiver_type, empty_receiver_name,
    entries_name, filter_to_snec_attributes, lemma_snake_to_camel_idempotent,
    lemma_unrelated_attr_ignored, snake_to_camel, spec_ascii_upper, spec_default_receiver_path,
    spec_snec_attrs,
};
pub use receiver_syntax::{
    is_ident_text, lemma_receiver_text_round_trip, render_path, render_receiver, render_segments,
    segs_view, spec_ident_end, spec_is_ident_continue, spec_is_ident_start, spec_is_ident_text,
    spec_is_ws, spec_parse_path, spec_parse_receiver, spec_parse_segments, spec_skip_ws, wf_path,
    AnnotatedReceiverFn, SpecReceiverFn,
};
