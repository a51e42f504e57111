//! Tests of the annotation parser and the code generator.

use snec::{
    derive_config_table_expand, AnnotatedReceiverFn, ConfigTableStruct, Field, Fields, GenError,
    Meta, MetaLit, MetaPath, NestedMeta, TypeData,
};

fn ident_path(name: &str) -> MetaPath {
    MetaPath { leading_colon: false, segments: vec![name.as_bytes().to_vec()] }
}

fn path(leading: bool, segments: &[&str]) -> MetaPath {
    MetaPath {
        leading_colon: leading,
        segments: segments.iter().map(|s| s.as_bytes().to_vec()).collect(),
    }
}

/// The bare `#[snec]` annotation.
fn bare_snec() -> Meta {
    Meta::Path(ident_path("snec"))
}

/// A `#[snec(...)]` annotation with the given arguments.
fn snec_list(args: Vec<NestedMeta>) -> Meta {
    Meta::List(ident_path("snec"), args)
}

/// A `name = "value"` command.
fn name_value(name: &str, value: &str) -> NestedMeta {
    NestedMeta::Meta(Meta::NameValue(
        ident_path(name),
        MetaLit::Str(value.as_bytes().to_vec()),
    ))
}

/// A `name(...)` command.
fn command_list(name: &str, args: Vec<NestedMeta>) -> NestedMeta {
    NestedMeta::Meta(Meta::List(ident_path(name), args))
}

fn field(name: &str, ty: &str, attrs: Vec<Meta>) -> Field {
    Field { name: name.as_bytes().to_vec(), ty: ty.as_bytes().to_vec(), attrs }
}

fn table(name: &str, attrs: Vec<Meta>, fields: Vec<Field>) -> ConfigTableStruct {
    ConfigTableStruct {
        attrs,
        ident: name.as_bytes().to_vec(),
        data: TypeData::Struct(Fields::Named(fields)),
    }
}

fn expect_err(input: ConfigTableStruct, expected: GenError) {
    match derive_config_table_expand(input) {
        Ok(_) => panic!("expected {:?}, got output", expected),
        Err(e) => assert_eq!(e, expected),
    }
}

#[test]
fn basic() {
    let input = table(
        "MyConfigTable",
        vec![],
        vec![field("field", "String", vec![bare_snec()])],
    );
    let out = derive_config_table_expand(input).unwrap();
    assert_eq!(out.struct_name, b"MyConfigTable".to_vec());
    assert_eq!(out.entry_module, b"entries".to_vec());
    assert!(out.entry_module_visibility.is_none());
    assert!(out.entry_module_attributes.is_empty());
    assert_eq!(out.entries.len(), 1);
    assert_eq!(out.entries[0].field_name, b"field".to_vec());
    assert_eq!(out.entries[0].field_type, b"String".to_vec());
    assert_eq!(out.entries[0].marker_name, b"Field".to_vec());
    assert_eq!(out.impls.len(), 1);
    assert_eq!(out.impls[0].field_name, b"field".to_vec());
    assert!(!out.impls[0].marker_path.leading_colon);
    assert_eq!(
        out.impls[0].marker_path.segments,
        vec![b"entries".to_vec(), b"Field".to_vec()]
    );
    assert!(out.impls[0].receiver_expr.leading_colon);
    assert_eq!(
        out.impls[0].receiver_expr.segments,
        vec![b"snec".to_vec(), b"EmptyReceiver".to_vec()]
    );
    assert!(out.impls[0].receiver_type.leading_colon);
    assert_eq!(
        out.impls[0].receiver_type.segments,
        vec![b"snec".to_vec(), b"EmptyReceiver".to_vec()]
    );
}

#[test]
fn bare_annotations_generate_one_marker_and_accessor_per_field() {
    let input = table(
        "T",
        vec![],
        vec![
            field("when", "SystemTime", vec![bare_snec()]),
            field("who", "String", vec![bare_snec()]),
            field("in_which_country", "String", vec![bare_snec()]),
        ],
    );
    let out = derive_config_table_expand(input).unwrap();
    assert_eq!(out.entries.len(), 3);
    assert_eq!(out.impls.len(), 3);
    let markers: Vec<Vec<u8>> = out.entries.iter().map(|e| e.marker_name.clone()).collect();
    assert_eq!(
        markers,
        vec![b"When".to_vec(), b"Who".to_vec(), b"InWhichCountry".to_vec()]
    );
    for (k, e) in out.entries.iter().enumerate() {
        assert_eq!(
            out.impls[k].marker_path.segments,
            vec![b"entries".to_vec(), e.marker_name.clone()]
        );
    }
}

#[test]
fn use_entry_emits_no_marker_and_binds_verbatim() {
    let marker_ref = NestedMeta::Meta(Meta::Path(path(false, &["other_mod", "Marker"])));
    let input = table(
        "T",
        vec![],
        vec![field("x", "u32", vec![snec_list(vec![command_list(
            "use_entry",
            vec![marker_ref],
        )])])],
    );
    let out = derive_config_table_expand(input).unwrap();
    assert_eq!(out.entries.len(), 0);
    assert_eq!(out.impls.len(), 1);
    assert!(!out.impls[0].marker_path.leading_colon);
    assert_eq!(
        out.impls[0].marker_path.segments,
        vec![b"other_mod".to_vec(), b"Marker".to_vec()]
    );
}

#[test]
fn snake_to_camel_exact_values() {
    assert_eq!(
        snec::snake_to_camel(&b"in_which_country".to_vec()),
        b"InWhichCountry".to_vec()
    );
    assert_eq!(snec::snake_to_camel(&b"a__b".to_vec()), b"AB".to_vec());
    assert_eq!(snec::snake_to_camel(&b"_x".to_vec()), b"X".to_vec());
    assert_eq!(snec::snake_to_camel(&b"x_".to_vec()), b"X".to_vec());
    assert_eq!(snec::snake_to_camel(&b"".to_vec()), b"".to_vec());
    assert_eq!(snec::snake_to_camel(&b"which_year2".to_vec()), b"WhichYear2".to_vec());
}

#[test]
fn snake_to_camel_idempotent_on_values() {
    for name in [&b"in_which_country"[..], b"already_Camel", b"a__b_c", b"x"] {
        let once = snec::snake_to_camel(&name.to_vec());
        let twice = snec::snake_to_camel(&once);
        assert_eq!(once, twice);
    }
}

#[test]
fn receiver_override_applies_to_that_field_only() {
    let struct_attr = snec_list(vec![name_value("receiver", "make_default -> DefaultRecv")]);
    let override_cmd = command_list(
        "entry",
        vec![NestedMeta::Lit(MetaLit::Str(b"make_mine -> MineRecv".to_vec()))],
    );
    let input = table(
        "T",
        vec![struct_attr],
        vec![
            field("a", "i32", vec![snec_list(vec![override_cmd])]),
            field("b", "i32", vec![bare_snec()]),
        ],
    );
    let out = derive_config_table_expand(input).unwrap();
    assert_eq!(out.impls.len(), 2);
    assert_eq!(out.impls[0].receiver_expr.segments, vec![b"make_mine".to_vec()]);
    assert_eq!(out.impls[0].receiver_type.segments, vec![b"MineRecv".to_vec()]);
    assert_eq!(out.impls[1].receiver_expr.segments, vec![b"make_default".to_vec()]);
    assert_eq!(out.impls[1].receiver_type.segments, vec![b"DefaultRecv".to_vec()]);
}

#[test]
fn duplicate_receiver_rejected_with_no_output() {
    let input = table(
        "T",
        vec![
            snec_list(vec![name_value("receiver", "a -> A")]),
            snec_list(vec![name_value("receiver", "b -> B")]),
        ],
        vec![field("x", "i32", vec![bare_snec()])],
    );
    expect_err(input, GenError::DuplicateReceiver);
}

#[test]
fn duplicate_entry_module_rejected() {
    let input = table(
        "T",
        vec![snec_list(vec![
            name_value("entry_module", "one"),
            name_value("entry_module", "two"),
        ])],
        vec![],
    );
    expect_err(input, GenError::DuplicateEntryModule);
}

#[test]
fn duplicate_visibility_rejected() {
    let input = table(
        "T",
        vec![snec_list(vec![
            name_value("entry_module_visibility", "pub"),
            name_value("entry_module_visibility", "pub(crate)"),
        ])],
        vec![],
    );
    expect_err(input, GenError::DuplicateEntryModuleVisibility);
}

#[test]
fn custom_entry_module_and_visibility() {
    let input = table(
        "T",
        vec![snec_list(vec![
            name_value("entry_module", "cfg_entries"),
            name_value("entry_module_visibility", "pub"),
        ])],
        vec![field("a", "i32", vec![bare_snec()])],
    );
    let out = derive_config_table_expand(input).unwrap();
    assert_eq!(out.entry_module, b"cfg_entries".to_vec());
    assert_eq!(out.entry_module_visibility, Some(b"pub".to_vec()));
    assert_eq!(
        out.impls[0].marker_path.segments,
        vec![b"cfg_entries".to_vec(), b"A".to_vec()]
    );
}

#[test]
fn entry_module_attributes_appended_verbatim() {
    let lit1 = NestedMeta::Lit(MetaLit::Str(b"doc_one".to_vec()));
    let lit2 = NestedMeta::Lit(MetaLit::Str(b"doc_two".to_vec()));
    let input = table(
        "T",
        vec![
            snec_list(vec![command_list("entry_module_attributes", vec![lit1])]),
            snec_list(vec![command_list("entry_module_attributes", vec![lit2])]),
        ],
        vec![],
    );
    let out = derive_config_table_expand(input).unwrap();
    assert_eq!(out.entry_module_attributes.len(), 2);
    match (&out.entry_module_attributes[0], &out.entry_module_attributes[1]) {
        (NestedMeta::Lit(MetaLit::Str(a)), NestedMeta::Lit(MetaLit::Str(b))) => {
            assert_eq!(a, &b"doc_one".to_vec());
            assert_eq!(b, &b"doc_two".to_vec());
        }
        _ => panic!("module annotations were not kept verbatim"),
    }
}

#[test]
fn named_entry_and_last_binding_wins() {
    // One field carrying both a generation command and a reuse command:
    // the marker is still generated, and the accessor binds to the
    // command that came last.
    let named_entry = command_list(
        "entry",
        vec![NestedMeta::Meta(Meta::Path(ident_path("Renamed")))],
    );
    let reuse = command_list(
        "use_entry",
        vec![NestedMeta::Meta(Meta::Path(path(false, &["m", "M"])))],
    );
    let input = table(
        "T",
        vec![],
        vec![field("x", "i32", vec![snec_list(vec![named_entry, reuse])])],
    );
    let out = derive_config_table_expand(input).unwrap();
    assert_eq!(out.entries.len(), 1);
    assert_eq!(out.entries[0].marker_name, b"Renamed".to_vec());
    assert_eq!(out.impls.len(), 1);
    assert_eq!(out.impls[0].marker_path.segments, vec![b"m".to_vec(), b"M".to_vec()]);
}

#[test]
fn receiver_override_last_one_wins() {
    let first = command_list(
        "entry",
        vec![NestedMeta::Lit(MetaLit::Str(b"r1 -> A".to_vec()))],
    );
    let second = command_list(
        "use_entry",
        vec![
            NestedMeta::Meta(Meta::Path(ident_path("M"))),
            NestedMeta::Lit(MetaLit::Str(b"r2 -> B".to_vec())),
        ],
    );
    let input = table(
        "T",
        vec![],
        vec![field("x", "i32", vec![snec_list(vec![first, second])])],
    );
    let out = derive_config_table_expand(input).unwrap();
    assert_eq!(out.impls.len(), 1);
    assert_eq!(out.impls[0].receiver_expr.segments, vec![b"r2".to_vec()]);
    assert_eq!(out.impls[0].receiver_type.segments, vec![b"B".to_vec()]);
}

#[test]
fn two_annotations_on_one_field_queue_two_markers_and_one_accessor() {
    let named = |n: &str| {
        snec_list(vec![command_list(
            "entry",
            vec![NestedMeta::Meta(Meta::Path(ident_path(n)))],
        )])
    };
    let input = table(
        "T",
        vec![],
        vec![field("x", "i32", vec![named("First"), named("Second")])],
    );
    let out = derive_config_table_expand(input).unwrap();
    assert_eq!(out.entries.len(), 2);
    assert_eq!(out.entries[0].marker_name, b"First".to_vec());
    assert_eq!(out.entries[1].marker_name, b"Second".to_vec());
    assert_eq!(out.impls.len(), 1);
    assert_eq!(
        out.impls[0].marker_path.segments,
        vec![b"entries".to_vec(), b"Second".to_vec()]
    );
}

#[test]
fn empty_struct_derives_an_empty_module() {
    let out = derive_config_table_expand(table("T", vec![], vec![])).unwrap();
    assert_eq!(out.entry_module, b"entries".to_vec());
    assert!(out.entries.is_empty());
    assert!(out.impls.is_empty());
}

#[test]
fn plain_field_produces_nothing() {
    let unrelated = Meta::Path(ident_path("serde"));
    let input = table("T", vec![], vec![field("x", "i32", vec![unrelated])]);
    let out = derive_config_table_expand(input).unwrap();
    assert!(out.entries.is_empty());
    assert!(out.impls.is_empty());
}

#[test]
fn unrelated_struct_annotations_ignored() {
    let unrelated = Meta::List(
        ident_path("derive"),
        vec![NestedMeta::Meta(Meta::Path(ident_path("Debug")))],
    );
    let input = table("T", vec![unrelated], vec![field("a", "i32", vec![bare_snec()])]);
    let out = derive_config_table_expand(input).unwrap();
    assert_eq!(out.entries.len(), 1);
}

#[test]
fn shape_errors() {
    let enum_input = ConfigTableStruct {
        attrs: vec![],
        ident: b"E".to_vec(),
        data: TypeData::Enum,
    };
    expect_err(enum_input, GenError::EnumNotSupported);
    let union_input = ConfigTableStruct {
        attrs: vec![],
        ident: b"U".to_vec(),
        data: TypeData::Union,
    };
    expect_err(union_input, GenError::UnionNotSupported);
    let tuple_input = ConfigTableStruct {
        attrs: vec![],
        ident: b"T".to_vec(),
        data: TypeData::Struct(Fields::Unnamed),
    };
    expect_err(tuple_input, GenError::TupleFieldsNotSupported);
    let unit_input = ConfigTableStruct {
        attrs: vec![],
        ident: b"T".to_vec(),
        data: TypeData::Struct(Fields::Unit),
    };
    expect_err(unit_input, GenError::UnitFieldsNotSupported);
}

#[test]
fn bare_annotation_on_struct_rejected() {
    let input = table("T", vec![bare_snec()], vec![]);
    expect_err(input, GenError::EmptyStructAttribute);
}

#[test]
fn name_value_annotation_rejected() {
    let nv = Meta::NameValue(ident_path("snec"), MetaLit::Str(b"x".to_vec()));
    let input = table("T", vec![nv], vec![]);
    expect_err(input, GenError::NameValueAttribute);
    let nv = Meta::NameValue(ident_path("snec"), MetaLit::Str(b"x".to_vec()));
    let input = table("T", vec![], vec![field("a", "i32", vec![nv])]);
    expect_err(input, GenError::NameValueAttribute);
}

#[test]
fn scope_errors() {
    // A field-only command on the struct.
    let input = table(
        "T",
        vec![snec_list(vec![command_list("entry", vec![])])],
        vec![],
    );
    expect_err(input, GenError::FieldCommandOnStruct);
    // A struct-only command on a field.
    let input = table(
        "T",
        vec![],
        vec![field("a", "i32", vec![snec_list(vec![name_value(
            "receiver",
            "a -> B",
        )])])],
    );
    expect_err(input, GenError::StructCommandOnField);
}

#[test]
fn argument_count_errors() {
    let input = table(
        "T",
        vec![],
        vec![field("a", "i32", vec![snec_list(vec![command_list(
            "use_entry",
            vec![],
        )])])],
    );
    expect_err(input, GenError::WrongArgumentCount);
    let three = vec![
        NestedMeta::Meta(Meta::Path(ident_path("A"))),
        NestedMeta::Lit(MetaLit::Str(b"a -> B".to_vec())),
        NestedMeta::Lit(MetaLit::Str(b"c -> D".to_vec())),
    ];
    let input = table(
        "T",
        vec![],
        vec![field("a", "i32", vec![snec_list(vec![command_list("entry", three)])])],
    );
    expect_err(input, GenError::WrongArgumentCount);
}

#[test]
fn literal_and_syntax_errors() {
    let input = table(
        "T",
        vec![snec_list(vec![NestedMeta::Meta(Meta::NameValue(
            ident_path("receiver"),
            MetaLit::Int(5),
        ))])],
        vec![],
    );
    expect_err(input, GenError::WrongLiteralType);
    let input = table(
        "T",
        vec![snec_list(vec![NestedMeta::Lit(MetaLit::Bool(true))])],
        vec![],
    );
    expect_err(input, GenError::UnrecognizedSyntax);
    let input = table(
        "T",
        vec![snec_list(vec![name_value("frobnicate", "x")])],
        vec![],
    );
    expect_err(input, GenError::UnknownCommand);
}

#[test]
fn duplicate_command_arguments_rejected() {
    let two_names = vec![
        NestedMeta::Meta(Meta::Path(ident_path("A"))),
        NestedMeta::Meta(Meta::Path(ident_path("B"))),
    ];
    let input = table(
        "T",
        vec![],
        vec![field("a", "i32", vec![snec_list(vec![command_list("entry", two_names)])])],
    );
    expect_err(input, GenError::DuplicateMarkerName);
    let two_receivers = vec![
        NestedMeta::Lit(MetaLit::Str(b"a -> B".to_vec())),
        NestedMeta::Lit(MetaLit::Str(b"c -> D".to_vec())),
    ];
    let input = table(
        "T",
        vec![],
        vec![field("a", "i32", vec![snec_list(vec![command_list(
            "entry",
            two_receivers,
        )])])],
    );
    expect_err(input, GenError::DuplicateReceiverArg);
}

#[test]
fn malformed_inputs_rejected() {
    let qualified_name = vec![NestedMeta::Meta(Meta::Path(path(false, &["a", "B"])))];
    let input = table(
        "T",
        vec![],
        vec![field("a", "i32", vec![snec_list(vec![command_list(
            "entry",
            qualified_name,
        )])])],
    );
    expect_err(input, GenError::MalformedPath);
    let input = table(
        "T",
        vec![snec_list(vec![name_value("entry_module", "not an ident!")])],
        vec![],
    );
    expect_err(input, GenError::MalformedModuleName);
    let input = table(
        "T",
        vec![snec_list(vec![name_value("receiver", "no arrow here")])],
        vec![],
    );
    expect_err(input, GenError::MalformedReceiver);
}

#[test]
fn receiver_text_grammar() {
    let ok = AnnotatedReceiverFn::parse(&b"  ::snec::EmptyReceiver ->\t::snec::EmptyReceiver  ".to_vec())
        .unwrap();
    assert!(ok.receiver_fn.leading_colon);
    assert_eq!(
        ok.receiver_fn.segments,
        vec![b"snec".to_vec(), b"EmptyReceiver".to_vec()]
    );
    assert!(ok.annotation.leading_colon);

    let ok = AnnotatedReceiverFn::parse(&b"make_it->Type2".to_vec()).unwrap();
    assert!(!ok.receiver_fn.leading_colon);
    assert_eq!(ok.receiver_fn.segments, vec![b"make_it".to_vec()]);
    assert_eq!(ok.annotation.segments, vec![b"Type2".to_vec()]);

    for bad in [
        &b""[..],
        b"a",
        b"a ->",
        b"-> b",
        b"a - > b",
        b"a b -> c",
        b"a -> b extra",
        b"a -> b -> c",
        b"1a -> b",
        b"a:: -> b",
    ] {
        assert_eq!(
            AnnotatedReceiverFn::parse(&bad.to_vec()).unwrap_err(),
            GenError::MalformedReceiver,
            "{:?} should be malformed",
            String::from_utf8_lossy(bad)
        );
    }
}

#[test]
fn receiver_text_round_trip_on_values() {
    for text in [
        &b"make_it -> Type2"[..],
        b"::snec::EmptyReceiver -> ::snec::EmptyReceiver",
        b"a::b::c -> d::e",
    ] {
        let parsed = AnnotatedReceiverFn::parse(&text.to_vec()).unwrap();
        let mut rendered: Vec<u8> = Vec::new();
        if parsed.receiver_fn.leading_colon {
            rendered.extend_from_slice(b"::");
        }
        rendered.extend_from_slice(&parsed.receiver_fn.segments.join(&b"::"[..]));
        rendered.extend_from_slice(b" -> ");
        if parsed.annotation.leading_colon {
            rendered.extend_from_slice(b"::");
        }
        rendered.extend_from_slice(&parsed.annotation.segments.join(&b"::"[..]));
        let reparsed = AnnotatedReceiverFn::parse(&rendered).unwrap();
        assert_eq!(reparsed.receiver_fn.segments, parsed.receiver_fn.segments);
        assert_eq!(reparsed.receiver_fn.leading_colon, parsed.receiver_fn.leading_colon);
        assert_eq!(reparsed.annotation.segments, parsed.annotation.segments);
        assert_eq!(reparsed.annotation.leading_colon, parsed.annotation.leading_colon);
    }
}

#[test]
fn helper_functions() {
    assert_eq!(snec::default_entry_module(), b"entries".to_vec());
    let p = snec::default_receiver_expr();
    assert!(p.leading_colon);
    assert_eq!(p.segments, vec![b"snec".to_vec(), b"EmptyReceiver".to_vec()]);
    let p = snec::default_receiver_type();
    assert_eq!(p.segments, vec![b"snec".to_vec(), b"EmptyReceiver".to_vec()]);

    let joined = snec::concat_to_path(b"entries".to_vec(), b"Field".to_vec());
    assert!(!joined.leading_colon);
    assert_eq!(joined.segments, vec![b"entries".to_vec(), b"Field".to_vec()]);

    let explicit = snec::path_to_generated_entry(
        b"entries".to_vec(),
        Some(b"Custom".to_vec()),
        &b"my_field".to_vec(),
    );
    assert_eq!(explicit.segments, vec![b"entries".to_vec(), b"Custom".to_vec()]);
    let derived = snec::path_to_generated_entry(b"entries".to_vec(), None, &b"my_field".to_vec());
    assert_eq!(derived.segments, vec![b"entries".to_vec(), b"MyField".to_vec()]);

    let kept = snec::filter_to_snec_attributes(vec![
        Meta::Path(ident_path("serde")),
        bare_snec(),
        Meta::List(ident_path("derive"), vec![]),
        snec_list(vec![]),
    ]);
    assert_eq!(kept.len(), 2);

    assert!(snec::is_ident_text(&b"module_1".to_vec()));
    assert!(!snec::is_ident_text(&b"1module".to_vec()));
    assert!(!snec::is_ident_text(&b"".to_vec()));
    assert!(!snec::is_ident_text(&b"has space".to_vec()));
}
