use builder::{
    classify, extract_inner_option, extract_inner_vec, generate, validate_annotations, Annotation,
    AnnotationBody, BuilderArtifacts, ExtractRule, FieldDescriptor, GenError, GenericArg, InitKind,
    PathShape, RecordData, RecordDescription, SetterKind, SlotKind, SupplyDiscipline, TypeExpr,
};

fn bare(text: &str) -> TypeExpr {
    TypeExpr {
        text: text.to_string(),
        path: Some(PathShape { head: text.to_string(), args: vec![] }),
    }
}

fn wrapped(head: &str, inner: &str) -> TypeExpr {
    TypeExpr {
        text: format!("{}<{}>", head, inner),
        path: Some(PathShape {
            head: head.to_string(),
            args: vec![GenericArg::TypeArg(inner.to_string())],
        }),
    }
}

fn field(name: &str, ty: TypeExpr, annotations: Vec<Annotation>) -> FieldDescriptor {
    FieldDescriptor { name: name.to_string(), declared_type: ty, annotations }
}

fn annot(marker: &str, key: &str, value: &str) -> Annotation {
    Annotation {
        marker: marker.to_string(),
        body: AnnotationBody::KeyEqStr { key: key.to_string(), value: value.to_string() },
    }
}

fn record(name: &str, fields: Vec<FieldDescriptor>) -> RecordDescription {
    RecordDescription { name: name.to_string(), data: RecordData::NamedFields(fields) }
}

#[test]
fn extract_inner_option_matches_single_type_arg() {
    assert_eq!(extract_inner_option(&wrapped("Option", "String")), Some("String".to_string()));
    assert_eq!(extract_inner_option(&wrapped("Option", "Vec<u8>")), Some("Vec<u8>".to_string()));
}

#[test]
fn extract_inner_option_rejects_other_shapes() {
    assert_eq!(extract_inner_option(&bare("String")), None);
    assert_eq!(extract_inner_option(&wrapped("Vec", "String")), None);
    // a type that is not a plain path at all
    let refty = TypeExpr { text: "&'a str".to_string(), path: None };
    assert_eq!(extract_inner_option(&refty), None);
}

#[test]
fn extract_inner_wrapper_rejects_wrong_arity_or_non_type_args() {
    // zero generic arguments
    assert_eq!(extract_inner_option(&bare("Option")), None);
    // two generic arguments
    let two = TypeExpr {
        text: "Option<A, B>".to_string(),
        path: Some(PathShape {
            head: "Option".to_string(),
            args: vec![GenericArg::TypeArg("A".to_string()), GenericArg::TypeArg("B".to_string())],
        }),
    };
    assert_eq!(extract_inner_option(&two), None);
    // one argument that is not a plain type
    let lifetime = TypeExpr {
        text: "Option<'a>".to_string(),
        path: Some(PathShape { head: "Option".to_string(), args: vec![GenericArg::OtherArg] }),
    };
    assert_eq!(extract_inner_option(&lifetime), None);
}

#[test]
fn extract_inner_vec_matches_single_type_arg() {
    assert_eq!(extract_inner_vec(&wrapped("Vec", "String")), Some("String".to_string()));
    assert_eq!(extract_inner_vec(&wrapped("Option", "String")), None);
    assert_eq!(extract_inner_vec(&bare("u32")), None);
}

#[test]
fn classify_bare_is_mandatory() {
    let f = field("id", bare("u32"), vec![]);
    assert_eq!(classify(&f), Ok(SupplyDiscipline::Mandatory("u32".to_string())));
}

#[test]
fn classify_optional_wrapper_is_optional() {
    let f = field("label", wrapped("Option", "String"), vec![]);
    assert_eq!(classify(&f), Ok(SupplyDiscipline::Optional("String".to_string())));
}

#[test]
fn classify_collection_wrapper_is_accumulating() {
    let f = field("tags", wrapped("Vec", "String"), vec![]);
    assert_eq!(classify(&f), Ok(SupplyDiscipline::Accumulating("String".to_string(), None)));
}

#[test]
fn classify_collection_with_each_annotation() {
    let f = field("tags", wrapped("Vec", "String"), vec![annot("builder", "each", "tag")]);
    assert_eq!(
        classify(&f),
        Ok(SupplyDiscipline::Accumulating("String".to_string(), Some("tag".to_string())))
    );
}

#[test]
fn classify_wrong_key_is_rejected_with_diagnostic() {
    let f = field("tags", wrapped("Vec", "String"), vec![annot("builder", "every", "tag")]);
    let err = classify(&f).unwrap_err();
    assert_eq!(err, GenError::BadAnnotation { field: "tags".to_string() });
    assert_eq!(err.message(), "expected `builder(each = \"...\")`");
}

#[test]
fn classify_malformed_annotation_is_rejected_with_diagnostic() {
    let bad = Annotation { marker: "builder".to_string(), body: AnnotationBody::Malformed };
    let f = field("tags", wrapped("Vec", "String"), vec![bad]);
    let err = classify(&f).unwrap_err();
    assert_eq!(err, GenError::BadAnnotation { field: "tags".to_string() });
    assert_eq!(err.message(), "expected `builder(each = \"...\")`");
}

#[test]
fn classify_ignores_unrecognized_markers() {
    let f = field("tags", wrapped("Vec", "String"), vec![annot("serde", "rename", "t")]);
    assert_eq!(classify(&f), Ok(SupplyDiscipline::Accumulating("String".to_string(), None)));
}

#[test]
fn classify_ignores_annotations_on_non_collection_fields() {
    // even a malformed entry has no effect on a mandatory field
    let bad = Annotation { marker: "builder".to_string(), body: AnnotationBody::Malformed };
    let f = field("id", bare("u32"), vec![bad]);
    assert_eq!(classify(&f), Ok(SupplyDiscipline::Mandatory("u32".to_string())));
}

#[test]
fn classify_wrong_arity_wrapper_falls_back_to_mandatory() {
    let two = TypeExpr {
        text: "Option<A, B>".to_string(),
        path: Some(PathShape {
            head: "Option".to_string(),
            args: vec![GenericArg::TypeArg("A".to_string()), GenericArg::TypeArg("B".to_string())],
        }),
    };
    let f = field("odd", two, vec![]);
    assert_eq!(classify(&f), Ok(SupplyDiscipline::Mandatory("Option<A, B>".to_string())));
}

#[test]
fn validate_annotations_takes_first_recognized_entry() {
    let name = "tags".to_string();
    let annots = vec![
        annot("serde", "each", "x"),
        annot("builder", "each", "first"),
        annot("builder", "each", "second"),
    ];
    assert_eq!(validate_annotations(&name, &annots), Ok(Some("first".to_string())));
}

#[test]
fn validate_annotations_rejects_any_bad_recognized_entry() {
    let name = "tags".to_string();
    let annots = vec![annot("builder", "each", "tag"), annot("builder", "every", "tag")];
    assert_eq!(
        validate_annotations(&name, &annots),
        Err(GenError::BadAnnotation { field: "tags".to_string() })
    );
}

#[test]
fn generate_rejects_non_record_shapes() {
    let input = RecordDescription { name: "NotAStruct".to_string(), data: RecordData::Unsupported };
    let err = generate(input).unwrap_err();
    assert_eq!(err, GenError::UnsupportedShape);
    assert_eq!(err.message(), "We don't support anything but structs");
    assert_eq!(err.field(), None);
}

fn command_record() -> RecordDescription {
    record(
        "Command",
        vec![
            field("id", bare("i64"), vec![]),
            field("label", wrapped("Option", "String"), vec![]),
            field("tags", wrapped("Vec", "String"), vec![annot("builder", "each", "tag")]),
        ],
    )
}

#[test]
fn generate_derives_builder_name_from_record_name() {
    let arts = generate(command_record()).unwrap();
    assert_eq!(arts.record_name, "Command");
    assert_eq!(arts.builder_name, "CommandBuilder");
}

#[test]
fn generate_emits_layout_inits_and_extraction_rules() {
    let arts: BuilderArtifacts = generate(command_record()).unwrap();

    assert_eq!(arts.inits, vec![InitKind::Absent, InitKind::Absent, InitKind::EmptyCollection]);

    assert_eq!(arts.slots.len(), 3);
    assert_eq!(arts.slots[0].name, "id");
    assert_eq!(arts.slots[0].kind, SlotKind::ValueOrAbsent("i64".to_string()));
    assert_eq!(arts.slots[1].name, "label");
    assert_eq!(arts.slots[1].kind, SlotKind::ValueOrAbsent("String".to_string()));
    assert_eq!(arts.slots[2].name, "tags");
    assert_eq!(arts.slots[2].kind, SlotKind::Collection("Vec<String>".to_string()));

    assert_eq!(
        arts.extracts,
        vec![ExtractRule::TakeRequired, ExtractRule::TakeOptional, ExtractRule::CloneCollection]
    );
}

#[test]
fn generate_emits_one_setter_per_plain_field_and_two_for_annotated_collections() {
    let arts = generate(command_record()).unwrap();
    assert_eq!(arts.setters.len(), 4);

    assert_eq!(arts.setters[0].name, "id");
    assert_eq!(arts.setters[0].field, "id");
    assert_eq!(arts.setters[0].param_type, "i64");
    assert_eq!(arts.setters[0].kind, SetterKind::AssignPresent);

    assert_eq!(arts.setters[1].name, "label");
    assert_eq!(arts.setters[1].param_type, "String");
    assert_eq!(arts.setters[1].kind, SetterKind::AssignPresent);

    assert_eq!(arts.setters[2].name, "tags");
    assert_eq!(arts.setters[2].param_type, "Vec<String>");
    assert_eq!(arts.setters[2].kind, SetterKind::ReplaceCollection);

    assert_eq!(arts.setters[3].name, "tag");
    assert_eq!(arts.setters[3].field, "tags");
    assert_eq!(arts.setters[3].param_type, "String");
    assert_eq!(arts.setters[3].kind, SetterKind::AppendElement);
}

#[test]
fn generate_tie_break_keeps_only_the_element_setter() {
    // the element-setter name equals the field name: the whole-collection
    // setter is suppressed, leaving a single appending method
    let input = record(
        "Task",
        vec![field("tags", wrapped("Vec", "String"), vec![annot("builder", "each", "tags")])],
    );
    let arts = generate(input).unwrap();
    assert_eq!(arts.setters.len(), 1);
    assert_eq!(arts.setters[0].name, "tags");
    assert_eq!(arts.setters[0].field, "tags");
    assert_eq!(arts.setters[0].param_type, "String");
    assert_eq!(arts.setters[0].kind, SetterKind::AppendElement);
}

#[test]
fn generate_accepts_a_record_without_fields() {
    let arts = generate(record("Unit", vec![])).unwrap();
    assert_eq!(arts.builder_name, "UnitBuilder");
    assert!(arts.inits.is_empty());
    assert!(arts.slots.is_empty());
    assert!(arts.setters.is_empty());
    assert!(arts.extracts.is_empty());
}

#[test]
fn generate_reports_the_first_offending_field() {
    let input = record(
        "Broken",
        vec![
            field("ok", bare("u8"), vec![]),
            field("first", wrapped("Vec", "u8"), vec![annot("builder", "every", "x")]),
            field("second", wrapped("Vec", "u8"), vec![annot("builder", "every", "y")]),
        ],
    );
    let err = generate(input).unwrap_err();
    assert_eq!(err, GenError::BadAnnotation { field: "first".to_string() });
    assert_eq!(err.field().map(|s| s.as_str()), Some("first"));
}
