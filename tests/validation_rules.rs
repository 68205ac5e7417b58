use schemeless::engine::check_duplicate_field_names;
use schemeless::rules::{check_boolean_text, check_deprecated_class, check_supported_class};
use schemeless::{
    check_required_field, ends_with, last_segment_of, schema_operations, schema_parser,
    starts_with, str_eq, validate_events, Attribute, ElementKind, Event, SchemaError,
    SchemaState,
};

fn s(text: &str) -> String {
    text.to_string()
}

fn wrap(body: &str) -> String {
    format!("<schema version=\"1.6\">{}</schema>", body)
}

fn start(tag: &str, attrs: &[(&str, &str)]) -> Event {
    Event::Start {
        tag: s(tag),
        attributes: attrs.iter().map(|(k, v)| Attribute::new(k, v)).collect(),
    }
}

#[test]
fn minimal_field_and_type_pass() {
    let doc = wrap(
        r#"<field name="id" type="id_unique" required="true" stored="true"/><fieldType name="id_unique" class="solr.StrField" sortMissingLast="true"/>"#,
    );
    assert_eq!(schema_operations(&doc), Ok(()));
}

#[test]
fn trie_int_field_is_deprecated() {
    let doc = wrap(r#"<fieldType name="x" class="solr.TrieIntField" positionIncrementGap="0"/>"#);
    assert_eq!(
        schema_operations(&doc),
        Err(SchemaError::DeprecatedImplementationClass {
            class: s("solr.TrieIntField"),
            element: Some(s("x")),
        })
    );
}

#[test]
fn self_copy_fails_without_declaration() {
    let doc = wrap(r#"<copyField source="doi" dest="doi"/>"#);
    assert_eq!(
        schema_operations(&doc),
        Err(SchemaError::SelfReferentialCopy { field: s("doi") })
    );
}

#[test]
fn self_copy_fails_with_declaration() {
    let doc = wrap(
        r#"<field name="doi" type="string"/><fieldType name="string" class="solr.StrField" docValues="true"/><copyField source="doi" dest="doi"/>"#,
    );
    assert_eq!(
        schema_operations(&doc),
        Err(SchemaError::SelfReferentialCopy { field: s("doi") })
    );
}

#[test]
fn validating_twice_gives_same_verdict() {
    let good = wrap(
        r#"<uniqueKey>id</uniqueKey><field name="id" type="string"/><fieldType name="string" class="solr.StrField" positionIncrementGap="0"/>"#,
    );
    assert_eq!(schema_operations(&good), Ok(()));
    assert_eq!(schema_operations(&good), Ok(()));
    let bad = wrap(r#"<fieldType name="s" class="solr.StrField"/><fieldType name="s" class="solr.StrField"/>"#);
    let first = schema_operations(&bad);
    assert_eq!(first, schema_operations(&bad));
    assert_eq!(first, Err(SchemaError::DuplicateName { tag: s("fieldType"), name: s("s") }));
}

#[test]
fn unknown_tags_are_unsupported() {
    for tag in ["fields", "Field", "types", "copyfield", "x"] {
        let events = vec![start(tag, &[("name", "a")])];
        assert_eq!(
            validate_events(&events),
            Err(SchemaError::UnsupportedElement { tag: s(tag) })
        );
    }
}

#[test]
fn accepted_tags_pass_unchecked() {
    for tag in ["schema", "similarity", "analyzer", "tokenizer", "filter", "charFilter"] {
        let events = vec![start(tag, &[("anything", "goes")])];
        assert_eq!(validate_events(&events), Ok(()));
    }
}

#[test]
fn dynamic_field_without_name_is_refused() {
    let events = vec![start("dynamicField", &[("type", "string"), ("stored", "true")])];
    assert_eq!(
        validate_events(&events),
        Err(SchemaError::MissingRequiredAttribute { tag: s("dynamicField") })
    );
}

#[test]
fn boolean_values_are_case_sensitive() {
    let events = vec![start(
        "dynamicField",
        &[("name", "*_s"), ("type", "string"), ("indexed", "TRUE")],
    )];
    assert_eq!(
        validate_events(&events),
        Err(SchemaError::InvalidBooleanValue {
            tag: s("dynamicField"),
            property: s("indexed"),
            value: s("TRUE"),
            name: s("*_s"),
        })
    );
}

#[test]
fn default_value_is_free_text() {
    let events = vec![
        start("field", &[("name", "n"), ("type", "int"), ("default", "0")]),
        start("fieldType", &[("name", "int"), ("class", "solr.IntPointField"), ("docValuesFormat", "x")]),
    ];
    assert_eq!(validate_events(&events), Ok(()));
}

#[test]
fn copy_field_without_endpoints_reports_dest_first() {
    let events = vec![start("copyField", &[("maxChars", "10")])];
    assert_eq!(validate_events(&events), Err(SchemaError::MissingDest));
}

#[test]
fn deprecated_class_wins_over_supported_class() {
    let events = vec![start(
        "fieldType",
        &[("name", "t"), ("class", "solr.StrField"), ("class", "org.apache.solr.schema.TrieLongField")],
    )];
    assert_eq!(
        validate_events(&events),
        Err(SchemaError::DeprecatedImplementationClass {
            class: s("org.apache.solr.schema.TrieLongField"),
            element: Some(s("t")),
        })
    );
}

#[test]
fn class_outside_namespace_is_unsupported() {
    let events = vec![start("fieldType", &[("class", "com.example.StrField"), ("positionIncrementGap", "0")])];
    assert_eq!(
        validate_events(&events),
        Err(SchemaError::UnsupportedImplementationClass { element: None })
    );
}

#[test]
fn field_type_without_name_is_refused() {
    let events = vec![start("fieldType", &[("class", "solr.TextField"), ("positionIncrementGap", "100")])];
    assert_eq!(
        validate_events(&events),
        Err(SchemaError::MissingRequiredAttribute { tag: s("fieldType") })
    );
}

#[test]
fn constant_names_may_repeat() {
    let events = vec![
        start("fieldType", &[("name", "_version_"), ("class", "solr.LongPointField")]),
        start("fieldType", &[("name", "_version_"), ("class", "solr.LongPointField")]),
    ];
    assert_eq!(validate_events(&events), Ok(()));
}

#[test]
fn constant_field_names_still_get_one_type() {
    let events = vec![
        start("field", &[("name", "_version_"), ("type", "plong")]),
        start("field", &[("name", "_version_"), ("type", "plong")]),
    ];
    assert_eq!(
        validate_events(&events),
        Err(SchemaError::DuplicateTypeDeclaration { field: s("_version_") })
    );
}

#[test]
fn same_name_under_two_kinds_is_allowed() {
    let doc = wrap(
        r#"<field name="text" type="text"/><fieldType name="text" class="solr.TextField" positionIncrementGap="100"/>"#,
    );
    assert_eq!(schema_operations(&doc), Ok(()));
}

#[test]
fn reserved_names_are_refused_on_first_use() {
    for (tag, name) in [("field", "set"), ("dynamicField", "remove"), ("fieldType", "add")] {
        let events = if tag == "fieldType" {
            vec![start(tag, &[("name", name), ("class", "solr.StrField")])]
        } else {
            vec![start(tag, &[("name", name), ("type", "string")])]
        };
        assert_eq!(
            validate_events(&events),
            Err(SchemaError::ReservedNameUsed { tag: s(tag), name: s(name) })
        );
    }
}

#[test]
fn unique_key_on_dynamic_field_is_unresolved() {
    let doc = wrap(
        r#"<uniqueKey>id</uniqueKey><dynamicField name="id" type="string"/><fieldType name="string" class="solr.StrField" docValues="true"/>"#,
    );
    assert_eq!(
        schema_operations(&doc),
        Err(SchemaError::UnresolvedUniqueKey { field: s("id") })
    );
}

#[test]
fn unique_key_is_checked_before_types() {
    let doc = wrap(r#"<uniqueKey>key</uniqueKey><field name="id" type="missing"/>"#);
    assert_eq!(
        schema_operations(&doc),
        Err(SchemaError::UnresolvedUniqueKey { field: s("key") })
    );
}

#[test]
fn copy_edges_resolve_against_fields() {
    let doc = wrap(
        r#"<field name="a" type="s"/><field name="b" type="s"/><fieldType name="s" class="solr.StrField" docValues="true"/><copyField source="a" dest="b"/><copyField source="c" dest="a"/>"#,
    );
    assert_eq!(
        schema_operations(&doc),
        Err(SchemaError::UnresolvedCopyFieldEndpoint { field: s("c") })
    );
}

#[test]
fn last_attribute_occurrence_wins() {
    let events = vec![
        start("field", &[("name", "first"), ("name", "second"), ("type", "s")]),
        start("fieldType", &[("name", "s"), ("class", "solr.StrField")]),
        start("copyField", &[("source", "second"), ("dest", "first")]),
    ];
    assert_eq!(
        validate_events(&events),
        Err(SchemaError::UnresolvedCopyFieldEndpoint { field: s("first") })
    );
}

#[test]
fn unreadable_document_is_resolved_up_to_the_error() {
    let doc = r#"<schema><field name="a" type="t"/><fieldType name="u" class="solr.StrField"/>"#;
    assert_eq!(
        schema_operations(doc),
        Err(SchemaError::UnresolvedFieldType { field: s("a"), field_type: s("t") })
    );
}

#[test]
fn unreadable_event_stops_the_stream() {
    let events = vec![Event::Unreadable, start("bogus", &[])];
    assert_eq!(validate_events(&events), Ok(()));
}

#[test]
fn text_outside_unique_key_is_ignored() {
    let events = vec![
        Event::Text(s("stray")),
        start("uniqueKey", &[]),
        Event::Other,
        Event::Text(s("id")),
        Event::Text(s("later")),
    ];
    assert_eq!(
        validate_events(&events),
        Err(SchemaError::UnresolvedUniqueKey { field: s("id") })
    );
}

#[test]
fn engine_steps_one_event_at_a_time() {
    let mut state = SchemaState::new();
    let field = vec![Attribute::new("name", "id"), Attribute::new("type", "string")];
    assert_eq!(schema_parser(&mut state, "field", &field), Ok(()));
    assert_eq!(schema_parser(&mut state, "uniqueKey", &vec![]), Ok(()));
    state.observe_text("id");
    assert_eq!(
        state.resolve(),
        Err(SchemaError::UnresolvedFieldType { field: s("id"), field_type: s("string") })
    );
    let ty = vec![Attribute::new("name", "string"), Attribute::new("class", "solr.StrField")];
    assert_eq!(schema_parser(&mut state, "fieldType", &ty), Ok(()));
    assert_eq!(state.resolve(), Ok(()));
    assert_eq!(
        schema_parser(&mut state, "field", &field),
        Err(SchemaError::DuplicateTypeDeclaration { field: s("id") })
    );
    assert_eq!(state.resolve(), Ok(()));
}

#[test]
fn registering_names() {
    let mut names: Vec<(String, String)> = Vec::new();
    assert_eq!(check_duplicate_field_names(&mut names, "field", &s("a")), Ok(()));
    assert_eq!(names, vec![(s("field"), s("a"))]);
    assert_eq!(check_duplicate_field_names(&mut names, "fieldType", &s("a")), Ok(()));
    assert_eq!(
        check_duplicate_field_names(&mut names, "field", &s("a")),
        Err(SchemaError::DuplicateName { tag: s("field"), name: s("a") })
    );
    assert_eq!(
        check_duplicate_field_names(&mut names, "field", &s("remove")),
        Err(SchemaError::ReservedNameUsed { tag: s("field"), name: s("remove") })
    );
    assert_eq!(check_duplicate_field_names(&mut names, "field", &s("_root_")), Ok(()));
    assert_eq!(check_duplicate_field_names(&mut names, "field", &s("_root_")), Ok(()));
    assert_eq!(names.len(), 4);
}

#[test]
fn required_fields_are_all_present() {
    let required = vec!["name", "type"];
    assert!(check_required_field(&required, vec!["type", "stored", "name"]));
    assert!(!check_required_field(&required, vec!["name", "stored"]));
    assert!(!check_required_field(&required, vec![]));
    assert!(check_required_field(&vec![], vec![]));
}

#[test]
fn element_kinds_by_tag() {
    assert_eq!(ElementKind::from_tag("field"), ElementKind::Field);
    assert_eq!(ElementKind::from_tag("dynamicField"), ElementKind::DynamicField);
    assert_eq!(ElementKind::from_tag("copyField"), ElementKind::CopyField);
    assert_eq!(ElementKind::from_tag("fieldType"), ElementKind::FieldType);
    assert_eq!(ElementKind::from_tag("uniqueKey"), ElementKind::UniqueKey);
    assert_eq!(ElementKind::from_tag("analyzer"), ElementKind::Other(s("analyzer")));
}

#[test]
fn string_helpers() {
    assert!(str_eq("field", "field"));
    assert!(!str_eq("field", "fields"));
    assert!(!str_eq("field", "Field"));
    assert!(starts_with("solr.StrField", "solr."));
    assert!(!starts_with("sol", "solr."));
    assert!(ends_with("solr.StrField", "StrField"));
    assert!(!ends_with("solr.StrFields", "StrField"));
    assert_eq!(last_segment_of("org.apache.solr.schema.TrieField"), "TrieField");
    assert_eq!(last_segment_of("TrieField"), "TrieField");
    assert_eq!(last_segment_of("solr."), "");
    assert_eq!(last_segment_of(""), "");
}

#[test]
fn class_rules() {
    assert!(check_supported_class("solr.DatePointField"));
    assert!(check_supported_class("org.apache.solr.schema.UUIDField"));
    assert!(!check_supported_class("solr.datePointField"));
    assert!(check_deprecated_class("solr.TrieDateField"));
    assert!(check_deprecated_class("EnumField"));
    assert!(!check_deprecated_class("solr.EnumFieldType"));
    assert!(check_boolean_text("false"));
    assert!(!check_boolean_text("False"));
}
