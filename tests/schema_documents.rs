use schemeless::{schema_operations, SchemaError};

fn s(text: &str) -> String {
    text.to_string()
}

#[test]
fn test_schema_with_incorrect_definition() {
    let example = r#"
        <schema version="1.6">
            <similarity class="solr.BM25SimilarityFactory" />
            <fiedTtype name="string" class="solr.StrField" sortMissingLast="true" docValues="true" />
        </schema>
        "#;
    assert_eq!(
        schema_operations(example),
        Err(SchemaError::UnsupportedElement { tag: s("fiedTtype") })
    );
}

#[test]
fn test_schema_with_missing_uniquekey() {
    let example = r#"
        <schema version="1.6">
        <uniqueKey>id</uniqueKey>
        <fieldType name="string" class="solr.StrField" sortMissingLast="true" docValues="true" />
        </schema>
        "#;
    assert_eq!(
        schema_operations(example),
        Err(SchemaError::UnresolvedUniqueKey { field: s("id") })
    );
}

#[test]
fn test_schema_with_correct_attributes() {
    let example = r#"
        <schema version="1.6">
        <field name="id" type="id_unique" required="true" stored="true" />
        <fieldType name="string" class="solr.StrField" sortMissingLast="true" docValues="true" />
        <fieldType name="id_unique" class="solr.StrField" sortMissingLast="true" docValues="true" />
        </schema>
        "#;
    assert_eq!(schema_operations(example), Ok(()));
}

#[test]
fn test_schema_with_incorrect_type_reference() {
    let example = r#"
        <schema version="1.6">
        <field name="id" type="id_unique" required="true" stored="true" />
        <fieldType name="string" class="solr.StrField" sortMissingLast="true" docValues="true" />
        </schema>
        "#;
    assert_eq!(
        schema_operations(example),
        Err(SchemaError::UnresolvedFieldType { field: s("id"), field_type: s("id_unique") })
    );
}

#[test]
fn test_schema_with_missing_type() {
    let example = r#"
        <schema version="1.6">
        <field name="id" required="true" stored="true" />
        <fieldType name="string" class="solr.StrField" sortMissingLast="true" docValues="true" />
        </schema>
        "#;
    assert_eq!(
        schema_operations(example),
        Err(SchemaError::MissingRequiredAttribute { tag: s("field") })
    );
}

#[test]
fn test_schema_with_incorrect_bool_value() {
    let example = r#"
        <schema version="1.6">
        <field name="id" type="id_unique" required="true" stored="TruE" />
        <fieldType name="string" class="solr.StrField" sortMissingLast="true" docValues="true" />
        </schema>
        "#;
    assert_eq!(
        schema_operations(example),
        Err(SchemaError::InvalidBooleanValue {
            tag: s("field"),
            property: s("stored"),
            value: s("TruE"),
            name: s("id"),
        })
    );
}

#[test]
fn test_schema_with_incorrect_attribute() {
    let example = r#"
        <schema version="1.6">
        <field name="id" type="id_unique" equired="true" stored="TruE" />
        <fieldType name="string" class="solr.StrField" sortMissingLast="true" docValues="true" />
        </schema>
        "#;
    assert_eq!(
        schema_operations(example),
        Err(SchemaError::UnrecognizedOptionalAttribute { tag: s("field"), attribute: s("equired") })
    );
}

#[test]
fn test_copyfied_source() {
    let example = r#"
        <schema version="1.6">
        <field name="id" type="id_unique" required="true" stored="true" />
        <fieldType name="string" class="solr.StrField" sortMissingLast="true" docValues="true" />
        <copyField dest="doi_string" />
        </schema>
        "#;
    assert_eq!(schema_operations(example), Err(SchemaError::MissingSource));
}

#[test]
fn test_copyfied_dest() {
    let example = r#"
        <schema version="1.6">
        <field name="id" type="id_unique" required="true" stored="true" />
        <fieldType name="string" class="solr.StrField" sortMissingLast="true" docValues="true" />
        <copyField source="doi"  />
        </schema>
        "#;
    assert_eq!(schema_operations(example), Err(SchemaError::MissingDest));
}

#[test]
fn test_copyfied_source_dest() {
    let example = r#"
        <schema version="1.6">
        <field name="id" type="id_unique" required="true" stored="true" />
        <fieldType name="string" class="solr.StrField" sortMissingLast="true" docValues="true" />
        <copyField source="doi" dest="doi" />
        </schema>
        "#;
    assert_eq!(
        schema_operations(example),
        Err(SchemaError::SelfReferentialCopy { field: s("doi") })
    );
}

#[test]
fn test_undefined_solr_class() {
    let example = r#"
        <schema version="1.6">
        <field name="id" type="id_unique" required="true" stored="true" />
        <fieldType name="string" class="solr.StrField" sortMissingLast="true" docValues="true" />
        <copyField source="doi" dest="doid" />
        <fieldType name="pdates" class="solr.datePointField" docValues="true" multiValued="true" />
        </schema>
        "#;
    assert_eq!(
        schema_operations(example),
        Err(SchemaError::UnsupportedImplementationClass { element: Some(s("pdates")) })
    );
}

#[test]
fn test_deprecated_type() {
    let example = r#"
        <schema version="1.6">
        <field name="id" type="id_unique" required="true" stored="true" />
        <fieldType name="string" class="solr.StrField" sortMissingLast="true" docValues="true" />
        <copyField source="doi" dest="doid" />
        <fieldType name="int" class="solr.TrieDoubleField" positionIncrementGap="0" docValues="true" />
        </schema>
        "#;
    assert_eq!(
        schema_operations(example),
        Err(SchemaError::DeprecatedImplementationClass {
            class: s("solr.TrieDoubleField"),
            element: Some(s("int")),
        })
    );
}

#[test]
fn test_general_attributes() {
    let example = r#"
        <schema version="1.6">
        <field name="id" type="id_unique" required="true" stored="true" />
        <fieldType name="string" class="solr.StrField" sortMissingLast="true" docValues="true" />
        <copyField source="doi" dest="doid" />
        <fieldType class="solr.DoublePointField"  />
        </schema>
        "#;
    assert_eq!(schema_operations(example), Err(SchemaError::NoRecognizedAttributes));
}

#[test]
fn test_field_not_found_in_copy_field() {
    let example = r#"
        <schema version="1.6">
        <field name="id" type="id_unique" required="true" stored="true" />
        <fieldType name="id_unique" class="solr.StrField" sortMissingLast="true" docValues="true" />
        <copyField source="doi" dest="doid" />
        <fieldType name="doi" class="solr.StrField" sortMissingLast="true" docValues="true" />
        </schema>
        "#;
    assert_eq!(
        schema_operations(example),
        Err(SchemaError::UnresolvedCopyFieldEndpoint { field: s("doid") })
    );
}

#[test]
fn test_duplicate_value() {
    let example = r#"
        <schema version="1.6">
        <field name="id" type="id_unique" required="true" stored="true" />
        <fieldType name="string" class="solr.StrField" sortMissingLast="true" docValues="true" />
        <fieldType name="string" class="solr.StrField" sortMissingLast="true" docValues="true" />
        </schema>
        "#;
    assert_eq!(
        schema_operations(example),
        Err(SchemaError::DuplicateName { tag: s("fieldType"), name: s("string") })
    );
}

#[test]
fn test_dreserved_keyword() {
    let example = r#"
        <schema version="1.6">
        <field name="id" type="id_unique" required="true" stored="true" />
        <fieldType name="add" class="solr.StrField" sortMissingLast="true" docValues="true" />
        </schema>
        "#;
    assert_eq!(
        schema_operations(example),
        Err(SchemaError::ReservedNameUsed { tag: s("fieldType"), name: s("add") })
    );
}

#[test]
fn test_duplicate_field_name_keyword() {
    let example = r#"
        <schema version="1.6">
            <field name="id" type="id_unique" required="true" stored="true" />
            <fieldType name="string" class="solr.StrField" sortMissingLast="true" docValues="true" />
            <field name="id" type="id_unique" required="true" stored="true" />
        </schema>
        "#;
    assert_eq!(
        schema_operations(example),
        Err(SchemaError::DuplicateTypeDeclaration { field: s("id") })
    );
}

#[test]
fn test_correct_schema() {
    let example = r#"
        <schema version="1.6">
            <field name="id" type="id_unique" required="true" stored="true" />
            <fieldType name="id_unique" class="solr.StrField" sortMissingLast="true" docValues="true" />
            <field name="ids" type="id_unique" required="true" stored="true" />
        </schema>
        "#;
    assert_eq!(schema_operations(example), Ok(()));
}
