//! The rule tables: which tags, attribute keys, class names and declared
//! names the validator recognises.
use vstd::prelude::*;

use crate::text::{ends_with, last_segment, last_segment_of, starts_with, str_eq};

verus! {

/// A tag that names a schema element (checked or accepted as is).
pub open spec fn is_schema_tag(t: Seq<char>) -> bool {
    t == "field"@
        || t == "fieldType"@
        || t == "dynamicField"@
        || t == "uniqueKey"@
        || t == "analyzer"@
        || t == "tokenizer"@
        || t == "filter"@
        || t == "schema"@
        || t == "charFilter"@
        || t == "copyField"@
        || t == "similarity"@
}

/// A tag that names a schema element (checked or accepted as is).
pub fn check_schema_tag(t: &str) -> (r: bool)
    ensures
        r == is_schema_tag(t@),
{
    str_eq(t, "field")
        || str_eq(t, "fieldType")
        || str_eq(t, "dynamicField")
        || str_eq(t, "uniqueKey")
        || str_eq(t, "analyzer")
        || str_eq(t, "tokenizer")
        || str_eq(t, "filter")
        || str_eq(t, "schema")
        || str_eq(t, "charFilter")
        || str_eq(t, "copyField")
        || str_eq(t, "similarity")
}

/// An optional property of a field or dynamicField.
pub open spec fn is_optional_field_property(k: Seq<char>) -> bool {
    k == "indexed"@
        || k == "stored"@
        || k == "docValues"@
        || k == "sortMissingFirst"@
        || k == "sortMissingLast"@
        || k == "multiValued"@
        || k == "uninvertible"@
        || k == "omitNorms"@
        || k == "omitTermFreqAndPosition"@
        || k == "omitPositions"@
        || k == "termVectors"@
        || k == "termPosition"@
        || k == "termOffsets"@
        || k == "termPayloads"@
        || k == "required"@
        || k == "unseDocValuesAsStored"@
        || k == "large"@
        || k == "default"@
}

/// An optional property of a field or dynamicField.
pub fn check_optional_field_property(k: &str) -> (r: bool)
    ensures
        r == is_optional_field_property(k@),
{
    str_eq(k, "indexed")
        || str_eq(k, "stored")
        || str_eq(k, "docValues")
        || str_eq(k, "sortMissingFirst")
        || str_eq(k, "sortMissingLast")
        || str_eq(k, "multiValued")
        || str_eq(k, "uninvertible")
        || str_eq(k, "omitNorms")
        || str_eq(k, "omitTermFreqAndPosition")
        || str_eq(k, "omitPositions")
        || str_eq(k, "termVectors")
        || str_eq(k, "termPosition")
        || str_eq(k, "termOffsets")
        || str_eq(k, "termPayloads")
        || str_eq(k, "required")
        || str_eq(k, "unseDocValuesAsStored")
        || str_eq(k, "large")
        || str_eq(k, "default")
}

/// A general property of a fieldType.
pub open spec fn is_general_type_property(k: Seq<char>) -> bool {
    k == "name"@
        || k == "positionIncrementGap"@
        || k == "autoGeneratePhraseQueries"@
        || k == "synonymQueryStyle"@
        || k == "enableGraphQueries"@
        || k == "docValuesFormat"@
        || k == "postingsFormat"@
}

/// A general property of a fieldType.
pub fn check_general_type_property(k: &str) -> (r: bool)
    ensures
        r == is_general_type_property(k@),
{
    str_eq(k, "name")
        || str_eq(k, "positionIncrementGap")
        || str_eq(k, "autoGeneratePhraseQueries")
        || str_eq(k, "synonymQueryStyle")
        || str_eq(k, "enableGraphQueries")
        || str_eq(k, "docValuesFormat")
        || str_eq(k, "postingsFormat")
}

/// A word that may not be declared as a name.
pub open spec fn is_reserved_name(n: Seq<char>) -> bool {
    n == "set"@
        || n == "add"@
        || n == "remove"@
}

/// A word that may not be declared as a name.
pub fn check_reserved_name(n: &str) -> (r: bool)
    ensures
        r == is_reserved_name(n@),
{
    str_eq(n, "set")
        || str_eq(n, "add")
        || str_eq(n, "remove")
}

/// A name that may be declared more than once.
pub open spec fn is_constant_name(n: Seq<char>) -> bool {
    n == "_root_"@
        || n == "_version_"@
        || n == "_nest_path_"@
        || n == "_text_"@
}

/// A name that may be declared more than once.
pub fn check_constant_name(n: &str) -> (r: bool)
    ensures
        r == is_constant_name(n@),
{
    str_eq(n, "_root_")
        || str_eq(n, "_version_")
        || str_eq(n, "_nest_path_")
        || str_eq(n, "_text_")
}

/// The class name begins with a recognised implementation namespace.
pub open spec fn has_class_namespace(c: Seq<char>) -> bool {
    "solr."@.is_prefix_of(c)
        || "org.apache.solr.schema."@.is_prefix_of(c)
}

/// The class name begins with a recognised implementation namespace.
pub fn check_class_namespace(c: &str) -> (r: bool)
    ensures
        r == has_class_namespace(c@),
{
    starts_with(c, "solr.")
        || starts_with(c, "org.apache.solr.schema.")
}

/// The class name ends with a supported implementation class.
pub open spec fn has_supported_class_suffix(c: Seq<char>) -> bool {
    "BBoxField"@.is_suffix_of(c)
        || "BinaryField"@.is_suffix_of(c)
        || "BoolField"@.is_suffix_of(c)
        || "CollationField"@.is_suffix_of(c)
        || "CurrencyFieldType"@.is_suffix_of(c)
        || "DateRangeField"@.is_suffix_of(c)
        || "DenseVectorField"@.is_suffix_of(c)
        || "DatePointField"@.is_suffix_of(c)
        || "DoublePointField"@.is_suffix_of(c)
        || "ExternalFileField"@.is_suffix_of(c)
        || "EnumFieldType"@.is_suffix_of(c)
        || "FloatPointField"@.is_suffix_of(c)
        || "ICUCollationField"@.is_suffix_of(c)
        || "IntPointField"@.is_suffix_of(c)
        || "LatLonPointSpatialField"@.is_suffix_of(c)
        || "LongPointField"@.is_suffix_of(c)
        || "NestPathField"@.is_suffix_of(c)
        || "PointType"@.is_suffix_of(c)
        || "PreAnalyzedField"@.is_suffix_of(c)
        || "RandomSortField"@.is_suffix_of(c)
        || "RankField"@.is_suffix_of(c)
        || "RptWithGeometrySpatialField"@.is_suffix_of(c)
        || "SortableTextField"@.is_suffix_of(c)
        || "SpatialRecursivePrefixTreeFieldType"@.is_suffix_of(c)
        || "StrField"@.is_suffix_of(c)
        || "TextField"@.is_suffix_of(c)
        || "UUIDField"@.is_suffix_of(c)
}

/// The class name ends with a supported implementation class.
pub fn check_supported_class_suffix(c: &str) -> (r: bool)
    ensures
        r == has_supported_class_suffix(c@),
{
    ends_with(c, "BBoxField")
        || ends_with(c, "BinaryField")
        || ends_with(c, "BoolField")
        || ends_with(c, "CollationField")
        || ends_with(c, "CurrencyFieldType")
        || ends_with(c, "DateRangeField")
        || ends_with(c, "DenseVectorField")
        || ends_with(c, "DatePointField")
        || ends_with(c, "DoublePointField")
        || ends_with(c, "ExternalFileField")
        || ends_with(c, "EnumFieldType")
        || ends_with(c, "FloatPointField")
        || ends_with(c, "ICUCollationField")
        || ends_with(c, "IntPointField")
        || ends_with(c, "LatLonPointSpatialField")
        || ends_with(c, "LongPointField")
        || ends_with(c, "NestPathField")
        || ends_with(c, "PointType")
        || ends_with(c, "PreAnalyzedField")
        || ends_with(c, "RandomSortField")
        || ends_with(c, "RankField")
        || ends_with(c, "RptWithGeometrySpatialField")
        || ends_with(c, "SortableTextField")
        || ends_with(c, "SpatialRecursivePrefixTreeFieldType")
        || ends_with(c, "StrField")
        || ends_with(c, "TextField")
        || ends_with(c, "UUIDField")
}

/// A deprecated implementation class (without namespace).
pub open spec fn is_deprecated_class_name(c: Seq<char>) -> bool {
    c == "CurrencyField"@
        || c == "EnumField"@
        || c == "TrieDateField"@
        || c == "TrieDoubleField"@
        || c == "TrieFloatField"@
        || c == "TrieIntField"@
        || c == "TrieLongField"@
        || c == "TrieField"@
}

/// A deprecated implementation class (without namespace).
pub fn check_deprecated_class_name(c: &str) -> (r: bool)
    ensures
        r == is_deprecated_class_name(c@),
{
    str_eq(c, "CurrencyField")
        || str_eq(c, "EnumField")
        || str_eq(c, "TrieDateField")
        || str_eq(c, "TrieDoubleField")
        || str_eq(c, "TrieFloatField")
        || str_eq(c, "TrieIntField")
        || str_eq(c, "TrieLongField")
        || str_eq(c, "TrieField")
}

/// A key that a field or dynamicField may carry.
pub open spec fn is_field_key(k: Seq<char>) -> bool {
    k == "name"@ || k == "type"@ || k == "default"@ || is_optional_field_property(k)
}

/// An optional field property whose value must be `true` or `false`.
pub open spec fn is_boolean_property(k: Seq<char>) -> bool {
    is_optional_field_property(k) && k != "default"@
}

/// The two boolean spellings (case matters).
pub open spec fn is_boolean_text(v: Seq<char>) -> bool {
    v == "true"@ || v == "false"@
}

/// A class name in a recognised namespace that names a supported class.
pub open spec fn is_supported_class(c: Seq<char>) -> bool {
    has_class_namespace(c) && has_supported_class_suffix(c)
}

/// A class name whose last dot-separated segment is a deprecated class.
pub open spec fn is_deprecated_class(c: Seq<char>) -> bool {
    is_deprecated_class_name(last_segment(c))
}

pub fn check_field_key(k: &str) -> (r: bool)
    ensures
        r == is_field_key(k@),
{
    str_eq(k, "name") || str_eq(k, "type") || str_eq(k, "default") || check_optional_field_property(k)
}

pub fn check_boolean_property(k: &str) -> (r: bool)
    ensures
        r == is_boolean_property(k@),
{
    check_optional_field_property(k) && !str_eq(k, "default")
}

pub fn check_boolean_text(v: &str) -> (r: bool)
    ensures
        r == is_boolean_text(v@),
{
    str_eq(v, "true") || str_eq(v, "false")
}

pub fn check_supported_class(c: &str) -> (r: bool)
    ensures
        r == is_supported_class(c@),
{
    check_class_namespace(c) && check_supported_class_suffix(c)
}

pub fn check_deprecated_class(c: &str) -> (r: bool)
    ensures
        r == is_deprecated_class(c@),
{
    check_deprecated_class_name(last_segment_of(c))
}

} // verus!
