//! The rule engine: reads one element or text event at a time and updates
//! the accumulated state, and resolves the cross-references at the end.
use vstd::prelude::*;

use crate::model::{
    attributes_view, opt_view, pairs_view, verdict_view, Attribute, ErrorView, SchemaError,
};
use crate::rules::{
    check_boolean_property, check_boolean_text, check_constant_name, check_deprecated_class,
    check_field_key, check_general_type_property, check_reserved_name, check_schema_tag,
    check_supported_class, is_boolean_property, is_boolean_text, is_deprecated_class,
    is_general_type_property, is_reserved_name, is_schema_tag, is_supported_class,
};
use crate::spec::{
    copy_field_step, declared, element_step, field_attribute_error, field_step, field_type_step,
    first_deprecated_class, first_field_error, first_unresolved_copy, first_unresolved_type,
    has_general_property, has_key, has_supported_class, has_type_for, lookup, registration,
    resolution, text_step, Pairs, StateView,
};
use crate::text::str_eq;

verus! {

/// The state accumulated while a document is read.
pub struct SchemaState {
    names: Vec<(String, String)>,
    types: Vec<(String, String)>,
    copy_fields: Vec<(String, String)>,
    unique_key_pending: bool,
    unique_key: Option<String>,
}

impl View for SchemaState {
    type V = StateView;

    closed spec fn view(&self) -> StateView {
        StateView {
            names: pairs_view(self.names@),
            types: pairs_view(self.types@),
            copy_fields: pairs_view(self.copy_fields@),
            unique_key_pending: self.unique_key_pending,
            unique_key: match self.unique_key {
                Some(k) => Some(k@),
                None => None,
            },
        }
    }
}

/// How an operation on the state went, against what the model says of it:
/// on success the state is the model's next state, on failure the error is
/// the model's and the state is left as it was.
pub open spec fn step_holds(
    r: Result<(), SchemaError>,
    before: StateView,
    after: StateView,
    step: Result<StateView, ErrorView>,
) -> bool {
    match step {
        Ok(next) => r is Ok && after == next,
        Err(e) => verdict_view(r) == Err::<(), ErrorView>(e) && after == before,
    }
}

/// An optional borrowed string as an optional character sequence.
pub open spec fn ref_opt_view(o: Option<&String>) -> Option<Seq<char>> {
    match o {
        Some(v) => Some(v@),
        None => None,
    }
}

/// Some entry of `names` is exactly `s`.
pub open spec fn contains_str(names: Seq<&str>, s: Seq<char>) -> bool {
    exists|j: int| 0 <= j < names.len() && names[j]@ == s
}

pub(crate) proof fn lemma_lookup_has_key(attrs: Pairs, key: Seq<char>)
    ensures
        lookup(attrs, key) is Some <==> has_key(attrs, key),
    decreases attrs.len(),
{
    if attrs.len() > 0 {
        lemma_lookup_has_key(attrs.drop_last(), key);
        if has_key(attrs.drop_last(), key) {
            let i = choose|i: int| 0 <= i < attrs.drop_last().len() && attrs.drop_last()[i].0 == key;
            assert(attrs[i].0 == key);
        }
        if has_key(attrs, key) && attrs.last().0 != key {
            let i = choose|i: int| 0 <= i < attrs.len() && attrs[i].0 == key;
            assert(attrs.drop_last()[i].0 == key);
        }
    }
}

impl SchemaState {
    /// The empty state a document is read from.
    pub fn new() -> (r: SchemaState)
        ensures
            r@ == StateView::initial(),
            r@.wf(),
    {
        let r = SchemaState {
            names: Vec::new(),
            types: Vec::new(),
            copy_fields: Vec::new(),
            unique_key_pending: false,
            unique_key: None,
        };
        proof {
            assert(pairs_view(r.names@) =~= Seq::empty());
            assert(pairs_view(r.types@) =~= Seq::empty());
            assert(pairs_view(r.copy_fields@) =~= Seq::empty());
        }
        r
    }
}

/// The value of the last attribute with this key.
fn attribute_value<'a>(attrs: &'a Vec<Attribute>, key: &str) -> (r: Option<&'a String>)
    ensures
        ref_opt_view(r) == lookup(attributes_view(attrs@), key@),
{
    let ghost av = attributes_view(attrs@);
    let mut i = attrs.len();
    proof {
        assert(av.subrange(0, i as int) =~= av);
    }
    while i > 0
        invariant
            i <= attrs@.len(),
            av == attributes_view(attrs@),
            lookup(av, key@) == lookup(av.subrange(0, i as int), key@),
        decreases i,
    {
        let ghost pre = av.subrange(0, i as int);
        if str_eq(attrs[i - 1].key.as_str(), key) {
            return Some(&attrs[i - 1].value);
        }
        proof {
            assert(pre.drop_last() =~= av.subrange(0, i - 1));
        }
        i -= 1;
    }
    None
}

/// Whether `name` is among `names`.
fn contains_name(names: &Vec<&str>, name: &str) -> (r: bool)
    ensures
        r == contains_str(names@, name@),
{
    let mut j: usize = 0;
    while j < names.len()
        invariant
            j <= names@.len(),
            forall|k: int| 0 <= k < j ==> names@[k]@ != name@,
        decreases names@.len() - j,
    {
        if str_eq(names[j], name) {
            return true;
        }
        j += 1;
    }
    false
}

/// Whether every required name is among the attribute names.
pub fn check_required_field(required_fields: &Vec<&str>, attribute_names: Vec<&str>) -> (r: bool)
    ensures
        r == forall|i: int|
            0 <= i < required_fields@.len() ==> contains_str(
                attribute_names@,
                #[trigger] required_fields@[i]@,
            ),
{
    let mut i: usize = 0;
    while i < required_fields.len()
        invariant
            i <= required_fields@.len(),
            forall|k: int|
                0 <= k < i ==> contains_str(attribute_names@, #[trigger] required_fields@[k]@),
        decreases required_fields@.len() - i,
    {
        if !contains_name(&attribute_names, required_fields[i]) {
            return false;
        }
        i += 1;
    }
    true
}

/// Whether `name` has been declared under `kind`.
fn declared_in(names: &Vec<(String, String)>, kind: &str, name: &str) -> (r: bool)
    ensures
        r == declared(pairs_view(names@), kind@, name@),
{
    let ghost nv = pairs_view(names@);
    let mut i: usize = 0;
    while i < names.len()
        invariant
            i <= names@.len(),
            nv == pairs_view(names@),
            forall|k: int| 0 <= k < i ==> nv[k] != (kind@, name@),
        decreases names@.len() - i,
    {
        if str_eq(names[i].0.as_str(), kind) && str_eq(names[i].1.as_str(), name) {
            assert(nv[i as int] == (kind@, name@));
            return true;
        }
        i += 1;
    }
    false
}

/// Whether a type has been recorded for `field`.
fn has_type_in(types: &Vec<(String, String)>, field: &str) -> (r: bool)
    ensures
        r == has_type_for(pairs_view(types@), field@),
{
    let ghost tv = pairs_view(types@);
    let mut i: usize = 0;
    while i < types.len()
        invariant
            i <= types@.len(),
            tv == pairs_view(types@),
            forall|k: int| 0 <= k < i ==> tv[k].0 != field@,
        decreases types@.len() - i,
    {
        if str_eq(types[i].0.as_str(), field) {
            assert(tv[i as int].0 == field@);
            return true;
        }
        i += 1;
    }
    false
}

/// Declares `name` under `kind`: a reserved word is refused even the first
/// time, and a second declaration under the same kind is refused unless the
/// name is one of the constant names.
pub fn check_duplicate_field_names(
    names: &mut Vec<(String, String)>,
    kind: &str,
    name: &String,
) -> (r: Result<(), SchemaError>)
    ensures
        match registration(pairs_view(old(names)@), kind@, name@) {
            Ok(next) => r is Ok && pairs_view(final(names)@) == next,
            Err(e) => verdict_view(r) == Err::<(), ErrorView>(e) && final(names)@ == old(names)@,
        },
        crate::rules::is_reserved_name(name@) ==> verdict_view(r) == Err::<(), ErrorView>(
            ErrorView::ReservedNameUsed { tag: kind@, name: name@ },
        ),
{
    if check_reserved_name(name.as_str()) {
        return Err(SchemaError::ReservedNameUsed { tag: kind.to_owned(), name: name.clone() });
    }
    if declared_in(names, kind, name.as_str()) && !check_constant_name(name.as_str()) {
        return Err(SchemaError::DuplicateName { tag: kind.to_owned(), name: name.clone() });
    }
    names.push((kind.to_owned(), name.clone()));
    proof {
        assert(pairs_view(names@) =~= pairs_view(old(names)@).push((kind@, name@)));
    }
    Ok(())
}

proof fn lemma_first_field_error_none(
    tag: Seq<char>,
    attrs: Pairs,
    name: Seq<char>,
    types: Pairs,
    i: int,
)
    requires
        0 <= i,
        first_field_error(tag, attrs, name, types, i) is None,
    ensures
        forall|k: int|
            i <= k < attrs.len() ==> (#[trigger] field_attribute_error(
                tag,
                attrs,
                name,
                types,
                k,
            )) is None,
    decreases attrs.len() - i,
{
    if i < attrs.len() {
        lemma_first_field_error_none(tag, attrs, name, types, i + 1);
    }
}

/// An owned copy of an optional borrowed string.
fn owned_opt(o: Option<&String>) -> (r: Option<String>)
    ensures
        opt_view(r) == ref_opt_view(o),
{
    match o {
        Some(v) => Some(v.clone()),
        None => None,
    }
}

/// The value of the first `class` attribute that names a deprecated class.
fn first_deprecated_in(attrs: &Vec<Attribute>) -> (r: Option<&String>)
    ensures
        ref_opt_view(r) == first_deprecated_class(attributes_view(attrs@), 0),
{
    let ghost av = attributes_view(attrs@);
    let mut i: usize = 0;
    while i < attrs.len()
        invariant
            i <= attrs@.len(),
            av == attributes_view(attrs@),
            first_deprecated_class(av, 0) == first_deprecated_class(av, i as int),
        decreases attrs@.len() - i,
    {
        if str_eq(attrs[i].key.as_str(), "class") && check_deprecated_class(attrs[i].value.as_str()) {
            return Some(&attrs[i].value);
        }
        i += 1;
    }
    None
}

/// Whether some `class` attribute names a supported class.
fn any_supported_class(attrs: &Vec<Attribute>) -> (r: bool)
    ensures
        r == has_supported_class(attributes_view(attrs@)),
{
    let ghost av = attributes_view(attrs@);
    let mut i: usize = 0;
    while i < attrs.len()
        invariant
            i <= attrs@.len(),
            av == attributes_view(attrs@),
            forall|k: int| 0 <= k < i ==> !(av[k].0 == "class"@ && is_supported_class(av[k].1)),
        decreases attrs@.len() - i,
    {
        if str_eq(attrs[i].key.as_str(), "class") && check_supported_class(attrs[i].value.as_str()) {
            assert(av[i as int].0 == "class"@ && is_supported_class(av[i as int].1));
            return true;
        }
        i += 1;
    }
    false
}

/// Whether some attribute is a general fieldType property.
fn any_general_property(attrs: &Vec<Attribute>) -> (r: bool)
    ensures
        r == has_general_property(attributes_view(attrs@)),
{
    let ghost av = attributes_view(attrs@);
    let mut i: usize = 0;
    while i < attrs.len()
        invariant
            i <= attrs@.len(),
            av == attributes_view(attrs@),
            forall|k: int| 0 <= k < i ==> !is_general_type_property(av[k].0),
        decreases attrs@.len() - i,
    {
        if check_general_type_property(attrs[i].key.as_str()) {
            assert(is_general_type_property(av[i as int].0));
            return true;
        }
        i += 1;
    }
    false
}

impl SchemaState {
    /// A field or dynamicField element.
    fn field_declaration(&mut self, tag: &str, attrs: &Vec<Attribute>) -> (r: Result<
        (),
        SchemaError,
    >)
        requires
            old(self)@.wf(),
        ensures
            final(self)@.wf(),
            step_holds(
                r,
                old(self)@,
                final(self)@,
                field_step(old(self)@, tag@, attributes_view(attrs@)),
            ),
    {
        let ghost av = attributes_view(attrs@);
        let n = attrs.len();
        let mut keys: Vec<&str> = Vec::new();
        let mut i: usize = 0;
        while i < n
            invariant
                n == attrs@.len(),
                i <= n,
                keys@.len() == i,
                forall|j: int| 0 <= j < i ==> keys@[j]@ == attrs@[j].key@,
            decreases n - i,
        {
            keys.push(attrs[i].key.as_str());
            i += 1;
        }
        let mut required: Vec<&str> = Vec::new();
        required.push("name");
        required.push("type");
        let ghost kv = keys@;
        proof {
            assert forall|s: Seq<char>| contains_str(kv, s) <==> has_key(av, s) by {
                if contains_str(kv, s) {
                    let j = choose|j: int| 0 <= j < kv.len() && kv[j]@ == s;
                    assert(av[j].0 == s);
                }
                if has_key(av, s) {
                    let j = choose|j: int| 0 <= j < av.len() && av[j].0 == s;
                    assert(kv[j]@ == s);
                }
            }
            lemma_lookup_has_key(av, "name"@);
            lemma_lookup_has_key(av, "type"@);
        }
        if !check_required_field(&required, keys) {
            return Err(SchemaError::MissingRequiredAttribute { tag: tag.to_owned() });
        }
        proof {
            assert(contains_str(kv, required@[0]@));
            assert(contains_str(kv, required@[1]@));
        }
        let name = attribute_value(attrs, "name").unwrap();
        let ty = attribute_value(attrs, "type").unwrap();
        let mut seen_type = false;
        let mut i: usize = 0;
        while i < n
            invariant
                n == attrs@.len(),
                i <= n,
                av == attributes_view(attrs@),
                old(self)@.wf(),
                self@ == old(self)@,
                lookup(av, "name"@) == Some(name@),
                lookup(av, "type"@) == Some(ty@),
                first_field_error(tag@, av, name@, self@.types, 0) == first_field_error(
                    tag@,
                    av,
                    name@,
                    self@.types,
                    i as int,
                ),
                seen_type == (exists|j: int| 0 <= j < i && av[j].0 == "type"@),
            decreases n - i,
        {
            let key = attrs[i].key.as_str();
            let value = attrs[i].value.as_str();
            assert(av[i as int] == (key@, value@));
            if !check_field_key(key) {
                return Err(
                    SchemaError::UnrecognizedOptionalAttribute {
                        tag: tag.to_owned(),
                        attribute: attrs[i].key.clone(),
                    },
                );
            }
            if check_boolean_property(key) && !check_boolean_text(value) {
                return Err(
                    SchemaError::InvalidBooleanValue {
                        tag: tag.to_owned(),
                        property: attrs[i].key.clone(),
                        value: attrs[i].value.clone(),
                        name: name.clone(),
                    },
                );
            }
            if str_eq(key, "type") {
                if seen_type || has_type_in(&self.types, name.as_str()) {
                    return Err(SchemaError::DuplicateTypeDeclaration { field: name.clone() });
                }
                seen_type = true;
            }
            i += 1;
        }
        proof {
            lemma_first_field_error_none(tag@, av, name@, self@.types, 0);
            let t = choose|t: int| 0 <= t < av.len() && av[t].0 == "type"@;
            assert(field_attribute_error(tag@, av, name@, self@.types, t) is None);
            assert(!has_type_for(self@.types, name@));
        }
        match check_duplicate_field_names(&mut self.names, tag, name) {
            Ok(()) => {},
            Err(e) => {
                return Err(e);
            },
        }
        self.types.push((name.clone(), ty.clone()));
        proof {
            let old_types = old(self)@.types;
            assert(pairs_view(self.types@) =~= old_types.push((name@, ty@)));
            assert forall|a: int, b: int|
                0 <= a < b < self@.types.len() implies self@.types[a].0 != self@.types[b].0 by {
                if b == old_types.len() {
                    assert(old_types[a].0 != name@);
                }
            }
        }
        Ok(())
    }

    /// A copyField element.
    fn copy_declaration(&mut self, attrs: &Vec<Attribute>) -> (r: Result<(), SchemaError>)
        requires
            old(self)@.wf(),
        ensures
            final(self)@.wf(),
            step_holds(
                r,
                old(self)@,
                final(self)@,
                copy_field_step(old(self)@, attributes_view(attrs@)),
            ),
    {
        let dest = match attribute_value(attrs, "dest") {
            Some(d) => d,
            None => {
                return Err(SchemaError::MissingDest);
            },
        };
        let source = match attribute_value(attrs, "source") {
            Some(s) => s,
            None => {
                return Err(SchemaError::MissingSource);
            },
        };
        if str_eq(source.as_str(), dest.as_str()) {
            return Err(SchemaError::SelfReferentialCopy { field: source.clone() });
        }
        self.copy_fields.push((source.clone(), dest.clone()));
        proof {
            assert(pairs_view(self.copy_fields@) =~= pairs_view(old(self).copy_fields@).push(
                (source@, dest@),
            ));
        }
        Ok(())
    }

    /// A fieldType element.
    fn field_type_declaration(&mut self, tag: &str, attrs: &Vec<Attribute>) -> (r: Result<
        (),
        SchemaError,
    >)
        requires
            old(self)@.wf(),
        ensures
            final(self)@.wf(),
            step_holds(
                r,
                old(self)@,
                final(self)@,
                field_type_step(old(self)@, tag@, attributes_view(attrs@)),
            ),
    {
        let element = attribute_value(attrs, "name");
        match first_deprecated_in(attrs) {
            Some(class) => {
                return Err(
                    SchemaError::DeprecatedImplementationClass {
                        class: class.clone(),
                        element: owned_opt(element),
                    },
                );
            },
            None => {},
        }
        if !any_supported_class(attrs) {
            return Err(SchemaError::UnsupportedImplementationClass { element: owned_opt(element) });
        }
        if !any_general_property(attrs) {
            return Err(SchemaError::NoRecognizedAttributes);
        }
        match element {
            None => Err(SchemaError::MissingRequiredAttribute { tag: tag.to_owned() }),
            Some(name) => check_duplicate_field_names(&mut self.names, tag, name),
        }
    }

    /// Character data: completes an open uniqueKey element.
    pub fn observe_text(&mut self, text: &str)
        requires
            old(self)@.wf(),
        ensures
            final(self)@.wf(),
            final(self)@ == text_step(old(self)@, text@),
    {
        if self.unique_key_pending {
            self.unique_key = Some(text.to_owned());
            self.unique_key_pending = false;
        }
    }

    /// The cross-reference checks, run once the stream has ended.
    pub fn resolve(&self) -> (r: Result<(), SchemaError>)
        ensures
            verdict_view(r) == resolution(self@),
    {
        let ghost st = self@;
        match &self.unique_key {
            Some(key) => {
                if !declared_in(&self.names, "field", key.as_str()) {
                    return Err(SchemaError::UnresolvedUniqueKey { field: key.clone() });
                }
            },
            None => {},
        }
        let mut i: usize = 0;
        while i < self.types.len()
            invariant
                i <= self.types@.len(),
                st == self@,
                resolution(st) == match first_unresolved_type(st.names, st.types, 0) {
                    Some(e) => Err(e),
                    None => match first_unresolved_copy(st.names, st.copy_fields, 0) {
                        Some(e) => Err(e),
                        None => Ok(()),
                    },
                },
                first_unresolved_type(st.names, st.types, 0) == first_unresolved_type(
                    st.names,
                    st.types,
                    i as int,
                ),
            decreases self.types@.len() - i,
        {
            assert(st.types[i as int] == (self.types@[i as int].0@, self.types@[i as int].1@));
            if !declared_in(&self.names, "fieldType", self.types[i].1.as_str()) {
                return Err(
                    SchemaError::UnresolvedFieldType {
                        field: self.types[i].0.clone(),
                        field_type: self.types[i].1.clone(),
                    },
                );
            }
            i += 1;
        }
        let mut i: usize = 0;
        while i < self.copy_fields.len()
            invariant
                i <= self.copy_fields@.len(),
                st == self@,
                resolution(st) == match first_unresolved_copy(st.names, st.copy_fields, 0) {
                    Some(e) => Err(e),
                    None => Ok::<(), ErrorView>(()),
                },
                first_unresolved_copy(st.names, st.copy_fields, 0) == first_unresolved_copy(
                    st.names,
                    st.copy_fields,
                    i as int,
                ),
            decreases self.copy_fields@.len() - i,
        {
            assert(st.copy_fields[i as int] == (
                self.copy_fields@[i as int].0@,
                self.copy_fields@[i as int].1@,
            ));
            if !declared_in(&self.names, "field", self.copy_fields[i].1.as_str()) {
                return Err(
                    SchemaError::UnresolvedCopyFieldEndpoint {
                        field: self.copy_fields[i].1.clone(),
                    },
                );
            }
            if !declared_in(&self.names, "field", self.copy_fields[i].0.as_str()) {
                return Err(
                    SchemaError::UnresolvedCopyFieldEndpoint {
                        field: self.copy_fields[i].0.clone(),
                    },
                );
            }
            i += 1;
        }
        Ok(())
    }
}

/// The kinds of schema element, by tag. Tags other than the five checked
/// kinds are kept as they are.
#[derive(Debug, Clone, PartialEq, Eq)]
pub enum ElementKind {
    Field,
    DynamicField,
    CopyField,
    FieldType,
    UniqueKey,
    Other(String),
}

impl ElementKind {
    /// This kind is the one that `tag` names.
    pub open spec fn has_tag(self, tag: Seq<char>) -> bool {
        match self {
            ElementKind::Field => tag == "field"@,
            ElementKind::DynamicField => tag == "dynamicField"@,
            ElementKind::CopyField => tag == "copyField"@,
            ElementKind::FieldType => tag == "fieldType"@,
            ElementKind::UniqueKey => tag == "uniqueKey"@,
            ElementKind::Other(t) => t@ == tag && tag != "field"@ && tag != "dynamicField"@
                && tag != "copyField"@ && tag != "fieldType"@ && tag != "uniqueKey"@,
        }
    }

    /// The kind that `tag` names.
    pub fn from_tag(tag: &str) -> (r: ElementKind)
        ensures
            r.has_tag(tag@),
    {
        if str_eq(tag, "field") {
            ElementKind::Field
        } else if str_eq(tag, "dynamicField") {
            ElementKind::DynamicField
        } else if str_eq(tag, "copyField") {
            ElementKind::CopyField
        } else if str_eq(tag, "fieldType") {
            ElementKind::FieldType
        } else if str_eq(tag, "uniqueKey") {
            ElementKind::UniqueKey
        } else {
            ElementKind::Other(tag.to_owned())
        }
    }
}

/// The tag of a field or dynamicField element.
pub open spec fn is_field_tag(tag: Seq<char>) -> bool {
    tag == "field"@ || tag == "dynamicField"@
}

/// Some attribute is a boolean field property with a value that is not a boolean.
pub open spec fn has_boolean_fault(attrs: Pairs) -> bool {
    exists|i: int|
        0 <= i < attrs.len() && is_boolean_property(attrs[i].0) && !is_boolean_text(attrs[i].1)
}

/// Some `class` attribute names a deprecated class.
pub open spec fn has_deprecated_class(attrs: Pairs) -> bool {
    exists|i: int| 0 <= i < attrs.len() && attrs[i].0 == "class"@ && is_deprecated_class(attrs[i].1)
}

proof fn lemma_first_deprecated_class(attrs: Pairs, i: int)
    requires
        0 <= i,
    ensures
        first_deprecated_class(attrs, i) is Some <==> exists|k: int|
            i <= k < attrs.len() && attrs[k].0 == "class"@ && is_deprecated_class(attrs[k].1),
    decreases attrs.len() - i,
{
    if i < attrs.len() {
        lemma_first_deprecated_class(attrs, i + 1);
    }
}

/// When no attribute before `i` is at fault, the first fault from `start` on
/// is the first from `i` on.
proof fn lemma_first_field_error_prefix(
    tag: Seq<char>,
    attrs: Pairs,
    name: Seq<char>,
    types: Pairs,
    start: int,
    i: int,
)
    requires
        0 <= start <= i < attrs.len(),
        forall|j: int| 0 <= j < i ==> field_attribute_error(tag, attrs, name, types, j) is None,
    ensures
        first_field_error(tag, attrs, name, types, start) == first_field_error(
            tag,
            attrs,
            name,
            types,
            i,
        ),
    decreases i - start,
{
    if start < i {
        assert(field_attribute_error(tag, attrs, name, types, start) is None);
        lemma_first_field_error_prefix(tag, attrs, name, types, start + 1, i);
    }
}

pub(crate) proof fn lemma_checked_tags_distinct()
    ensures
        "field"@ != "dynamicField"@,
        "field"@ != "copyField"@,
        "field"@ != "fieldType"@,
        "field"@ != "uniqueKey"@,
        "dynamicField"@ != "copyField"@,
        "dynamicField"@ != "fieldType"@,
        "dynamicField"@ != "uniqueKey"@,
        "copyField"@ != "fieldType"@,
        "copyField"@ != "uniqueKey"@,
        "fieldType"@ != "uniqueKey"@,
{
    reveal_strlit("field");
    reveal_strlit("dynamicField");
    reveal_strlit("copyField");
    reveal_strlit("fieldType");
    reveal_strlit("uniqueKey");
    assert("field"@.len() == 5);
    assert("dynamicField"@.len() == 12);
    assert("copyField"@[0] == 'c');
    assert("fieldType"@[0] == 'f');
    assert("uniqueKey"@[0] == 'u');
}

/// Reads one element: refuses a tag that is not a schema element, checks a
/// field, dynamicField, copyField or fieldType against the rules and records
/// what it declares, opens a uniqueKey, and passes the other schema
/// elements (schema, similarity, analyzer, tokenizer, filter, charFilter).
pub fn schema_parser(state: &mut SchemaState, tag: &str, attributes: &Vec<Attribute>) -> (r:
    Result<(), SchemaError>)
    requires
        old(state)@.wf(),
    ensures
        final(state)@.wf(),
        step_holds(
            r,
            old(state)@,
            final(state)@,
            element_step(old(state)@, tag@, attributes_view(attributes@)),
        ),
        !is_schema_tag(tag@) ==> verdict_view(r) == Err::<(), ErrorView>(
            ErrorView::UnsupportedElement { tag: tag@ },
        ),
        is_field_tag(tag@) && !(has_key(attributes_view(attributes@), "name"@) && has_key(
            attributes_view(attributes@),
            "type"@,
        )) ==> verdict_view(r) == Err::<(), ErrorView>(
            ErrorView::MissingRequiredAttribute { tag: tag@ },
        ),
        is_field_tag(tag@) && has_boolean_fault(attributes_view(attributes@)) ==> r is Err,
        is_field_tag(tag@) && has_key(attributes_view(attributes@), "type"@) ==> forall|i: int|
            #![trigger attributes@[i]]
            0 <= i < attributes@.len() && is_boolean_property(attributes@[i].key@)
                && !is_boolean_text(attributes@[i].value@) && lookup(
                attributes_view(attributes@),
                "name"@,
            ) is Some && (forall|j: int|
                0 <= j < i ==> field_attribute_error(
                    tag@,
                    attributes_view(attributes@),
                    lookup(attributes_view(attributes@), "name"@)->0,
                    old(state)@.types,
                    j,
                ) is None) ==> verdict_view(r) == Err::<(), ErrorView>(
                ErrorView::InvalidBooleanValue {
                    tag: tag@,
                    property: attributes@[i].key@,
                    value: attributes@[i].value@,
                    name: lookup(attributes_view(attributes@), "name"@)->0,
                },
            ),
        tag@ == "copyField"@ && lookup(attributes_view(attributes@), "dest"@) is None
            ==> verdict_view(r) == Err::<(), ErrorView>(ErrorView::MissingDest),
        tag@ == "copyField"@ && lookup(attributes_view(attributes@), "dest"@) is Some && lookup(
            attributes_view(attributes@),
            "source"@,
        ) is None ==> verdict_view(r) == Err::<(), ErrorView>(ErrorView::MissingSource),
        tag@ == "copyField"@ && lookup(attributes_view(attributes@), "source"@) is Some && lookup(
            attributes_view(attributes@),
            "source"@,
        ) == lookup(attributes_view(attributes@), "dest"@) ==> verdict_view(r) == Err::<
            (),
            ErrorView,
        >(
            ErrorView::SelfReferentialCopy {
                field: lookup(attributes_view(attributes@), "source"@)->0,
            },
        ),
        tag@ == "fieldType"@ && has_deprecated_class(attributes_view(attributes@)) ==> verdict_view(
            r,
        ) == Err::<(), ErrorView>(
            ErrorView::DeprecatedImplementationClass {
                class: first_deprecated_class(attributes_view(attributes@), 0)->0,
                element: lookup(attributes_view(attributes@), "name"@),
            },
        ) && first_deprecated_class(attributes_view(attributes@), 0) is Some,
        (is_field_tag(tag@) || tag@ == "fieldType"@) && lookup(
            attributes_view(attributes@),
            "name"@,
        ) is Some && is_reserved_name(lookup(attributes_view(attributes@), "name"@)->0) ==> r is Err,
{
    let ghost av = attributes_view(attributes@);
    proof {
        lemma_checked_tags_distinct();
        lemma_lookup_has_key(av, "name"@);
        lemma_lookup_has_key(av, "type"@);
        lemma_first_deprecated_class(av, 0);
        if is_field_tag(tag@) && has_key(av, "name"@) && has_key(av, "type"@) {
            let name = lookup(av, "name"@)->0;
            let types = old(state)@.types;
            if first_field_error(tag@, av, name, types, 0) is None {
                lemma_first_field_error_none(tag@, av, name, types, 0);
                if has_boolean_fault(av) {
                    let i = choose|i: int|
                        0 <= i < av.len() && is_boolean_property(av[i].0) && !is_boolean_text(
                            av[i].1,
                        );
                    assert(field_attribute_error(tag@, av, name, types, i) is Some);
                }
            }
            assert forall|i: int|
                #![trigger attributes@[i]]
                0 <= i < attributes@.len() && is_boolean_property(attributes@[i].key@)
                    && !is_boolean_text(attributes@[i].value@) && (forall|j: int|
                    0 <= j < i ==> field_attribute_error(tag@, av, name, types, j)
                        is None) implies first_field_error(tag@, av, name, types, 0) == Some(
                ErrorView::InvalidBooleanValue {
                    tag: tag@,
                    property: attributes@[i].key@,
                    value: attributes@[i].value@,
                    name,
                },
            ) by {
                assert(av[i] == attributes@[i]@);
                lemma_first_field_error_prefix(tag@, av, name, types, 0, i);
            }
        }
    }
    if !check_schema_tag(tag) {
        return Err(SchemaError::UnsupportedElement { tag: tag.to_owned() });
    }
    proof {
        lemma_checked_tags_distinct();
    }
    match ElementKind::from_tag(tag) {
        ElementKind::Field | ElementKind::DynamicField => state.field_declaration(tag, attributes),
        ElementKind::CopyField => state.copy_declaration(attributes),
        ElementKind::FieldType => state.field_type_declaration(tag, attributes),
        ElementKind::UniqueKey => {
            state.unique_key_pending = true;
            proof {
                assert(state@ == StateView { unique_key_pending: true, ..old(state)@ });
            }
            Ok(())
        },
        ElementKind::Other(_) => Ok(()),
    }
}

} // verus!
