//! The validator as mathematics: what each element and text event does to
//! the accumulated state, and what the resolution at the end of the stream
//! decides.
use vstd::prelude::*;

use crate::model::{ErrorView, EventView};
use crate::rules::{
    is_boolean_property, is_boolean_text, is_constant_name, is_deprecated_class, is_field_key,
    is_general_type_property, is_reserved_name, is_schema_tag, is_supported_class,
};

verus! {

/// A sequence of string pairs, each as a pair of character sequences.
pub type Pairs = Seq<(Seq<char>, Seq<char>)>;

/// What the validator has accumulated so far.
pub struct StateView {
    /// Declared names, each with the tag of the element that declared it.
    pub names: Pairs,
    /// The type each field refers to, as (field name, type name), in order.
    pub types: Pairs,
    /// The copyField edges, as (source, dest), in order.
    pub copy_fields: Pairs,
    /// A uniqueKey element is open and its text has not been read yet.
    pub unique_key_pending: bool,
    /// The field named by the last uniqueKey element read.
    pub unique_key: Option<Seq<char>>,
}

impl StateView {
    /// The state before the first event.
    pub open spec fn initial() -> StateView {
        StateView {
            names: Seq::empty(),
            types: Seq::empty(),
            copy_fields: Seq::empty(),
            unique_key_pending: false,
            unique_key: None,
        }
    }

    /// Every reachable state: one type per field name, no copyField onto
    /// itself, no reserved word among the declared names.
    pub open spec fn wf(self) -> bool {
        &&& forall|i: int, j: int|
            0 <= i < j < self.types.len() ==> self.types[i].0 != self.types[j].0
        &&& forall|i: int|
            0 <= i < self.copy_fields.len() ==> self.copy_fields[i].0 != self.copy_fields[i].1
        &&& forall|i: int| 0 <= i < self.names.len() ==> !is_reserved_name(self.names[i].1)
    }
}

/// The value of the last attribute with this key.
pub open spec fn lookup(attrs: Pairs, key: Seq<char>) -> Option<Seq<char>>
    decreases attrs.len(),
{
    if attrs.len() == 0 {
        None
    } else if attrs.last().0 == key {
        Some(attrs.last().1)
    } else {
        lookup(attrs.drop_last(), key)
    }
}

/// Some attribute has this key.
pub open spec fn has_key(attrs: Pairs, key: Seq<char>) -> bool {
    exists|i: int| 0 <= i < attrs.len() && attrs[i].0 == key
}

/// `name` has been declared by an element with tag `kind`.
pub open spec fn declared(names: Pairs, kind: Seq<char>, name: Seq<char>) -> bool {
    exists|i: int| 0 <= i < names.len() && names[i] == (kind, name)
}

/// A type has been recorded for `field`.
pub open spec fn has_type_for(types: Pairs, field: Seq<char>) -> bool {
    exists|i: int| 0 <= i < types.len() && types[i].0 == field
}

/// Declaring `name` under `kind`: the names afterwards, or why it is refused.
pub open spec fn registration(names: Pairs, kind: Seq<char>, name: Seq<char>) -> Result<
    Pairs,
    ErrorView,
> {
    if is_reserved_name(name) {
        Err(ErrorView::ReservedNameUsed { tag: kind, name })
    } else if declared(names, kind, name) && !is_constant_name(name) {
        Err(ErrorView::DuplicateName { tag: kind, name })
    } else {
        Ok(names.push((kind, name)))
    }
}

/// What is wrong with the `i`-th attribute of a field named `name`, if anything.
pub open spec fn field_attribute_error(
    tag: Seq<char>,
    attrs: Pairs,
    name: Seq<char>,
    types: Pairs,
    i: int,
) -> Option<ErrorView> {
    let (k, v) = attrs[i];
    if !is_field_key(k) {
        Some(ErrorView::UnrecognizedOptionalAttribute { tag, attribute: k })
    } else if is_boolean_property(k) && !is_boolean_text(v) {
        Some(ErrorView::InvalidBooleanValue { tag, property: k, value: v, name })
    } else if k == "type"@ && (has_type_for(types, name) || exists|j: int|
        0 <= j < i && attrs[j].0 == "type"@) {
        Some(ErrorView::DuplicateTypeDeclaration { field: name })
    } else {
        None
    }
}

/// The error of the first faulty attribute at or after index `i`.
pub open spec fn first_field_error(
    tag: Seq<char>,
    attrs: Pairs,
    name: Seq<char>,
    types: Pairs,
    i: int,
) -> Option<ErrorView>
    decreases attrs.len() - i,
{
    if 0 <= i < attrs.len() {
        match field_attribute_error(tag, attrs, name, types, i) {
            Some(e) => Some(e),
            None => first_field_error(tag, attrs, name, types, i + 1),
        }
    } else {
        None
    }
}

/// A field or dynamicField element.
pub open spec fn field_step(st: StateView, tag: Seq<char>, attrs: Pairs) -> Result<
    StateView,
    ErrorView,
> {
    match (lookup(attrs, "name"@), lookup(attrs, "type"@)) {
        (Some(name), Some(ty)) => match first_field_error(tag, attrs, name, st.types, 0) {
            Some(e) => Err(e),
            None => match registration(st.names, tag, name) {
                Ok(names) => Ok(StateView { names, types: st.types.push((name, ty)), ..st }),
                Err(e) => Err(e),
            },
        },
        _ => Err(ErrorView::MissingRequiredAttribute { tag }),
    }
}

/// A copyField element.
pub open spec fn copy_field_step(st: StateView, attrs: Pairs) -> Result<StateView, ErrorView> {
    match lookup(attrs, "dest"@) {
        None => Err(ErrorView::MissingDest),
        Some(dest) => match lookup(attrs, "source"@) {
            None => Err(ErrorView::MissingSource),
            Some(source) => if source == dest {
                Err(ErrorView::SelfReferentialCopy { field: source })
            } else {
                Ok(StateView { copy_fields: st.copy_fields.push((source, dest)), ..st })
            },
        },
    }
}

/// The first deprecated class among the `class` attributes from index `i` on.
pub open spec fn first_deprecated_class(attrs: Pairs, i: int) -> Option<Seq<char>>
    decreases attrs.len() - i,
{
    if 0 <= i < attrs.len() {
        if attrs[i].0 == "class"@ && is_deprecated_class(attrs[i].1) {
            Some(attrs[i].1)
        } else {
            first_deprecated_class(attrs, i + 1)
        }
    } else {
        None
    }
}

/// Some `class` attribute names a supported class in a recognised namespace.
pub open spec fn has_supported_class(attrs: Pairs) -> bool {
    exists|i: int| 0 <= i < attrs.len() && attrs[i].0 == "class"@ && is_supported_class(attrs[i].1)
}

/// Some attribute is a general fieldType property.
pub open spec fn has_general_property(attrs: Pairs) -> bool {
    exists|i: int| 0 <= i < attrs.len() && is_general_type_property(attrs[i].0)
}

/// A fieldType element.
pub open spec fn field_type_step(st: StateView, tag: Seq<char>, attrs: Pairs) -> Result<
    StateView,
    ErrorView,
> {
    let element = lookup(attrs, "name"@);
    match first_deprecated_class(attrs, 0) {
        Some(class) => Err(ErrorView::DeprecatedImplementationClass { class, element }),
        None => if !has_supported_class(attrs) {
            Err(ErrorView::UnsupportedImplementationClass { element })
        } else if !has_general_property(attrs) {
            Err(ErrorView::NoRecognizedAttributes)
        } else {
            match element {
                None => Err(ErrorView::MissingRequiredAttribute { tag }),
                Some(name) => match registration(st.names, tag, name) {
                    Ok(names) => Ok(StateView { names, ..st }),
                    Err(e) => Err(e),
                },
            }
        },
    }
}

/// An element with this tag and these attributes.
pub open spec fn element_step(st: StateView, tag: Seq<char>, attrs: Pairs) -> Result<
    StateView,
    ErrorView,
> {
    if !is_schema_tag(tag) {
        Err(ErrorView::UnsupportedElement { tag })
    } else if tag == "field"@ || tag == "dynamicField"@ {
        field_step(st, tag, attrs)
    } else if tag == "copyField"@ {
        copy_field_step(st, attrs)
    } else if tag == "fieldType"@ {
        field_type_step(st, tag, attrs)
    } else if tag == "uniqueKey"@ {
        Ok(StateView { unique_key_pending: true, ..st })
    } else {
        Ok(st)
    }
}

/// Character data: the text of an open uniqueKey element is its field.
pub open spec fn text_step(st: StateView, text: Seq<char>) -> StateView {
    if st.unique_key_pending {
        StateView { unique_key_pending: false, unique_key: Some(text), ..st }
    } else {
        st
    }
}

/// The first recorded field type, from index `i` on, that no fieldType declares.
pub open spec fn first_unresolved_type(names: Pairs, types: Pairs, i: int) -> Option<ErrorView>
    decreases types.len() - i,
{
    if 0 <= i < types.len() {
        if !declared(names, "fieldType"@, types[i].1) {
            Some(ErrorView::UnresolvedFieldType { field: types[i].0, field_type: types[i].1 })
        } else {
            first_unresolved_type(names, types, i + 1)
        }
    } else {
        None
    }
}

/// The first copyField endpoint, from edge `i` on, that no field declares
/// (an edge's dest before its source).
pub open spec fn first_unresolved_copy(names: Pairs, copies: Pairs, i: int) -> Option<ErrorView>
    decreases copies.len() - i,
{
    if 0 <= i < copies.len() {
        if !declared(names, "field"@, copies[i].1) {
            Some(ErrorView::UnresolvedCopyFieldEndpoint { field: copies[i].1 })
        } else if !declared(names, "field"@, copies[i].0) {
            Some(ErrorView::UnresolvedCopyFieldEndpoint { field: copies[i].0 })
        } else {
            first_unresolved_copy(names, copies, i + 1)
        }
    } else {
        None
    }
}

/// The cross-reference checks run once the stream has ended.
pub open spec fn resolution(st: StateView) -> Result<(), ErrorView> {
    match st.unique_key {
        Some(key) if !declared(st.names, "field"@, key) => Err(
            ErrorView::UnresolvedUniqueKey { field: key },
        ),
        _ => match first_unresolved_type(st.names, st.types, 0) {
            Some(e) => Err(e),
            None => match first_unresolved_copy(st.names, st.copy_fields, 0) {
                Some(e) => Err(e),
                None => Ok(()),
            },
        },
    }
}

/// Reading `events` from state `st`: the state at the end of the stream (or
/// where the document stops being readable), or the first error.
pub open spec fn run(st: StateView, events: Seq<EventView>) -> Result<StateView, ErrorView>
    decreases events.len(),
{
    if events.len() == 0 {
        Ok(st)
    } else {
        match events[0] {
            EventView::Start { tag, attributes } => match element_step(st, tag, attributes) {
                Ok(next) => run(next, events.drop_first()),
                Err(e) => Err(e),
            },
            EventView::Text(t) => run(text_step(st, t), events.drop_first()),
            EventView::Other => run(st, events.drop_first()),
            EventView::Unreadable => Ok(st),
        }
    }
}

/// The verdict on a whole document.
pub open spec fn verdict(events: Seq<EventView>) -> Result<(), ErrorView> {
    match run(StateView::initial(), events) {
        Ok(st) => resolution(st),
        Err(e) => Err(e),
    }
}

} // verus!
