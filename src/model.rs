//! The values the validator reads and reports, with their mathematical views.
use vstd::prelude::*;

verus! {

/// One `key="value"` pair of an element, in document order.
#[derive(Debug, Clone, PartialEq, Eq)]
pub struct Attribute {
    pub key: String,
    pub value: String,
}

impl View for Attribute {
    type V = (Seq<char>, Seq<char>);

    open spec fn view(&self) -> (Seq<char>, Seq<char>) {
        (self.key@, self.value@)
    }
}

impl Attribute {
    pub fn new(key: &str, value: &str) -> (r: Attribute)
        ensures
            r@ == (key@, value@),
    {
        Attribute { key: key.to_owned(), value: value.to_owned() }
    }
}

/// The attributes of an element as a sequence of `(key, value)` views.
pub open spec fn attributes_view(attrs: Seq<Attribute>) -> Seq<(Seq<char>, Seq<char>)> {
    attrs.map_values(|a: Attribute| a@)
}

/// A sequence of string pairs as a sequence of pairs of character sequences.
pub open spec fn pairs_view(pairs: Seq<(String, String)>) -> Seq<(Seq<char>, Seq<char>)> {
    pairs.map_values(|p: (String, String)| (p.0@, p.1@))
}

/// One event of a document, in document order.
#[derive(Debug, Clone, PartialEq, Eq)]
pub enum Event {
    /// An element opens: its tag (local name) and its attributes.
    Start { tag: String, attributes: Vec<Attribute> },
    /// Character data.
    Text(String),
    /// Anything the validator does not read (closing tags, comments, whitespace).
    Other,
    /// The document cannot be read past this point.
    Unreadable,
}

pub enum EventView {
    Start { tag: Seq<char>, attributes: Seq<(Seq<char>, Seq<char>)> },
    Text(Seq<char>),
    Other,
    Unreadable,
}

impl View for Event {
    type V = EventView;

    open spec fn view(&self) -> EventView {
        match self {
            Event::Start { tag, attributes } => EventView::Start {
                tag: tag@,
                attributes: attributes_view(attributes@),
            },
            Event::Text(t) => EventView::Text(t@),
            Event::Other => EventView::Other,
            Event::Unreadable => EventView::Unreadable,
        }
    }
}

/// A sequence of events as a sequence of their views.
pub open spec fn events_view(events: Seq<Event>) -> Seq<EventView> {
    events.map_values(|e: Event| e@)
}

/// Why a document is not a valid schema. Each case carries the offending
/// values and, where the element declares one, the element's name.
#[derive(Debug, Clone, PartialEq, Eq)]
pub enum SchemaError {
    /// The tag is not a schema element.
    UnsupportedElement { tag: String },
    /// A declaring element lacks `name` (or a field lacks `type`).
    MissingRequiredAttribute { tag: String },
    /// A field carries an attribute that fields do not have.
    UnrecognizedOptionalAttribute { tag: String, attribute: String },
    /// A boolean field property holds something other than `true` or `false`.
    InvalidBooleanValue { tag: String, property: String, value: String, name: String },
    /// A second type is given for a field name.
    DuplicateTypeDeclaration { field: String },
    /// A copyField has no `source`.
    MissingSource,
    /// A copyField has no `dest`.
    MissingDest,
    /// A copyField copies a field onto itself.
    SelfReferentialCopy { field: String },
    /// No `class` of a fieldType names a supported implementation class.
    UnsupportedImplementationClass { element: Option<String> },
    /// A `class` of a fieldType names a deprecated implementation class.
    DeprecatedImplementationClass { class: String, element: Option<String> },
    /// A fieldType carries none of the general fieldType properties.
    NoRecognizedAttributes,
    /// A reserved word is declared as a name.
    ReservedNameUsed { tag: String, name: String },
    /// A name is declared twice under the same kind of element.
    DuplicateName { tag: String, name: String },
    /// The unique key names no declared field.
    UnresolvedUniqueKey { field: String },
    /// A field refers to a type that no fieldType declares.
    UnresolvedFieldType { field: String, field_type: String },
    /// A copyField endpoint names no declared field.
    UnresolvedCopyFieldEndpoint { field: String },
}

pub enum ErrorView {
    UnsupportedElement { tag: Seq<char> },
    MissingRequiredAttribute { tag: Seq<char> },
    UnrecognizedOptionalAttribute { tag: Seq<char>, attribute: Seq<char> },
    InvalidBooleanValue {
        tag: Seq<char>,
        property: Seq<char>,
        value: Seq<char>,
        name: Seq<char>,
    },
    DuplicateTypeDeclaration { field: Seq<char> },
    MissingSource,
    MissingDest,
    SelfReferentialCopy { field: Seq<char> },
    UnsupportedImplementationClass { element: Option<Seq<char>> },
    DeprecatedImplementationClass { class: Seq<char>, element: Option<Seq<char>> },
    NoRecognizedAttributes,
    ReservedNameUsed { tag: Seq<char>, name: Seq<char> },
    DuplicateName { tag: Seq<char>, name: Seq<char> },
    UnresolvedUniqueKey { field: Seq<char> },
    UnresolvedFieldType { field: Seq<char>, field_type: Seq<char> },
    UnresolvedCopyFieldEndpoint { field: Seq<char> },
}

pub open spec fn opt_view(s: Option<String>) -> Option<Seq<char>> {
    match s {
        Some(v) => Some(v@),
        None => None,
    }
}

impl View for SchemaError {
    type V = ErrorView;

    open spec fn view(&self) -> ErrorView {
        match self {
            SchemaError::UnsupportedElement { tag } => ErrorView::UnsupportedElement { tag: tag@ },
            SchemaError::MissingRequiredAttribute { tag } => ErrorView::MissingRequiredAttribute {
                tag: tag@,
            },
            SchemaError::UnrecognizedOptionalAttribute {
                tag,
                attribute,
            } => ErrorView::UnrecognizedOptionalAttribute { tag: tag@, attribute: attribute@ },
            SchemaError::InvalidBooleanValue {
                tag,
                property,
                value,
                name,
            } => ErrorView::InvalidBooleanValue {
                tag: tag@,
                property: property@,
                value: value@,
                name: name@,
            },
            SchemaError::DuplicateTypeDeclaration { field } => ErrorView::DuplicateTypeDeclaration {
                field: field@,
            },
            SchemaError::MissingSource => ErrorView::MissingSource,
            SchemaError::MissingDest => ErrorView::MissingDest,
            SchemaError::SelfReferentialCopy { field } => ErrorView::SelfReferentialCopy {
                field: field@,
            },
            SchemaError::UnsupportedImplementationClass {
                element,
            } => ErrorView::UnsupportedImplementationClass { element: opt_view(*element) },
            SchemaError::DeprecatedImplementationClass {
                class,
                element,
            } => ErrorView::DeprecatedImplementationClass {
                class: class@,
                element: opt_view(*element),
            },
            SchemaError::NoRecognizedAttributes => ErrorView::NoRecognizedAttributes,
            SchemaError::ReservedNameUsed { tag, name } => ErrorView::ReservedNameUsed {
                tag: tag@,
                name: name@,
            },
            SchemaError::DuplicateName { tag, name } => ErrorView::DuplicateName {
                tag: tag@,
                name: name@,
            },
            SchemaError::UnresolvedUniqueKey { field } => ErrorView::UnresolvedUniqueKey {
                field: field@,
            },
            SchemaError::UnresolvedFieldType {
                field,
                field_type,
            } => ErrorView::UnresolvedFieldType { field: field@, field_type: field_type@ },
            SchemaError::UnresolvedCopyFieldEndpoint {
                field,
            } => ErrorView::UnresolvedCopyFieldEndpoint { field: field@ },
        }
    }
}

/// A result whose error is seen through its view.
pub open spec fn verdict_view(r: Result<(), SchemaError>) -> Result<(), ErrorView> {
    match r {
        Ok(()) => Ok(()),
        Err(e) => Err(e@),
    }
}

} // verus!
