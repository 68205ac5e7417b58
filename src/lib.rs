//! Semantic validation of Solr-style `schema.xml` documents.
//!
//! A document is read as a sequence of element and text events. Each element
//! is checked against the rule tables as it arrives, the names it declares are
//! recorded, and once the stream ends the recorded cross-references (unique
//! key, field types, copy-field endpoints) are resolved. The first violation
//! ends the run and is returned as a [`SchemaError`].
pub mod text;

pub use text::{ends_with, last_segment_of, starts_with, str_eq};
pub mod model;

pub use model::{Attribute, Event, SchemaError};
pub mod rules;
pub mod spec;
pub mod engine;
pub mod document;

pub use document::{schema_operations, validate_events};
pub use engine::{check_required_field, schema_parser, ElementKind, SchemaState};
pub mod laws;
