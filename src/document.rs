//! Whole documents: reads the events of a document and validates them in
//! one pass from the empty state.
use vstd::prelude::*;

use crate::engine::{schema_parser, SchemaState};
use crate::model::{events_view, verdict_view, Attribute, Event, EventView, SchemaError};
use crate::spec::{run, verdict, StateView};
use xml::reader::{EventReader, XmlEvent};

verus! {

/// The events that the `xml` crate's reader produces for a document.
pub uninterp spec fn xml_events_of(document: Seq<char>) -> Seq<EventView>;

/// Relies on `xml::reader::EventReader` and its event iterator: the events
/// of `document` in order, each start tag with its local name and its
/// attributes' local names and values, ending after the first read error.
#[verifier::external_body]
fn read_events(document: &str) -> (r: Vec<Event>)
    ensures
        events_view(r@) == xml_events_of(document@),
{
    let mut events = Vec::new();
    for e in EventReader::new(document.as_bytes()) {
        events.push(match e {
            Ok(XmlEvent::StartElement { name, attributes, .. }) => Event::Start {
                tag: name.local_name,
                attributes: attributes.into_iter().map(|a| Attribute { key: a.name.local_name, value: a.value }).collect(),
            },
            Ok(XmlEvent::Characters(text)) => Event::Text(text),
            Ok(_) => Event::Other,
            Err(_) => Event::Unreadable,
        });
    }
    events
}

/// Validates a sequence of events: each element and text event in order
/// from the empty state, stopping at the first error or where the document
/// stops being readable, then the cross-reference checks.
pub fn validate_events(events: &Vec<Event>) -> (r: Result<(), SchemaError>)
    ensures
        verdict_view(r) == verdict(events_view(events@)),
{
    let ghost ev = events_view(events@);
    let mut state = SchemaState::new();
    let mut i: usize = 0;
    proof {
        assert(ev.subrange(0, ev.len() as int) =~= ev);
    }
    while i < events.len()
        invariant
            ev == events_view(events@),
            i <= events@.len(),
            state@.wf(),
            run(StateView::initial(), ev) == run(state@, ev.subrange(i as int, ev.len() as int)),
        decreases events@.len() - i,
    {
        let ghost rest = ev.subrange(i as int, ev.len() as int);
        proof {
            assert(rest.drop_first() =~= ev.subrange(i + 1, ev.len() as int));
            assert(rest[0] == events@[i as int]@);
        }
        match &events[i] {
            Event::Start { tag, attributes } => {
                match schema_parser(&mut state, tag.as_str(), attributes) {
                    Ok(()) => {},
                    Err(e) => {
                        return Err(e);
                    },
                }
            },
            Event::Text(text) => state.observe_text(text.as_str()),
            Event::Other => {},
            Event::Unreadable => {
                return state.resolve();
            },
        }
        i += 1;
    }
    proof {
        assert(ev.subrange(i as int, ev.len() as int) =~= Seq::<EventView>::empty());
    }
    state.resolve()
}

/// Validates a schema document given as text.
pub fn schema_operations(document: &str) -> (r: Result<(), SchemaError>)
    ensures
        verdict_view(r) == verdict(xml_events_of(document@)),
{
    let events = read_events(document);
    validate_events(&events)
}

} // verus!
