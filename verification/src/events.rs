//! The structural events a response document is decoded from, and the
//! tokenizer that produces them. Both decoders consume one forward pass over
//! these events; the XML tokenizing itself is done by the `xml` crate behind
//! the one trusted wrapper in this module.

use vstd::prelude::*;

verus! {

/// A decoder's error taxonomy. A malformed document (unbalanced tags,
/// invalid syntax, a leaf closed with nothing under construction) is
/// `Structure`; numeric text that does not parse as the expected integer is
/// `Value`. Unrecognized elements are not errors: the decoders ignore them.
#[derive(Clone, Copy, PartialEq, Eq, Structural, Debug)]
pub enum DecodeError {
    Structure,
    Value,
}

/// One structural event of a response document, as the decoders see it:
/// an element opens, an element closes, or text content arrives. Everything
/// else a tokenizer may report (declarations, comments, whitespace between
/// elements, processing instructions) is `Other`, which the decoders skip.
#[derive(Clone, PartialEq, Eq, Debug)]
pub enum RawEvent {
    Open(String),
    Close(String),
    Text(String),
    Other,
}

/// The mathematical model of one structural event.
pub enum Event {
    Open(Seq<char>),
    Close(Seq<char>),
    Text(Seq<char>),
    Other,
}

impl View for RawEvent {
    type V = Event;

    open spec fn view(&self) -> Event {
        match self {
            RawEvent::Open(n) => Event::Open(n@),
            RawEvent::Close(n) => Event::Close(n@),
            RawEvent::Text(s) => Event::Text(s@),
            RawEvent::Other => Event::Other,
        }
    }
}

/// The model of a whole event stream.
pub open spec fn events_view(s: Seq<RawEvent>) -> Seq<Event> {
    s.map_values(|e: RawEvent| e@)
}

/// What tokenizing a document yields: the stream of structural events, in
/// document order. A function of the document text alone.
pub uninterp spec fn xml_events(doc: Seq<char>) -> Seq<Event>;

/// Whether the tokenizer accepts the whole document: `true` exactly on the
/// documents it reads to the end without a syntax or balance error. A
/// function of the document text alone.
pub uninterp spec fn xml_ok(doc: Seq<char>) -> bool;

/// Relies on `xml::reader::EventReader`: it pulls the document's events in
/// order, one per element start, element end or text run, and errs on a
/// malformed document. Whether it accepts the document is a function of the
/// text alone, named `xml_ok`; the events of an accepted document are named
/// `xml_events`. Each event is converted to `RawEvent` one-for-one, element
/// names by their local name; the first tokenizer error ends the stream as a
/// structure decode error.
#[verifier::external_body]
pub(crate) fn tokenize(doc: &str) -> (r: Result<Vec<RawEvent>, DecodeError>)
    ensures
        match r {
            Ok(v) => xml_ok(doc@) && events_view(v@) == xml_events(doc@),
            Err(e) => !xml_ok(doc@) && e == DecodeError::Structure,
        },
{
    let mut events: Vec<RawEvent> = Vec::new();
    for entry in xml::reader::EventReader::from_str(doc) {
        let event = match entry {
            Ok(xml::reader::XmlEvent::StartElement { name, .. }) => RawEvent::Open(name.local_name),
            Ok(xml::reader::XmlEvent::EndElement { name }) => RawEvent::Close(name.local_name),
            Ok(xml::reader::XmlEvent::Characters(text)) => RawEvent::Text(text),
            Ok(_) => RawEvent::Other,
            Err(_) => return Err(DecodeError::Structure),
        };
        events.push(event);
    }
    Ok(events)
}

} // verus!
