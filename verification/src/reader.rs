//! The event stream reader. Everything that touches `quick_xml` is here, and
//! none of it is proved: each contract records what the reader's source shows.

use quick_xml::events::Event;
use quick_xml::Reader;
use vstd::prelude::*;

use crate::event::{Attribute, EventView, MarkupEvent};

verus! {

/// `quick_xml::Reader`, carried through as an opaque value.
#[verifier::external_type_specification]
#[verifier::external_body]
#[verifier::reject_recursive_types(R)]
pub struct ExReader<R>(Reader<R>);

/// `quick_xml::Error`, carried through as an opaque value.
#[verifier::external_type_specification]
#[verifier::external_body]
pub struct ExReadError(quick_xml::Error);

/// What one read of the stream gives: an event, or a failure on malformed
/// markup.
pub enum Reading {
    Event(EventView),
    Failure,
}

impl Reading {
    /// Whether nothing is read after this: the end of the document, or a
    /// failure.
    pub open spec fn is_last(self) -> bool {
        self is Failure || self == Reading::Event(EventView::Eof)
    }
}

/// The readings that a document gives when it is read with text trimmed on
/// both sides, one per read, up to and including the first that is an end of
/// document or a failure. There are finitely many, since every read before
/// the end uses up some of the text.
pub uninterp spec fn document_readings(text: Seq<char>) -> Seq<Reading>;

/// The readings that a reader has yet to hand out, up to and including the
/// first that is an end of document or a failure.
pub uninterp spec fn unread(reader: Reader<&[u8]>) -> Seq<Reading>;

/// The reading that a read's result stands for.
pub open spec fn reading_of(result: Result<MarkupEvent, quick_xml::Error>) -> Reading {
    match result {
        Ok(event) => Reading::Event(event@),
        Err(_) => Reading::Failure,
    }
}

/// Calls `Reader::from_str` and switches text trimming on. Trusted: the new
/// reader has the document's readings before it, and there is at least one,
/// since a read always returns.
#[verifier::external_body]
pub(crate) fn open_reader<'a>(text: &'a str) -> (reader: Reader<&'a [u8]>)
    ensures
        unread(reader) == document_readings(text@),
        unread(reader).len() > 0,
{
    let mut reader = Reader::from_str(text);
    reader.config_mut().trim_text(true);
    reader
}

/// Calls `Reader::read_event_into` and copies the event out. Trusted: the
/// result is the first unread reading, the rest stay unread in their order,
/// and nothing stays once the end of the document or a failure was read.
#[verifier::external_body]
pub(crate) fn next_reading(reader: &mut Reader<&[u8]>) -> (result: Result<
    MarkupEvent,
    quick_xml::Error,
>)
    requires
        unread(*old(reader)).len() > 0,
    ensures
        reading_of(result) == unread(*old(reader)).first(),
        unread(*final(reader)) == unread(*old(reader)).skip(1),
        reading_of(result).is_last() <==> unread(*final(reader)).len() == 0,
{
    let mut buffer = Vec::new();
    Ok(match reader.read_event_into(&mut buffer)? {
        Event::Start(e) => MarkupEvent::Start {
            name: e.name().as_ref().to_vec(),
            attributes: e.attributes().map(|a| a.ok().map(|a| Attribute {
                key: a.key.as_ref().to_vec(),
                value: a.value.to_vec(),
            })).collect(),
        },
        Event::End(e) => MarkupEvent::End { name: e.name().as_ref().to_vec() },
        Event::Text(e) => MarkupEvent::Text { content: e.to_vec() },
        Event::Eof => MarkupEvent::Eof,
        _ => MarkupEvent::Other,
    })
}

/// Formats a `quick_xml::Error` through its `Display`. Nothing is claimed of
/// the text.
#[verifier::external_body]
pub(crate) fn error_text(error: &quick_xml::Error) -> (text: String) {
    format!("{}", error)
}

} // verus!
