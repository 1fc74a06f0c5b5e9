//! Extraction of one document: the event stream of its text is read once and
//! fed to the machine.

use vstd::prelude::*;
use vstd::string::*;

use crate::event::{EventView, MarkupEvent};
use crate::machine::{initial, record_of, run, Extractor};
use crate::metadata::ArticleMetadata;
use crate::reader::{
    document_readings, error_text, next_reading, open_reader, reading_of, unread, Reading,
};

verus! {

/// A document could not be read to its end.
#[derive(Debug, Clone, PartialEq, Eq)]
pub struct ParseError {
    /// `Error parsing XML: ` and the reader's own description of the cause.
    pub message: String,
}

/// The event of a reading; a failure carries none and counts as `Other`.
pub open spec fn event_of(reading: Reading) -> EventView {
    match reading {
        Reading::Event(event) => event,
        Reading::Failure => EventView::Other,
    }
}

/// The events of the first `n` readings.
pub open spec fn events_read(readings: Seq<Reading>, n: int) -> Seq<EventView> {
    Seq::new(n as nat, |i: int| event_of(readings[i]))
}

/// The events that come before the last reading.
pub open spec fn events_before_end(readings: Seq<Reading>) -> Seq<EventView> {
    events_read(readings, readings.len() - 1)
}

/// Whether the readings end in a failure.
pub open spec fn fails(readings: Seq<Reading>) -> bool {
    readings.len() > 0 && readings.last() is Failure
}

/// Runs the machine over events that are already at hand and returns the
/// record. An `Eof` among them changes nothing and ends nothing.
pub fn extract_from_events(events: &Vec<MarkupEvent>, file_path: &str) -> (record:
    ArticleMetadata)
    ensures
        record@ == record_of(events.deep_view(), file_path@),
{
    let mut machine = Extractor::new(file_path);
    let mut i: usize = 0;
    assert(events.deep_view().take(0) =~= Seq::<EventView>::empty());
    while i < events.len()
        invariant
            i <= events.len(),
            machine@ == run(initial(file_path@), events.deep_view().take(i as int)),
        decreases events.len() - i,
    {
        let ghost before = events.deep_view().take(i as int);
        let ghost after = events.deep_view().take(i + 1);
        assert(after.drop_last() =~= before);
        assert(after.last() == events@[i as int]@);
        machine.feed(&events[i]);
        i = i + 1;
    }
    assert(events.deep_view().take(events.len() as int) =~= events.deep_view());
    machine.finish()
}

/// Extracts the metadata and the body text of one document.
///
/// The document is read event by event with text trimmed. If the reader
/// fails on malformed markup the whole extraction fails and no record is
/// returned; else the record is the one that the machine commits for the
/// events before the end of the document.
pub fn extract_article_metadata(xml_content: &str, file_path: &str) -> (result: Result<
    ArticleMetadata,
    ParseError,
>)
    ensures
        result is Err <==> fails(document_readings(xml_content@)),
        result matches Ok(record) ==> record@ == record_of(
            events_before_end(document_readings(xml_content@)),
            file_path@,
        ),
        result matches Err(error) ==> "Error parsing XML: "@.is_prefix_of(error.message@),
{
    let ghost readings = document_readings(xml_content@);
    let mut reader = open_reader(xml_content);
    let mut machine = Extractor::new(file_path);
    let ghost mut n: int = 0;
    assert(events_read(readings, 0) =~= Seq::<EventView>::empty());
    assert(readings.skip(0) =~= readings);
    loop
        invariant
            readings == document_readings(xml_content@),
            0 <= n < readings.len(),
            unread(reader) == readings.skip(n),
            machine@ == run(initial(file_path@), events_read(readings, n)),
        decreases readings.len() - n,
    {
        let result = next_reading(&mut reader);
        proof {
            assert(readings.skip(n).first() == readings[n]);
            assert(readings.skip(n).skip(1) =~= readings.skip(n + 1));
        }
        match result {
            Err(error) => {
                let detail = error_text(&error);
                let message = String::from_str("Error parsing XML: ").concat(detail.as_str());
                return Err(ParseError { message });
            },
            Ok(event) => {
                match event {
                    MarkupEvent::Eof => {
                        return Ok(machine.finish());
                    },
                    _ => {
                        proof {
                            assert(events_read(readings, n + 1).drop_last() =~= events_read(
                                readings,
                                n,
                            ));
                            assert(events_read(readings, n + 1).last() == event@);
                        }
                        machine.feed(&event);
                        proof {
                            n = n + 1;
                        }
                    },
                }
            },
        }
    }
}

} // verus!
