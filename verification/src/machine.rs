//! The extraction state machine: one pass over a markup event stream, with
//! the state it keeps and the record it commits.
//!
//! The transition is given twice: as the spec function [`step`] over
//! [`MachineState`], which is the definition, and as [`Extractor::feed`],
//! which is proved to compute it.

use vstd::prelude::*;
use vstd::string::*;

use crate::event::{
    carries, classify, has_attribute, tag_of, Attribute, AttributeView, EventView, MarkupEvent,
    Tag,
};
use crate::metadata::{ArticleMetadata, MetadataView};
use crate::rules::{
    assemble_date, author_name, commit_text, committed, compose_author_name, date_of,
    normalize_pmc_id, short_id,
};
use crate::text::{decoded, join, joined, text_of};

verus! {

/// The identifier types that an element announced and that no value has
/// been routed to since.
#[derive(Debug, Clone, Copy, PartialEq, Eq)]
pub struct Pending {
    pub pmid: bool,
    pub pmc: bool,
    pub doi: bool,
}

impl Pending {
    /// Whether any type is pending.
    pub open spec fn any(self) -> bool {
        self.pmid || self.pmc || self.doi
    }
}

/// The scratch that title, abstract, journal and identifiers share.
pub struct FieldScratchView {
    pub in_title: bool,
    pub in_abstract: bool,
    pub in_journal: bool,
    pub text: Seq<char>,
}

/// The scratch of one contributor.
pub struct NameScratchView {
    /// The contributor has the author role and has not been closed.
    pub collecting: bool,
    pub in_surname: bool,
    pub in_given_names: bool,
    pub surname: Seq<char>,
    pub given_names: Seq<char>,
}

/// The scratch of one publication date.
pub struct DateScratchView {
    /// The date container is open.
    pub collecting: bool,
    pub in_year: bool,
    pub in_month: bool,
    pub in_day: bool,
    pub year: Seq<char>,
    pub month: Seq<char>,
    pub day: Seq<char>,
}

/// The state of the machine between two events.
pub struct MachineState {
    /// The fields committed so far.
    pub record: MetadataView,
    /// Inside the header region.
    pub in_header: bool,
    /// Inside the main-body region.
    pub in_body: bool,
    /// A title has been committed; no later one is looked at.
    pub title_committed: bool,
    pub scratch: FieldScratchView,
    pub pending: Pending,
    pub names: NameScratchView,
    pub date: DateScratchView,
    /// The text fragments seen inside the body, in order.
    pub body_parts: Seq<Seq<char>>,
}

impl NameScratchView {
    /// No contributor open, nothing collected.
    pub open spec fn idle() -> NameScratchView {
        NameScratchView {
            collecting: false,
            in_surname: false,
            in_given_names: false,
            surname: Seq::empty(),
            given_names: Seq::empty(),
        }
    }
}

impl DateScratchView {
    /// No date open, nothing collected.
    pub open spec fn idle() -> DateScratchView {
        DateScratchView {
            collecting: false,
            in_year: false,
            in_month: false,
            in_day: false,
            year: Seq::empty(),
            month: Seq::empty(),
            day: Seq::empty(),
        }
    }
}

/// The state before the first event.
pub open spec fn initial(file_path: Seq<char>) -> MachineState {
    MachineState {
        record: MetadataView::blank(file_path),
        in_header: false,
        in_body: false,
        title_committed: false,
        scratch: FieldScratchView {
            in_title: false,
            in_abstract: false,
            in_journal: false,
            text: Seq::empty(),
        },
        pending: Pending { pmid: false, pmc: false, doi: false },
        names: NameScratchView::idle(),
        date: DateScratchView::idle(),
        body_parts: Seq::empty(),
    }
}

/// Whether the attributes give the contributor the author role.
pub open spec fn is_author(attributes: Seq<Option<AttributeView>>) -> bool {
    has_attribute(attributes, "contrib-type".spec_bytes(), "author".spec_bytes())
}

/// Whether the attributes declare an identifier of type `kind`.
pub open spec fn declares_id(attributes: Seq<Option<AttributeView>>, kind: &str) -> bool {
    has_attribute(attributes, "pub-id-type".spec_bytes(), kind.spec_bytes())
}

/// The shared scratch, emptied.
pub open spec fn cleared(scratch: FieldScratchView) -> FieldScratchView {
    FieldScratchView { text: Seq::empty(), ..scratch }
}

/// The state after the element `tag` opens.
///
/// An identifier element makes the type that it declares pending, unless a
/// value of that type has been routed before: each identifier is taken once.
pub open spec fn opened(
    s: MachineState,
    tag: Tag,
    attributes: Seq<Option<AttributeView>>,
) -> MachineState {
    match tag {
        Tag::Front => MachineState { in_header: true, ..s },
        Tag::Back => MachineState { in_header: false, ..s },
        Tag::Body => MachineState { in_body: true, ..s },
        Tag::ArticleTitle => if s.in_header && !s.title_committed {
            MachineState {
                scratch: FieldScratchView { in_title: true, text: Seq::empty(), ..s.scratch },
                ..s
            }
        } else {
            s
        },
        Tag::Abstract => if s.in_header {
            MachineState {
                scratch: FieldScratchView { in_abstract: true, text: Seq::empty(), ..s.scratch },
                ..s
            }
        } else {
            s
        },
        Tag::JournalTitle => if s.in_header {
            MachineState {
                scratch: FieldScratchView { in_journal: true, text: Seq::empty(), ..s.scratch },
                ..s
            }
        } else {
            s
        },
        Tag::Contrib => if s.in_header && is_author(attributes) {
            MachineState {
                names: NameScratchView {
                    collecting: true,
                    surname: Seq::empty(),
                    given_names: Seq::empty(),
                    ..s.names
                },
                ..s
            }
        } else {
            s
        },
        Tag::Surname => if s.names.collecting && s.in_header {
            MachineState {
                names: NameScratchView { in_surname: true, surname: Seq::empty(), ..s.names },
                ..s
            }
        } else {
            s
        },
        Tag::GivenNames => if s.names.collecting && s.in_header {
            MachineState {
                names: NameScratchView {
                    in_given_names: true,
                    given_names: Seq::empty(),
                    ..s.names
                },
                ..s
            }
        } else {
            s
        },
        Tag::ArticleId => if s.in_header {
            MachineState {
                scratch: cleared(s.scratch),
                pending: Pending {
                    pmid: s.pending.pmid || (declares_id(attributes, "pmid")
                        && s.record.pmid is None),
                    pmc: s.pending.pmc || (declares_id(attributes, "pmc")
                        && s.record.pmc_id is None),
                    doi: s.pending.doi || (declares_id(attributes, "doi")
                        && s.record.doi is None),
                },
                ..s
            }
        } else {
            s
        },
        Tag::PubDate => if s.in_header {
            MachineState {
                date: DateScratchView {
                    collecting: true,
                    year: Seq::empty(),
                    month: Seq::empty(),
                    day: Seq::empty(),
                    ..s.date
                },
                ..s
            }
        } else {
            s
        },
        Tag::Year => if s.date.collecting && s.in_header {
            MachineState {
                date: DateScratchView { in_year: true, year: Seq::empty(), ..s.date },
                ..s
            }
        } else {
            s
        },
        Tag::Month => if s.date.collecting && s.in_header {
            MachineState {
                date: DateScratchView { in_month: true, month: Seq::empty(), ..s.date },
                ..s
            }
        } else {
            s
        },
        Tag::Day => if s.date.collecting && s.in_header {
            MachineState {
                date: DateScratchView { in_day: true, day: Seq::empty(), ..s.date },
                ..s
            }
        } else {
            s
        },
        Tag::Other => s,
    }
}

/// Whether the shared scratch is taking text.
pub open spec fn scratch_open(s: MachineState) -> bool {
    s.scratch.in_title || s.scratch.in_abstract || s.scratch.in_journal || s.pending.any()
}

/// The state after text went to the one header buffer that is taking it, if
/// any: a name part before a date part, a date part before the shared scratch.
pub open spec fn header_text(s: MachineState, t: Seq<char>) -> MachineState {
    if !s.in_header {
        s
    } else if s.names.in_surname {
        MachineState { names: NameScratchView { surname: s.names.surname + t, ..s.names }, ..s }
    } else if s.names.in_given_names {
        MachineState {
            names: NameScratchView { given_names: s.names.given_names + t, ..s.names },
            ..s
        }
    } else if s.date.in_year && s.date.collecting {
        MachineState { date: DateScratchView { year: s.date.year + t, ..s.date }, ..s }
    } else if s.date.in_month && s.date.collecting {
        MachineState { date: DateScratchView { month: s.date.month + t, ..s.date }, ..s }
    } else if s.date.in_day && s.date.collecting {
        MachineState { date: DateScratchView { day: s.date.day + t, ..s.date }, ..s }
    } else if scratch_open(s) {
        MachineState { scratch: FieldScratchView { text: s.scratch.text + t, ..s.scratch }, ..s }
    } else {
        s
    }
}

/// The state after character data: the header rule, and independently of it
/// one more body fragment while inside the body.
pub open spec fn on_text(s: MachineState, content: Seq<u8>) -> MachineState {
    let t = decoded(content);
    let h = header_text(s, t);
    if s.in_body {
        MachineState { body_parts: s.body_parts.push(t), ..h }
    } else {
        h
    }
}

/// The state after an identifier element closed with `value` in the scratch:
/// the value goes to the first pending type, which is then used up.
pub open spec fn route_identifier(s: MachineState, value: Seq<char>) -> MachineState {
    if s.pending.pmid {
        MachineState {
            record: MetadataView { pmid: Some(value), ..s.record },
            pending: Pending { pmid: false, ..s.pending },
            ..s
        }
    } else if s.pending.pmc {
        MachineState {
            record: MetadataView { pmc_id: Some(short_id(value)), ..s.record },
            pending: Pending { pmc: false, ..s.pending },
            ..s
        }
    } else if s.pending.doi {
        MachineState {
            record: MetadataView { doi: Some(value), ..s.record },
            pending: Pending { doi: false, ..s.pending },
            ..s
        }
    } else {
        s
    }
}

/// The state after the element `tag` closes.
pub open spec fn closed(s: MachineState, tag: Tag) -> MachineState {
    match tag {
        Tag::Front => MachineState { in_header: false, ..s },
        Tag::Body => MachineState { in_body: false, ..s },
        Tag::ArticleTitle => if s.scratch.in_title && s.in_header && !s.title_committed {
            let scratch = FieldScratchView { in_title: false, text: Seq::empty(), ..s.scratch };
            match committed(s.scratch.text) {
                Some(t) => MachineState {
                    record: MetadataView { title: Some(t), ..s.record },
                    title_committed: true,
                    scratch,
                    ..s
                },
                None => MachineState { scratch, ..s },
            }
        } else {
            s
        },
        Tag::Abstract => if s.scratch.in_abstract && s.in_header {
            let scratch = FieldScratchView { in_abstract: false, text: Seq::empty(), ..s.scratch };
            match committed(s.scratch.text) {
                Some(t) => MachineState {
                    record: MetadataView { abstract_text: Some(t), ..s.record },
                    scratch,
                    ..s
                },
                None => MachineState { scratch, ..s },
            }
        } else {
            s
        },
        Tag::JournalTitle => if s.scratch.in_journal && s.in_header {
            let scratch = FieldScratchView { in_journal: false, text: Seq::empty(), ..s.scratch };
            match committed(s.scratch.text) {
                Some(t) => MachineState {
                    record: MetadataView { journal: Some(t), ..s.record },
                    scratch,
                    ..s
                },
                None => MachineState { scratch, ..s },
            }
        } else {
            s
        },
        Tag::Contrib => if s.names.collecting && s.in_header {
            let names = NameScratchView {
                collecting: false,
                surname: Seq::empty(),
                given_names: Seq::empty(),
                ..s.names
            };
            match author_name(s.names.surname, s.names.given_names) {
                Some(n) => MachineState {
                    record: MetadataView { authors: s.record.authors.push(n), ..s.record },
                    names,
                    ..s
                },
                None => MachineState { names, ..s },
            }
        } else {
            s
        },
        Tag::Surname => MachineState {
            names: NameScratchView { in_surname: false, ..s.names },
            ..s
        },
        Tag::GivenNames => MachineState {
            names: NameScratchView { in_given_names: false, ..s.names },
            ..s
        },
        Tag::ArticleId => if s.in_header {
            let routed = match committed(s.scratch.text) {
                Some(t) => route_identifier(s, t),
                None => s,
            };
            MachineState { scratch: cleared(s.scratch), ..routed }
        } else {
            s
        },
        Tag::PubDate => if s.date.collecting && s.in_header {
            let date = DateScratchView {
                collecting: false,
                year: Seq::empty(),
                month: Seq::empty(),
                day: Seq::empty(),
                ..s.date
            };
            match date_of(s.date.year, s.date.month, s.date.day) {
                Some(d) => MachineState {
                    record: MetadataView { publication_date: Some(d), ..s.record },
                    date,
                    ..s
                },
                None => MachineState { date, ..s },
            }
        } else {
            s
        },
        Tag::Year => MachineState { date: DateScratchView { in_year: false, ..s.date }, ..s },
        Tag::Month => MachineState { date: DateScratchView { in_month: false, ..s.date }, ..s },
        Tag::Day => MachineState { date: DateScratchView { in_day: false, ..s.date }, ..s },
        Tag::Back => s,
        Tag::Other => s,
    }
}

/// The state after an element opens.
pub open spec fn on_start(
    s: MachineState,
    name: Seq<u8>,
    attributes: Seq<Option<AttributeView>>,
) -> MachineState {
    opened(s, tag_of(name), attributes)
}

/// The state after an element closes.
pub open spec fn on_end(s: MachineState, name: Seq<u8>) -> MachineState {
    closed(s, tag_of(name))
}

/// The state after one event.
pub open spec fn step(s: MachineState, event: EventView) -> MachineState {
    match event {
        EventView::Start { name, attributes } => on_start(s, name, attributes),
        EventView::Text { content } => on_text(s, content),
        EventView::End { name } => on_end(s, name),
        EventView::Eof => s,
        EventView::Other => s,
    }
}

/// The state after a run of events, taken in order.
pub open spec fn run(s: MachineState, events: Seq<EventView>) -> MachineState
    decreases events.len(),
{
    if events.len() == 0 {
        s
    } else {
        step(run(s, events.drop_last()), events.last())
    }
}

/// The record that a state commits at the end of the stream: what was
/// committed on the way, and the body fragments joined by single spaces if
/// there are any.
pub open spec fn finished(s: MachineState) -> MetadataView {
    MetadataView {
        full_text: if s.body_parts.len() > 0 {
            Some(joined(s.body_parts, " "@))
        } else {
            None
        },
        ..s.record
    }
}

/// The record extracted from a whole run of events for the document named
/// `file_path`.
pub open spec fn record_of(events: Seq<EventView>, file_path: Seq<char>) -> MetadataView {
    finished(run(initial(file_path), events))
}

/// The shared scratch buffer and the fields that are writing to it.
struct FieldScratch {
    in_title: bool,
    in_abstract: bool,
    in_journal: bool,
    text: String,
}

/// The two name buffers of the contributor being collected.
struct NameScratch {
    collecting: bool,
    in_surname: bool,
    in_given_names: bool,
    surname: String,
    given_names: String,
}

/// The three buffers of the date being collected.
struct DateScratch {
    collecting: bool,
    in_year: bool,
    in_month: bool,
    in_day: bool,
    year: String,
    month: String,
    day: String,
}

impl View for FieldScratch {
    type V = FieldScratchView;

    closed spec fn view(&self) -> FieldScratchView {
        FieldScratchView {
            in_title: self.in_title,
            in_abstract: self.in_abstract,
            in_journal: self.in_journal,
            text: self.text@,
        }
    }
}

impl View for NameScratch {
    type V = NameScratchView;

    closed spec fn view(&self) -> NameScratchView {
        NameScratchView {
            collecting: self.collecting,
            in_surname: self.in_surname,
            in_given_names: self.in_given_names,
            surname: self.surname@,
            given_names: self.given_names@,
        }
    }
}

impl View for DateScratch {
    type V = DateScratchView;

    closed spec fn view(&self) -> DateScratchView {
        DateScratchView {
            collecting: self.collecting,
            in_year: self.in_year,
            in_month: self.in_month,
            in_day: self.in_day,
            year: self.year@,
            month: self.month@,
            day: self.day@,
        }
    }
}

/// The machine itself. It is fed the events of one document in order and
/// then asked for the record.
pub struct Extractor {
    record: ArticleMetadata,
    in_header: bool,
    in_body: bool,
    title_committed: bool,
    scratch: FieldScratch,
    pending: Pending,
    names: NameScratch,
    date: DateScratch,
    body_parts: Vec<String>,
}

impl View for Extractor {
    type V = MachineState;

    closed spec fn view(&self) -> MachineState {
        MachineState {
            record: self.record@,
            in_header: self.in_header,
            in_body: self.in_body,
            title_committed: self.title_committed,
            scratch: self.scratch@,
            pending: self.pending,
            names: self.names@,
            date: self.date@,
            body_parts: self.body_parts.deep_view(),
        }
    }
}

impl Extractor {
    /// A machine before the first event of the document named `file_path`.
    pub fn new(file_path: &str) -> (machine: Extractor)
        ensures
            machine@ == initial(file_path@),
    {
        let machine = Extractor {
            record: ArticleMetadata::new(file_path),
            in_header: false,
            in_body: false,
            title_committed: false,
            scratch: FieldScratch {
                in_title: false,
                in_abstract: false,
                in_journal: false,
                text: String::new(),
            },
            pending: Pending { pmid: false, pmc: false, doi: false },
            names: NameScratch {
                collecting: false,
                in_surname: false,
                in_given_names: false,
                surname: String::new(),
                given_names: String::new(),
            },
            date: DateScratch {
                collecting: false,
                in_year: false,
                in_month: false,
                in_day: false,
                year: String::new(),
                month: String::new(),
                day: String::new(),
            },
            body_parts: Vec::new(),
        };
        assert(machine.body_parts.deep_view() =~= Seq::<Seq<char>>::empty());
        machine
    }

    /// Takes one event.
    pub fn feed(&mut self, event: &MarkupEvent)
        ensures
            final(self)@ == step(old(self)@, event@),
    {
        match event {
            MarkupEvent::Start { name, attributes } => self.start(name.as_slice(), attributes),
            MarkupEvent::Text { content } => self.characters(content.as_slice()),
            MarkupEvent::End { name } => self.end(name.as_slice()),
            MarkupEvent::Eof => {},
            MarkupEvent::Other => {},
        }
    }

    /// An element opens.
    pub fn start(&mut self, name: &[u8], attributes: &Vec<Option<Attribute>>)
        ensures
            final(self)@ == on_start(old(self)@, name@, attributes.deep_view()),
    {
        self.open(classify(name), attributes)
    }

    /// An element closes.
    pub fn end(&mut self, name: &[u8])
        ensures
            final(self)@ == on_end(old(self)@, name@),
    {
        self.close(classify(name))
    }

    /// Character data arrives.
    pub fn characters(&mut self, content: &[u8])
        ensures
            final(self)@ == on_text(old(self)@, content@),
    {
        let t = text_of(content);
        if !self.in_header {
        } else if self.names.in_surname {
            self.names.surname.append(t);
        } else if self.names.in_given_names {
            self.names.given_names.append(t);
        } else if self.date.in_year && self.date.collecting {
            self.date.year.append(t);
        } else if self.date.in_month && self.date.collecting {
            self.date.month.append(t);
        } else if self.date.in_day && self.date.collecting {
            self.date.day.append(t);
        } else if self.scratch.in_title || self.scratch.in_abstract || self.scratch.in_journal
            || self.pending.pmid || self.pending.pmc || self.pending.doi {
            self.scratch.text.append(t);
        }
        if self.in_body {
            let ghost before = self.body_parts.deep_view();
            self.body_parts.push(String::from_str(t));
            assert(self.body_parts.deep_view() =~= before.push(t@));
        }
    }

    /// The element `tag` opens.
    pub fn open(&mut self, tag: Tag, attributes: &Vec<Option<Attribute>>)
        ensures
            final(self)@ == opened(old(self)@, tag, attributes.deep_view()),
    {
        match tag {
            Tag::Front | Tag::Back | Tag::Body => self.open_region(tag, attributes),
            Tag::ArticleTitle | Tag::Abstract | Tag::JournalTitle => self.open_field(
                tag,
                attributes,
            ),
            Tag::Contrib | Tag::Surname | Tag::GivenNames => self.open_name(tag, attributes),
            Tag::ArticleId => self.open_identifier(attributes),
            Tag::PubDate | Tag::Year | Tag::Month | Tag::Day => self.open_date(tag, attributes),
            Tag::Other => {},
        }
    }

    /// The element `tag` closes.
    pub fn close(&mut self, tag: Tag)
        ensures
            final(self)@ == closed(old(self)@, tag),
    {
        match tag {
            Tag::Front | Tag::Back | Tag::Body => self.close_region(tag),
            Tag::ArticleTitle | Tag::Abstract | Tag::JournalTitle => self.close_field(tag),
            Tag::Contrib | Tag::Surname | Tag::GivenNames => self.close_name(tag),
            Tag::ArticleId => self.close_identifier(),
            Tag::PubDate | Tag::Year | Tag::Month | Tag::Day => self.close_date(tag),
            Tag::Other => {},
        }
    }

    /// Region tracking, on entering a boundary element.
    fn open_region(&mut self, tag: Tag, attributes: &Vec<Option<Attribute>>)
        requires
            tag is Front || tag is Back || tag is Body,
        ensures
            final(self)@ == opened(old(self)@, tag, attributes.deep_view()),
    {
        match tag {
            Tag::Front => {
                self.in_header = true;
            },
            Tag::Back => {
                self.in_header = false;
            },
            _ => {
                self.in_body = true;
            },
        }
    }

    /// The title, abstract and journal rules, on entering the element.
    fn open_field(&mut self, tag: Tag, attributes: &Vec<Option<Attribute>>)
        requires
            tag is ArticleTitle || tag is Abstract || tag is JournalTitle,
        ensures
            final(self)@ == opened(old(self)@, tag, attributes.deep_view()),
    {
        if self.in_header {
            match tag {
                Tag::ArticleTitle => {
                    if !self.title_committed {
                        self.scratch.in_title = true;
                        self.scratch.text = String::new();
                    }
                },
                Tag::Abstract => {
                    self.scratch.in_abstract = true;
                    self.scratch.text = String::new();
                },
                _ => {
                    self.scratch.in_journal = true;
                    self.scratch.text = String::new();
                },
            }
        }
    }

    /// The author rule, on entering a contributor or one of its name parts.
    fn open_name(&mut self, tag: Tag, attributes: &Vec<Option<Attribute>>)
        requires
            tag is Contrib || tag is Surname || tag is GivenNames,
        ensures
            final(self)@ == opened(old(self)@, tag, attributes.deep_view()),
    {
        if self.in_header {
            match tag {
                Tag::Contrib => {
                    if carries(attributes, "contrib-type", "author") {
                        self.names.collecting = true;
                        self.names.surname = String::new();
                        self.names.given_names = String::new();
                    }
                },
                Tag::Surname => {
                    if self.names.collecting {
                        self.names.in_surname = true;
                        self.names.surname = String::new();
                    }
                },
                _ => {
                    if self.names.collecting {
                        self.names.in_given_names = true;
                        self.names.given_names = String::new();
                    }
                },
            }
        }
    }

    /// The identifier rule, on entering the element.
    fn open_identifier(&mut self, attributes: &Vec<Option<Attribute>>)
        ensures
            final(self)@ == opened(old(self)@, Tag::ArticleId, attributes.deep_view()),
    {
        if self.in_header {
            self.scratch.text = String::new();
            if self.record.pmid.is_none() && carries(attributes, "pub-id-type", "pmid") {
                self.pending.pmid = true;
            }
            if self.record.pmc_id.is_none() && carries(attributes, "pub-id-type", "pmc") {
                self.pending.pmc = true;
            }
            if self.record.doi.is_none() && carries(attributes, "pub-id-type", "doi") {
                self.pending.doi = true;
            }
        }
    }

    /// The publication-date rule, on entering the container or one of its
    /// parts.
    fn open_date(&mut self, tag: Tag, attributes: &Vec<Option<Attribute>>)
        requires
            tag is PubDate || tag is Year || tag is Month || tag is Day,
        ensures
            final(self)@ == opened(old(self)@, tag, attributes.deep_view()),
    {
        if self.in_header {
            match tag {
                Tag::PubDate => {
                    self.date.collecting = true;
                    self.date.year = String::new();
                    self.date.month = String::new();
                    self.date.day = String::new();
                },
                Tag::Year => {
                    if self.date.collecting {
                        self.date.in_year = true;
                        self.date.year = String::new();
                    }
                },
                Tag::Month => {
                    if self.date.collecting {
                        self.date.in_month = true;
                        self.date.month = String::new();
                    }
                },
                _ => {
                    if self.date.collecting {
                        self.date.in_day = true;
                        self.date.day = String::new();
                    }
                },
            }
        }
    }

    /// Region tracking, on leaving a boundary element.
    fn close_region(&mut self, tag: Tag)
        requires
            tag is Front || tag is Back || tag is Body,
        ensures
            final(self)@ == closed(old(self)@, tag),
    {
        match tag {
            Tag::Front => {
                self.in_header = false;
            },
            Tag::Body => {
                self.in_body = false;
            },
            _ => {},
        }
    }

    /// The title, abstract and journal rules, on leaving the element: the
    /// first title that is not empty is committed, once; an abstract or a
    /// journal that is not empty replaces what was there.
    fn close_field(&mut self, tag: Tag)
        requires
            tag is ArticleTitle || tag is Abstract || tag is JournalTitle,
        ensures
            final(self)@ == closed(old(self)@, tag),
    {
        match tag {
            Tag::ArticleTitle => {
                if self.scratch.in_title && self.in_header && !self.title_committed {
                    match commit_text(self.scratch.text.as_str()) {
                        Some(title) => {
                            self.record.title = Some(title);
                            self.title_committed = true;
                        },
                        None => {},
                    }
                    self.scratch.text = String::new();
                    self.scratch.in_title = false;
                }
            },
            Tag::Abstract => {
                if self.scratch.in_abstract && self.in_header {
                    match commit_text(self.scratch.text.as_str()) {
                        Some(value) => {
                            self.record.abstract_text = Some(value);
                        },
                        None => {},
                    }
                    self.scratch.text = String::new();
                    self.scratch.in_abstract = false;
                }
            },
            _ => {
                if self.scratch.in_journal && self.in_header {
                    match commit_text(self.scratch.text.as_str()) {
                        Some(value) => {
                            self.record.journal = Some(value);
                        },
                        None => {},
                    }
                    self.scratch.text = String::new();
                    self.scratch.in_journal = false;
                }
            },
        }
    }

    /// The author rule, on leaving a contributor or one of its name parts.
    fn close_name(&mut self, tag: Tag)
        requires
            tag is Contrib || tag is Surname || tag is GivenNames,
        ensures
            final(self)@ == closed(old(self)@, tag),
    {
        match tag {
            Tag::Contrib => {
                if self.names.collecting && self.in_header {
                    match compose_author_name(
                        self.names.surname.as_str(),
                        self.names.given_names.as_str(),
                    ) {
                        Some(author) => {
                            let ghost before = self.record.authors.deep_view();
                            let ghost added = author@;
                            self.record.authors.push(author);
                            assert(self.record.authors.deep_view() =~= before.push(added));
                        },
                        None => {},
                    }
                    self.names.collecting = false;
                    self.names.surname = String::new();
                    self.names.given_names = String::new();
                }
            },
            Tag::Surname => {
                self.names.in_surname = false;
            },
            _ => {
                self.names.in_given_names = false;
            },
        }
    }

    /// The identifier rule, on leaving the element.
    fn close_identifier(&mut self)
        ensures
            final(self)@ == closed(old(self)@, Tag::ArticleId),
    {
        if self.in_header {
            match commit_text(self.scratch.text.as_str()) {
                Some(value) => {
                    if self.pending.pmid {
                        self.record.pmid = Some(value);
                        self.pending.pmid = false;
                    } else if self.pending.pmc {
                        self.record.pmc_id = Some(normalize_pmc_id(value.as_str()));
                        self.pending.pmc = false;
                    } else if self.pending.doi {
                        self.record.doi = Some(value);
                        self.pending.doi = false;
                    }
                },
                None => {},
            }
            self.scratch.text = String::new();
        }
    }

    /// The publication-date rule, on leaving the container or one of its
    /// parts.
    fn close_date(&mut self, tag: Tag)
        requires
            tag is PubDate || tag is Year || tag is Month || tag is Day,
        ensures
            final(self)@ == closed(old(self)@, tag),
    {
        match tag {
            Tag::PubDate => {
                if self.date.collecting && self.in_header {
                    match assemble_date(
                        self.date.year.as_str(),
                        self.date.month.as_str(),
                        self.date.day.as_str(),
                    ) {
                        Some(date) => {
                            self.record.publication_date = Some(date);
                        },
                        None => {},
                    }
                    self.date.collecting = false;
                    self.date.year = String::new();
                    self.date.month = String::new();
                    self.date.day = String::new();
                }
            },
            Tag::Year => {
                self.date.in_year = false;
            },
            Tag::Month => {
                self.date.in_month = false;
            },
            _ => {
                self.date.in_day = false;
            },
        }
    }

    /// The end of the stream: hands the record over, with the body text in
    /// it if there was any.
    pub fn finish(self) -> (record: ArticleMetadata)
        ensures
            record@ == finished(self@),
    {
        let mut record = self.record;
        assert(self.body_parts.deep_view().len() == self.body_parts.len());
        if self.body_parts.len() > 0 {
            record.full_text = Some(join(&self.body_parts, " "));
        } else {
            record.full_text = None;
        }
        record
    }
}

} // verus!
