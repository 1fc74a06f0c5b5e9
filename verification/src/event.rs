//! Markup events as the extraction rules read them, and the element names
//! that the rules know.

use vstd::prelude::*;
use vstd::string::*;

use crate::text::is_word;

verus! {

/// One attribute of an element: its raw name and its raw value.
#[derive(Debug, Clone, PartialEq, Eq)]
pub struct Attribute {
    pub key: Vec<u8>,
    pub value: Vec<u8>,
}

/// An attribute as a pair of byte sequences.
pub struct AttributeView {
    pub key: Seq<u8>,
    pub value: Seq<u8>,
}

impl DeepView for Attribute {
    type V = AttributeView;

    open spec fn deep_view(&self) -> AttributeView {
        AttributeView { key: self.key@, value: self.value@ }
    }
}

impl View for Attribute {
    type V = AttributeView;

    open spec fn view(&self) -> AttributeView {
        self.deep_view()
    }
}

/// One step of a markup stream. An attribute that could not be read stands
/// in its place as `None`.
#[derive(Debug, Clone, PartialEq, Eq)]
pub enum MarkupEvent {
    /// An element opens, with its attributes in document order.
    Start { name: Vec<u8>, attributes: Vec<Option<Attribute>> },
    /// An element closes.
    End { name: Vec<u8> },
    /// Character data between tags, undecoded.
    Text { content: Vec<u8> },
    /// The stream is exhausted.
    Eof,
    /// Anything else: empty elements, comments, declarations and the like.
    Other,
}

/// A markup event over byte sequences.
pub enum EventView {
    Start { name: Seq<u8>, attributes: Seq<Option<AttributeView>> },
    End { name: Seq<u8> },
    Text { content: Seq<u8> },
    Eof,
    Other,
}

impl View for MarkupEvent {
    type V = EventView;

    open spec fn view(&self) -> EventView {
        match self {
            MarkupEvent::Start { name, attributes } => EventView::Start {
                name: name@,
                attributes: attributes.deep_view(),
            },
            MarkupEvent::End { name } => EventView::End { name: name@ },
            MarkupEvent::Text { content } => EventView::Text { content: content@ },
            MarkupEvent::Eof => EventView::Eof,
            MarkupEvent::Other => EventView::Other,
        }
    }
}

impl DeepView for MarkupEvent {
    type V = EventView;

    open spec fn deep_view(&self) -> EventView {
        self.view()
    }
}

/// The elements that the extraction rules react to.
#[derive(Debug, Clone, Copy, PartialEq, Eq)]
pub enum Tag {
    /// `front`, the header boundary.
    Front,
    /// `back`, the trailing-matter boundary.
    Back,
    /// `body`, the main-body boundary.
    Body,
    ArticleTitle,
    Abstract,
    JournalTitle,
    Contrib,
    Surname,
    GivenNames,
    ArticleId,
    PubDate,
    Year,
    Month,
    Day,
    /// Any other element.
    Other,
}

/// The element that a raw name denotes.
pub open spec fn tag_of(name: Seq<u8>) -> Tag {
    if name == "front".spec_bytes() {
        Tag::Front
    } else if name == "back".spec_bytes() {
        Tag::Back
    } else if name == "body".spec_bytes() {
        Tag::Body
    } else if name == "article-title".spec_bytes() {
        Tag::ArticleTitle
    } else if name == "abstract".spec_bytes() {
        Tag::Abstract
    } else if name == "journal-title".spec_bytes() {
        Tag::JournalTitle
    } else if name == "contrib".spec_bytes() {
        Tag::Contrib
    } else if name == "surname".spec_bytes() {
        Tag::Surname
    } else if name == "given-names".spec_bytes() {
        Tag::GivenNames
    } else if name == "article-id".spec_bytes() {
        Tag::ArticleId
    } else if name == "pub-date".spec_bytes() {
        Tag::PubDate
    } else if name == "year".spec_bytes() {
        Tag::Year
    } else if name == "month".spec_bytes() {
        Tag::Month
    } else if name == "day".spec_bytes() {
        Tag::Day
    } else {
        Tag::Other
    }
}

/// Whether some readable attribute in `attributes` has exactly this name and
/// this value.
pub open spec fn has_attribute(
    attributes: Seq<Option<AttributeView>>,
    key: Seq<u8>,
    value: Seq<u8>,
) -> bool {
    exists|i: int|
        0 <= i < attributes.len() && #[trigger] attributes[i] == Some(
            AttributeView { key, value },
        )
}

/// Tells which element a raw name denotes.
pub fn classify(name: &[u8]) -> (tag: Tag)
    ensures
        tag == tag_of(name@),
{
    if is_word(name, "front") {
        Tag::Front
    } else if is_word(name, "back") {
        Tag::Back
    } else if is_word(name, "body") {
        Tag::Body
    } else if is_word(name, "article-title") {
        Tag::ArticleTitle
    } else if is_word(name, "abstract") {
        Tag::Abstract
    } else if is_word(name, "journal-title") {
        Tag::JournalTitle
    } else if is_word(name, "contrib") {
        Tag::Contrib
    } else if is_word(name, "surname") {
        Tag::Surname
    } else if is_word(name, "given-names") {
        Tag::GivenNames
    } else if is_word(name, "article-id") {
        Tag::ArticleId
    } else if is_word(name, "pub-date") {
        Tag::PubDate
    } else if is_word(name, "year") {
        Tag::Year
    } else if is_word(name, "month") {
        Tag::Month
    } else if is_word(name, "day") {
        Tag::Day
    } else {
        Tag::Other
    }
}

/// Looks for a readable attribute named `key` whose value is `value`.
pub fn carries(attributes: &Vec<Option<Attribute>>, key: &str, value: &str) -> (found: bool)
    ensures
        found == has_attribute(attributes.deep_view(), key.spec_bytes(), value.spec_bytes()),
{
    let ghost views = attributes.deep_view();
    let ghost wanted = Some(AttributeView { key: key.spec_bytes(), value: value.spec_bytes() });
    let mut i: usize = 0;
    while i < attributes.len()
        invariant
            i <= attributes.len(),
            views == attributes.deep_view(),
            wanted == Some(AttributeView { key: key.spec_bytes(), value: value.spec_bytes() }),
            forall|k: int| 0 <= k < i ==> views[k] != wanted,
        decreases attributes.len() - i,
    {
        match &attributes[i] {
            Some(attribute) => {
                if is_word(attribute.key.as_slice(), key) && is_word(
                    attribute.value.as_slice(),
                    value,
                ) {
                    assert(views[i as int] == wanted);
                    return true;
                }
            },
            None => {},
        }
        i = i + 1;
    }
    false
}

} // verus!
