//! Batches of documents: extraction that tolerates the documents it cannot
//! use, and the count of those it could.

use vstd::prelude::*;
use vstd::string::*;

use crate::extract::{events_before_end, extract_article_metadata, fails};
use crate::machine::record_of;
use crate::metadata::{ArticleMetadata, MetadataView};
use crate::reader::document_readings;

verus! {

/// A document as a batch receives it: where it came from, and its text if it
/// could be read.
#[derive(Debug, Clone, PartialEq, Eq)]
pub struct Document {
    pub path: String,
    /// `None` where the source could not be read.
    pub content: Option<String>,
}

/// A document over character sequences.
pub struct DocumentView {
    pub path: Seq<char>,
    pub content: Option<Seq<char>>,
}

impl DeepView for Document {
    type V = DocumentView;

    open spec fn deep_view(&self) -> DocumentView {
        DocumentView { path: self.path@, content: self.content.deep_view() }
    }
}

impl View for Document {
    type V = DocumentView;

    open spec fn view(&self) -> DocumentView {
        self.deep_view()
    }
}

/// What a batch makes of one document: its record, or nothing where the
/// document could not be read or its markup is malformed.
pub open spec fn outcome(document: DocumentView) -> Option<MetadataView> {
    match document.content {
        None => None,
        Some(text) => if fails(document_readings(text)) {
            None
        } else {
            Some(record_of(events_before_end(document_readings(text)), document.path))
        },
    }
}

/// The outcomes of a batch, one per document and in the documents' order.
pub open spec fn outcomes(documents: Seq<DocumentView>) -> Seq<Option<MetadataView>> {
    Seq::new(documents.len(), |i: int| outcome(documents[i]))
}

/// How many of the outcomes are records.
pub open spec fn successes(outcomes: Seq<Option<MetadataView>>) -> nat
    decreases outcomes.len(),
{
    if outcomes.len() == 0 {
        0
    } else if outcomes.last() is Some {
        successes(outcomes.drop_last()) + 1
    } else {
        successes(outcomes.drop_last())
    }
}

/// The records among the outcomes, in order.
pub open spec fn records_of(outcomes: Seq<Option<MetadataView>>) -> Seq<MetadataView>
    decreases outcomes.len(),
{
    if outcomes.len() == 0 {
        Seq::empty()
    } else {
        match outcomes.last() {
            Some(record) => records_of(outcomes.drop_last()).push(record),
            None => records_of(outcomes.drop_last()),
        }
    }
}

/// How one document of a batch ended.
#[derive(Debug, Clone, Copy, PartialEq, Eq)]
pub enum DocumentFate {
    /// The source could not be read.
    Unreadable,
    /// The markup is malformed.
    Malformed,
    /// The record could not be serialized.
    Unserializable,
    /// The record could not be written to the destination.
    Unwritten,
    /// The record is in the destination.
    Written,
}

/// How many of the documents ended in the destination.
pub open spec fn written(fates: Seq<DocumentFate>) -> nat
    decreases fates.len(),
{
    if fates.len() == 0 {
        0
    } else if fates.last() is Written {
        written(fates.drop_last()) + 1
    } else {
        written(fates.drop_last())
    }
}

/// Counts the documents that ended in the destination: the number that a
/// batch reports.
pub fn tally(fates: &Vec<DocumentFate>) -> (count: usize)
    ensures
        count == written(fates@),
        count <= fates.len(),
{
    let mut count: usize = 0;
    let mut i: usize = 0;
    assert(fates@.take(0) =~= Seq::<DocumentFate>::empty());
    while i < fates.len()
        invariant
            i <= fates.len(),
            count <= i,
            count == written(fates@.take(i as int)),
        decreases fates.len() - i,
    {
        assert(fates@.take(i + 1).drop_last() =~= fates@.take(i as int));
        assert(fates@.take(i + 1).last() == fates@[i as int]);
        match fates[i] {
            DocumentFate::Written => {
                count = count + 1;
            },
            _ => {},
        }
        i = i + 1;
    }
    assert(fates@.take(fates.len() as int) =~= fates@);
    count
}

/// Extracts one document of a batch.
pub fn extract_document(document: &Document) -> (result: Option<ArticleMetadata>)
    ensures
        result.deep_view() == outcome(document@),
{
    match &document.content {
        None => None,
        Some(text) => match extract_article_metadata(text.as_str(), document.path.as_str()) {
            Ok(record) => Some(record),
            Err(_) => None,
        },
    }
}

/// Extracts every document of a batch. A document that cannot be used leaves
/// `None` in its place, so that the results stay aligned with the documents;
/// it never keeps the others from being processed.
pub fn extract_batch(documents: &Vec<Document>) -> (results: Vec<Option<ArticleMetadata>>)
    ensures
        results.deep_view() == outcomes(documents.deep_view()),
{
    let mut results: Vec<Option<ArticleMetadata>> = Vec::new();
    let mut i: usize = 0;
    while i < documents.len()
        invariant
            i <= documents.len(),
            results.len() == i,
            forall|k: int|
                0 <= k < i ==> (#[trigger] results@[k]).deep_view() == outcome(documents@[k]@),
        decreases documents.len() - i,
    {
        let result = extract_document(&documents[i]);
        results.push(result);
        i = i + 1;
    }
    assert(results.deep_view() =~= outcomes(documents.deep_view()));
    results
}

/// Counts the records among the results of a batch.
pub fn count_successes(results: &Vec<Option<ArticleMetadata>>) -> (count: usize)
    ensures
        count == successes(results.deep_view()),
{
    let mut count: usize = 0;
    let mut i: usize = 0;
    assert(results.deep_view().take(0) =~= Seq::<Option<MetadataView>>::empty());
    while i < results.len()
        invariant
            i <= results.len(),
            count <= i,
            count == successes(results.deep_view().take(i as int)),
        decreases results.len() - i,
    {
        let ghost before = results.deep_view().take(i as int);
        let ghost after = results.deep_view().take(i + 1);
        assert(after.drop_last() =~= before);
        assert(after.last() == results@[i as int].deep_view());
        if results[i].is_some() {
            count = count + 1;
        }
        i = i + 1;
    }
    assert(results.deep_view().take(results.len() as int) =~= results.deep_view());
    count
}

/// There are never more successes than outcomes, and exactly as many as
/// there are records.
pub proof fn lemma_successes_bounded(outcomes: Seq<Option<MetadataView>>)
    ensures
        successes(outcomes) <= outcomes.len(),
        successes(outcomes) == records_of(outcomes).len(),
    decreases outcomes.len(),
{
    if outcomes.len() > 0 {
        lemma_successes_bounded(outcomes.drop_last());
    }
}

/// One document that cannot be used costs the batch exactly that document:
/// with the outcome at `i` missing, the successes are those of the other
/// outcomes.
pub proof fn lemma_failure_costs_nothing_else(outcomes: Seq<Option<MetadataView>>, i: int)
    requires
        0 <= i < outcomes.len(),
        outcomes[i] is None,
    ensures
        successes(outcomes) == successes(outcomes.remove(i)),
        records_of(outcomes) == records_of(outcomes.remove(i)),
    decreases outcomes.len(),
{
    if i == outcomes.len() - 1 {
        assert(outcomes.remove(i) =~= outcomes.drop_last());
    } else {
        lemma_failure_costs_nothing_else(outcomes.drop_last(), i);
        assert(outcomes.remove(i).drop_last() =~= outcomes.drop_last().remove(i));
        assert(outcomes.remove(i).last() == outcomes.last());
    }
}

} // verus!
