//! The record that extraction produces.

use vstd::prelude::*;
use vstd::string::*;

verus! {

/// Metadata for one article.
#[derive(Debug, Clone, PartialEq, Eq)]
pub struct ArticleMetadata {
    /// Numeric article identifier.
    pub pmid: Option<String>,
    /// Short identifier, always carrying the `PMC` prefix.
    pub pmc_id: Option<String>,
    /// The first title found in the header.
    pub title: Option<String>,
    pub abstract_text: Option<String>,
    /// Display names of the authors, in document order.
    pub authors: Vec<String>,
    pub journal: Option<String>,
    /// `year`, `year-month` or `year-month-day`.
    pub publication_date: Option<String>,
    pub doi: Option<String>,
    /// The text fragments of the body, joined by single spaces.
    pub full_text: Option<String>,
    /// Where the document came from, as the caller named it.
    pub file_path: String,
}

/// A record over character sequences.
pub struct MetadataView {
    pub pmid: Option<Seq<char>>,
    pub pmc_id: Option<Seq<char>>,
    pub title: Option<Seq<char>>,
    pub abstract_text: Option<Seq<char>>,
    pub authors: Seq<Seq<char>>,
    pub journal: Option<Seq<char>>,
    pub publication_date: Option<Seq<char>>,
    pub doi: Option<Seq<char>>,
    pub full_text: Option<Seq<char>>,
    pub file_path: Seq<char>,
}

impl MetadataView {
    /// The record with nothing in it but where it came from.
    pub open spec fn blank(file_path: Seq<char>) -> MetadataView {
        MetadataView {
            pmid: None,
            pmc_id: None,
            title: None,
            abstract_text: None,
            authors: Seq::empty(),
            journal: None,
            publication_date: None,
            doi: None,
            full_text: None,
            file_path,
        }
    }

    /// What every extracted record satisfies: an optional text that is
    /// present is not empty, and the short identifier begins with `PMC`.
    pub open spec fn well_formed(self) -> bool {
        &&& self.title matches Some(t) ==> t.len() > 0
        &&& self.abstract_text matches Some(t) ==> t.len() > 0
        &&& self.journal matches Some(t) ==> t.len() > 0
        &&& self.pmid matches Some(t) ==> t.len() > 0
        &&& self.doi matches Some(t) ==> t.len() > 0
        &&& self.publication_date matches Some(t) ==> t.len() > 0
        &&& self.pmc_id matches Some(t) ==> "PMC"@.is_prefix_of(t)
        &&& forall|i: int| 0 <= i < self.authors.len() ==> (#[trigger] self.authors[i]).len() > 0
    }
}

impl View for ArticleMetadata {
    type V = MetadataView;

    open spec fn view(&self) -> MetadataView {
        MetadataView {
            pmid: self.pmid.deep_view(),
            pmc_id: self.pmc_id.deep_view(),
            title: self.title.deep_view(),
            abstract_text: self.abstract_text.deep_view(),
            authors: self.authors.deep_view(),
            journal: self.journal.deep_view(),
            publication_date: self.publication_date.deep_view(),
            doi: self.doi.deep_view(),
            full_text: self.full_text.deep_view(),
            file_path: self.file_path@,
        }
    }
}

impl DeepView for ArticleMetadata {
    type V = MetadataView;

    open spec fn deep_view(&self) -> MetadataView {
        self.view()
    }
}

impl ArticleMetadata {
    /// An empty record for the document named `file_path`.
    pub fn new(file_path: &str) -> (record: ArticleMetadata)
        ensures
            record@ == MetadataView::blank(file_path@),
    {
        let record = ArticleMetadata {
            pmid: None,
            pmc_id: None,
            title: None,
            abstract_text: None,
            authors: Vec::new(),
            journal: None,
            publication_date: None,
            doi: None,
            full_text: None,
            file_path: String::from_str(file_path),
        };
        assert(record.authors.deep_view() =~= Seq::<Seq<char>>::empty());
        record
    }
}

impl Default for ArticleMetadata {
    fn default() -> (record: ArticleMetadata)
        ensures
            record@ == MetadataView::blank(Seq::empty()),
    {
        let record = ArticleMetadata {
            pmid: None,
            pmc_id: None,
            title: None,
            abstract_text: None,
            authors: Vec::new(),
            journal: None,
            publication_date: None,
            doi: None,
            full_text: None,
            file_path: String::new(),
        };
        assert(record.authors.deep_view() =~= Seq::<Seq<char>>::empty());
        record
    }
}

} // verus!
