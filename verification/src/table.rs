//! The tabular projection: a sequence of records turned into columns, one
//! per field, with one row per record.

use vstd::prelude::*;
use vstd::string::*;

use crate::metadata::{ArticleMetadata, MetadataView};

verus! {

/// Records as columns. Every column has one entry per row; a row that stands
/// for a document without a record is empty in every column.
#[derive(Debug, Clone, PartialEq, Eq)]
pub struct MetadataTable {
    pub pmid: Vec<Option<String>>,
    pub pmc_id: Vec<Option<String>>,
    pub title: Vec<Option<String>>,
    pub abstract_text: Vec<Option<String>>,
    pub journal: Vec<Option<String>>,
    pub full_text: Vec<Option<String>>,
}

/// The column that `field` gives for `rows`.
pub open spec fn column(
    rows: Seq<Option<MetadataView>>,
    field: spec_fn(MetadataView) -> Option<Seq<char>>,
) -> Seq<Option<Seq<char>>> {
    Seq::new(
        rows.len(),
        |i: int|
            match rows[i] {
                Some(record) => field(record),
                None => None,
            },
    )
}

impl MetadataTable {
    /// Whether this is the projection of `rows`.
    pub open spec fn projects(self, rows: Seq<Option<MetadataView>>) -> bool {
        &&& self.pmid.deep_view() == column(rows, |r: MetadataView| r.pmid)
        &&& self.pmc_id.deep_view() == column(rows, |r: MetadataView| r.pmc_id)
        &&& self.title.deep_view() == column(rows, |r: MetadataView| r.title)
        &&& self.abstract_text.deep_view() == column(rows, |r: MetadataView| r.abstract_text)
        &&& self.journal.deep_view() == column(rows, |r: MetadataView| r.journal)
        &&& self.full_text.deep_view() == column(rows, |r: MetadataView| r.full_text)
    }

    /// The number of rows.
    pub fn height(&self) -> (n: usize)
        ensures
            n == self.pmid.len(),
    {
        self.pmid.len()
    }
}

/// A copy of an optional text.
pub fn copy_text(value: &Option<String>) -> (copy: Option<String>)
    ensures
        copy.deep_view() == value.deep_view(),
{
    match value {
        Some(text) => Some(text.clone()),
        None => None,
    }
}

/// Projects `rows` into columns. Row `i` of every column is the field of
/// record `i`, or empty where there is no record.
pub fn project_columns(rows: &Vec<Option<ArticleMetadata>>) -> (table: MetadataTable)
    ensures
        table.projects(rows.deep_view()),
        table.pmid.len() == rows.len(),
        table.pmc_id.len() == rows.len(),
        table.title.len() == rows.len(),
        table.abstract_text.len() == rows.len(),
        table.journal.len() == rows.len(),
        table.full_text.len() == rows.len(),
{
    let mut table = MetadataTable {
        pmid: Vec::new(),
        pmc_id: Vec::new(),
        title: Vec::new(),
        abstract_text: Vec::new(),
        journal: Vec::new(),
        full_text: Vec::new(),
    };
    let ghost views = rows.deep_view();
    let mut i: usize = 0;
    while i < rows.len()
        invariant
            i <= rows.len(),
            views == rows.deep_view(),
            table.pmid.len() == i,
            table.pmc_id.len() == i,
            table.title.len() == i,
            table.abstract_text.len() == i,
            table.journal.len() == i,
            table.full_text.len() == i,
            forall|k: int|
                0 <= k < i ==> (#[trigger] table.pmid@[k]).deep_view() == column(
                    views,
                    |r: MetadataView| r.pmid,
                )[k],
            forall|k: int|
                0 <= k < i ==> (#[trigger] table.pmc_id@[k]).deep_view() == column(
                    views,
                    |r: MetadataView| r.pmc_id,
                )[k],
            forall|k: int|
                0 <= k < i ==> (#[trigger] table.title@[k]).deep_view() == column(
                    views,
                    |r: MetadataView| r.title,
                )[k],
            forall|k: int|
                0 <= k < i ==> (#[trigger] table.abstract_text@[k]).deep_view() == column(
                    views,
                    |r: MetadataView| r.abstract_text,
                )[k],
            forall|k: int|
                0 <= k < i ==> (#[trigger] table.journal@[k]).deep_view() == column(
                    views,
                    |r: MetadataView| r.journal,
                )[k],
            forall|k: int|
                0 <= k < i ==> (#[trigger] table.full_text@[k]).deep_view() == column(
                    views,
                    |r: MetadataView| r.full_text,
                )[k],
        decreases rows.len() - i,
    {
        assert(views[i as int] == rows@[i as int].deep_view());
        match &rows[i] {
            Some(record) => {
                table.pmid.push(copy_text(&record.pmid));
                table.pmc_id.push(copy_text(&record.pmc_id));
                table.title.push(copy_text(&record.title));
                table.abstract_text.push(copy_text(&record.abstract_text));
                table.journal.push(copy_text(&record.journal));
                table.full_text.push(copy_text(&record.full_text));
            },
            None => {
                table.pmid.push(None);
                table.pmc_id.push(None);
                table.title.push(None);
                table.abstract_text.push(None);
                table.journal.push(None);
                table.full_text.push(None);
            },
        }
        i = i + 1;
    }
    assert(table.pmid.deep_view() =~= column(views, |r: MetadataView| r.pmid));
    assert(table.pmc_id.deep_view() =~= column(views, |r: MetadataView| r.pmc_id));
    assert(table.title.deep_view() =~= column(views, |r: MetadataView| r.title));
    assert(table.abstract_text.deep_view() =~= column(
        views,
        |r: MetadataView| r.abstract_text,
    ));
    assert(table.journal.deep_view() =~= column(views, |r: MetadataView| r.journal));
    assert(table.full_text.deep_view() =~= column(views, |r: MetadataView| r.full_text));
    table
}

} // verus!
