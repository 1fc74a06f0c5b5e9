use xml_processor::batch::{
    count_successes, extract_batch, extract_document, tally, Document, DocumentFate,
};
use xml_processor::metadata::ArticleMetadata;
use xml_processor::table::{copy_text, project_columns};

fn readable(path: &str, content: &str) -> Document {
    Document { path: path.to_string(), content: Some(content.to_string()) }
}

#[test]
fn one_unreadable_document_in_three_leaves_two_successes() {
    let documents = vec![
        readable("a.xml", "<front><article-title>A</article-title></front>"),
        Document { path: "missing.xml".to_string(), content: None },
        readable("c.xml", "<front><article-title>C</article-title></front>"),
    ];
    let results = extract_batch(&documents);
    assert_eq!(results.len(), 3);
    assert_eq!(count_successes(&results), 2);
    assert!(results[1].is_none());
    assert_eq!(results[0].as_ref().unwrap().title.as_deref(), Some("A"));
    assert_eq!(results[0].as_ref().unwrap().file_path, "a.xml");
    assert_eq!(results[2].as_ref().unwrap().title.as_deref(), Some("C"));
    assert_eq!(results[2].as_ref().unwrap().file_path, "c.xml");
}

#[test]
fn malformed_document_does_not_stop_the_batch() {
    let documents = vec![
        readable("bad.xml", "<a><b></a>"),
        readable("good.xml", "<body>text</body>"),
    ];
    let results = extract_batch(&documents);
    assert!(results[0].is_none());
    assert_eq!(results[1].as_ref().unwrap().full_text.as_deref(), Some("text"));
    assert_eq!(count_successes(&results), 1);
}

#[test]
fn empty_batch() {
    let results = extract_batch(&vec![]);
    assert!(results.is_empty());
    assert_eq!(count_successes(&results), 0);
}

#[test]
fn single_document_outcomes() {
    assert!(extract_document(&Document { path: "x".to_string(), content: None }).is_none());
    assert!(extract_document(&readable("x", "</x>")).is_none());
    assert_eq!(extract_document(&readable("x", "")), Some(ArticleMetadata::new("x")));
}

#[test]
fn projection_keeps_rows_aligned() {
    let documents = vec![
        readable(
            "a.xml",
            "<front><article-id pub-id-type=\"pmid\">1</article-id>\
             <article-id pub-id-type=\"pmc\">2</article-id>\
             <article-title>T</article-title><abstract>A</abstract>\
             <journal-title>J</journal-title></front><body>B</body>",
        ),
        Document { path: "missing.xml".to_string(), content: None },
        readable("c.xml", "<front><article-title>Only title</article-title></front>"),
    ];
    let table = project_columns(&extract_batch(&documents));
    assert_eq!(table.height(), 3);
    assert_eq!(table.pmid, vec![Some("1".to_string()), None, None]);
    assert_eq!(table.pmc_id, vec![Some("PMC2".to_string()), None, None]);
    assert_eq!(table.title, vec![Some("T".to_string()), None, Some("Only title".to_string())]);
    assert_eq!(table.abstract_text, vec![Some("A".to_string()), None, None]);
    assert_eq!(table.journal, vec![Some("J".to_string()), None, None]);
    assert_eq!(table.full_text, vec![Some("B".to_string()), None, None]);
}

#[test]
fn projection_of_nothing_is_empty() {
    let table = project_columns(&vec![]);
    assert_eq!(table.height(), 0);
    assert!(table.title.is_empty());
    assert!(table.full_text.is_empty());
}

#[test]
fn copying_optional_text() {
    assert_eq!(copy_text(&Some("x".to_string())), Some("x".to_string()));
    assert_eq!(copy_text(&None), None);
}

#[test]
fn tally_counts_written_documents_only() {
    let fates = vec![
        DocumentFate::Written,
        DocumentFate::Unreadable,
        DocumentFate::Written,
    ];
    assert_eq!(tally(&fates), 2);
    let fates = vec![
        DocumentFate::Malformed,
        DocumentFate::Unserializable,
        DocumentFate::Unwritten,
        DocumentFate::Unreadable,
    ];
    assert_eq!(tally(&fates), 0);
    assert_eq!(tally(&vec![]), 0);
}
