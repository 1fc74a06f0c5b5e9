use serde_json::Value;
use xml_processor::extract::extract_article_metadata;
use xml_processor::metadata::ArticleMetadata;

fn optional(value: &Option<String>) -> Value {
    match value {
        Some(text) => Value::String(text.clone()),
        None => Value::Null,
    }
}

fn to_json_line(record: &ArticleMetadata) -> String {
    let mut object = serde_json::Map::new();
    object.insert("pmid".to_string(), optional(&record.pmid));
    object.insert("pmc_id".to_string(), optional(&record.pmc_id));
    object.insert("title".to_string(), optional(&record.title));
    object.insert("abstract_text".to_string(), optional(&record.abstract_text));
    object.insert(
        "authors".to_string(),
        Value::Array(record.authors.iter().map(|a| Value::String(a.clone())).collect()),
    );
    object.insert("journal".to_string(), optional(&record.journal));
    object.insert("publication_date".to_string(), optional(&record.publication_date));
    object.insert("doi".to_string(), optional(&record.doi));
    object.insert("full_text".to_string(), optional(&record.full_text));
    object.insert("file_path".to_string(), Value::String(record.file_path.clone()));
    serde_json::to_string(&Value::Object(object)).expect("a JSON object of strings")
}

fn text_field(object: &serde_json::Map<String, Value>, name: &str) -> Option<String> {
    object.get(name).and_then(|v| v.as_str()).map(|s| s.to_string())
}

fn from_json_line(line: &str) -> ArticleMetadata {
    let value: Value = serde_json::from_str(line).expect("a JSON line");
    let object = value.as_object().expect("a JSON object");
    ArticleMetadata {
        pmid: text_field(object, "pmid"),
        pmc_id: text_field(object, "pmc_id"),
        title: text_field(object, "title"),
        abstract_text: text_field(object, "abstract_text"),
        authors: object["authors"]
            .as_array()
            .expect("an array of names")
            .iter()
            .map(|v| v.as_str().expect("a name").to_string())
            .collect(),
        journal: text_field(object, "journal"),
        publication_date: text_field(object, "publication_date"),
        doi: text_field(object, "doi"),
        full_text: text_field(object, "full_text"),
        file_path: text_field(object, "file_path").expect("a path"),
    }
}

#[test]
fn record_with_only_source_path_round_trips() {
    let record = ArticleMetadata::new("some/path with spaces/\"quoted\".xml");
    let line = to_json_line(&record);
    assert!(!line.contains('\n'));
    assert_eq!(from_json_line(&line), record);
}

#[test]
fn extracted_record_round_trips() {
    let xml = "<front><article-title>Tab\there</article-title>\
               <contrib contrib-type=\"author\"><surname>Müller</surname></contrib></front>\
               <body>line one</body>";
    let record = extract_article_metadata(xml, "doc.xml").unwrap();
    let line = to_json_line(&record);
    assert!(!line.contains('\n'));
    assert_eq!(from_json_line(&line), record);
}
