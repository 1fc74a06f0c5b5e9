use xml_processor::event::{Attribute, MarkupEvent, Tag};
use xml_processor::extract::{extract_article_metadata, extract_from_events};
use xml_processor::machine::Extractor;
use xml_processor::metadata::ArticleMetadata;

fn extract(xml: &str) -> ArticleMetadata {
    extract_article_metadata(xml, "doc.xml").expect("well-formed document")
}

fn start(name: &str) -> MarkupEvent {
    MarkupEvent::Start { name: name.as_bytes().to_vec(), attributes: vec![] }
}

fn start_with(name: &str, key: &str, value: &str) -> MarkupEvent {
    MarkupEvent::Start {
        name: name.as_bytes().to_vec(),
        attributes: vec![Some(Attribute {
            key: key.as_bytes().to_vec(),
            value: value.as_bytes().to_vec(),
        })],
    }
}

fn end(name: &str) -> MarkupEvent {
    MarkupEvent::End { name: name.as_bytes().to_vec() }
}

fn text(content: &str) -> MarkupEvent {
    MarkupEvent::Text { content: content.as_bytes().to_vec() }
}

fn blank(path: &str) -> ArticleMetadata {
    ArticleMetadata::new(path)
}

#[test]
fn full_document_fills_every_field() {
    let xml = r#"<?xml version="1.0"?>
<article>
  <front>
    <journal-meta><journal-title>Journal of Tests</journal-title></journal-meta>
    <article-meta>
      <article-id pub-id-type="pmid">12345</article-id>
      <article-id pub-id-type="pmc">678</article-id>
      <article-id pub-id-type="doi">10.1000/xyz</article-id>
      <title-group><article-title>A Study of Things</article-title></title-group>
      <contrib-group>
        <contrib contrib-type="author"><name><surname>Smith</surname><given-names>Jane</given-names></name></contrib>
        <contrib contrib-type="author"><name><surname>Doe</surname><given-names>John</given-names></name></contrib>
      </contrib-group>
      <pub-date><day>15</day><month>March</month><year>2020</year></pub-date>
      <abstract><p>We study things.</p></abstract>
    </article-meta>
  </front>
  <body><sec><title>Intro</title><p>First paragraph.</p><p>Second paragraph.</p></sec></body>
  <back><ref-list><ref><article-title>Cited Work</article-title></ref></ref-list></back>
</article>"#;
    let record = extract(xml);
    assert_eq!(record.pmid.as_deref(), Some("12345"));
    assert_eq!(record.pmc_id.as_deref(), Some("PMC678"));
    assert_eq!(record.doi.as_deref(), Some("10.1000/xyz"));
    assert_eq!(record.title.as_deref(), Some("A Study of Things"));
    assert_eq!(record.abstract_text.as_deref(), Some("We study things."));
    assert_eq!(record.authors, vec!["Smith, Jane".to_string(), "Doe, John".to_string()]);
    assert_eq!(record.journal.as_deref(), Some("Journal of Tests"));
    assert_eq!(record.publication_date.as_deref(), Some("2020-03-15"));
    assert_eq!(record.full_text.as_deref(), Some("Intro First paragraph. Second paragraph."));
    assert_eq!(record.file_path, "doc.xml");
}

#[test]
fn document_without_header_has_no_header_fields_but_keeps_body_text() {
    let xml = "<article><article-title>Loose</article-title>\
               <article-id pub-id-type=\"pmid\">1</article-id>\
               <contrib contrib-type=\"author\"><surname>Smith</surname></contrib>\
               <journal-title>J</journal-title><abstract>Abs</abstract>\
               <pub-date><year>2020</year></pub-date>\
               <body><p>Only body.</p></body></article>";
    let record = extract(xml);
    let mut expected = blank("doc.xml");
    expected.full_text = Some("Only body.".to_string());
    assert_eq!(record, expected);
}

#[test]
fn empty_document_gives_blank_record() {
    assert_eq!(extract(""), blank("doc.xml"));
    assert_eq!(extract("<article/>"), blank("doc.xml"));
}

#[test]
fn first_title_in_header_wins() {
    let xml = "<front><article-title>A</article-title><article-title>B</article-title></front>";
    assert_eq!(extract(xml).title.as_deref(), Some("A"));
}

#[test]
fn title_in_trailing_matter_is_never_considered() {
    let xml = "<article><front><article-title>A</article-title></front>\
               <back><article-title>C</article-title></back></article>";
    assert_eq!(extract(xml).title.as_deref(), Some("A"));
    let only_back = "<article><back><article-title>C</article-title></back></article>";
    assert_eq!(extract(only_back).title, None);
}

#[test]
fn title_after_header_closed_is_ignored() {
    let xml = "<article><front></front><body><article-title>T</article-title></body></article>";
    let record = extract(xml);
    assert_eq!(record.title, None);
    assert_eq!(record.full_text.as_deref(), Some("T"));
}

#[test]
fn empty_first_title_leaves_latch_open() {
    let xml = "<front><article-title>   </article-title><article-title>B</article-title></front>";
    assert_eq!(extract(xml).title.as_deref(), Some("B"));
}

#[test]
fn title_text_is_trimmed_and_nested_text_is_appended() {
    let xml = "<front><article-title>  Effects of <i>x</i> on y  </article-title></front>";
    assert_eq!(extract(xml).title.as_deref(), Some("Effects ofxon y"));
}

#[test]
fn abstract_and_journal_are_overwritten_by_later_occurrences() {
    let xml = "<front><abstract>One</abstract><abstract>Two</abstract>\
               <journal-title>J1</journal-title><journal-title>J2</journal-title></front>";
    let record = extract(xml);
    assert_eq!(record.abstract_text.as_deref(), Some("Two"));
    assert_eq!(record.journal.as_deref(), Some("J2"));
}

#[test]
fn empty_abstract_does_not_replace_value() {
    let xml = "<front><abstract>One</abstract><abstract></abstract></front>";
    assert_eq!(extract(xml).abstract_text.as_deref(), Some("One"));
    let none = "<front><abstract> </abstract><journal-title></journal-title></front>";
    let record = extract(none);
    assert_eq!(record.abstract_text, None);
    assert_eq!(record.journal, None);
}

#[test]
fn author_with_both_names() {
    let xml = "<front><contrib contrib-type=\"author\"><surname>Smith</surname>\
               <given-names>Jane</given-names></contrib></front>";
    assert_eq!(extract(xml).authors, vec!["Smith, Jane".to_string()]);
}

#[test]
fn author_with_surname_only() {
    let xml = "<front><contrib contrib-type=\"author\"><surname>Smith</surname></contrib></front>";
    assert_eq!(extract(xml).authors, vec!["Smith".to_string()]);
}

#[test]
fn author_with_given_names_only() {
    let xml =
        "<front><contrib contrib-type=\"author\"><given-names>Jane</given-names></contrib></front>";
    assert_eq!(extract(xml).authors, vec!["Jane".to_string()]);
}

#[test]
fn contributor_without_author_role_adds_no_entry() {
    let xml = "<front><contrib><surname>Smith</surname><given-names>Jane</given-names></contrib>\
               <contrib contrib-type=\"editor\"><surname>Ed</surname></contrib></front>";
    assert!(extract(xml).authors.is_empty());
}

#[test]
fn author_without_names_adds_no_entry() {
    let xml = "<front><contrib contrib-type=\"author\"><email>a@b</email></contrib></front>";
    assert!(extract(xml).authors.is_empty());
}

#[test]
fn authors_keep_document_order() {
    let xml = "<front>\
               <contrib contrib-type=\"author\"><surname>B</surname></contrib>\
               <contrib contrib-type=\"editor\"><surname>X</surname></contrib>\
               <contrib contrib-type=\"author\"><surname>A</surname><given-names>Z</given-names></contrib>\
               </front>";
    assert_eq!(extract(xml).authors, vec!["B".to_string(), "A, Z".to_string()]);
}

#[test]
fn author_role_among_other_attributes() {
    let xml = "<front><contrib id=\"c1\" contrib-type=\"author\" corresp=\"yes\">\
               <surname>Smith</surname></contrib></front>";
    assert_eq!(extract(xml).authors, vec!["Smith".to_string()]);
}

#[test]
fn pmc_identifier_gets_prefix() {
    let xml = "<front><article-id pub-id-type=\"pmc\">1234567</article-id></front>";
    assert_eq!(extract(xml).pmc_id.as_deref(), Some("PMC1234567"));
}

#[test]
fn pmc_identifier_with_prefix_is_unchanged() {
    let xml = "<front><article-id pub-id-type=\"pmc\">PMC1234567</article-id></front>";
    assert_eq!(extract(xml).pmc_id.as_deref(), Some("PMC1234567"));
}

#[test]
fn identifiers_are_routed_by_type() {
    let xml = "<front><article-id pub-id-type=\"doi\">10.1/a</article-id>\
               <article-id pub-id-type=\"pmid\"> 42 </article-id>\
               <article-id pub-id-type=\"publisher-id\">zzz</article-id></front>";
    let record = extract(xml);
    assert_eq!(record.doi.as_deref(), Some("10.1/a"));
    assert_eq!(record.pmid.as_deref(), Some("42"));
    assert_eq!(record.pmc_id, None);
}

#[test]
fn repeated_identifier_of_same_type_is_ignored() {
    let xml = "<front><article-id pub-id-type=\"pmid\">1</article-id>\
               <article-id pub-id-type=\"pmid\">2</article-id>\
               <article-id pub-id-type=\"pmc\">10</article-id>\
               <article-id pub-id-type=\"pmc\">PMC20</article-id>\
               <article-id pub-id-type=\"doi\">10.1/first</article-id>\
               <article-id pub-id-type=\"doi\">10.1/second</article-id></front>";
    let record = extract(xml);
    assert_eq!(record.pmid.as_deref(), Some("1"));
    assert_eq!(record.pmc_id.as_deref(), Some("PMC10"));
    assert_eq!(record.doi.as_deref(), Some("10.1/first"));
}

#[test]
fn identifier_without_type_is_ignored() {
    let xml = "<front><article-id>77</article-id></front>";
    let record = extract(xml);
    assert_eq!(record.pmid, None);
    assert_eq!(record.pmc_id, None);
    assert_eq!(record.doi, None);
}

#[test]
fn publisher_id_after_untyped_flags_is_not_routed() {
    let xml = "<front><article-id pub-id-type=\"pmid\">1</article-id>\
               <article-id pub-id-type=\"other\">2</article-id></front>";
    assert_eq!(extract(xml).pmid.as_deref(), Some("1"));
}

#[test]
fn empty_identifier_keeps_type_pending_for_the_next_element() {
    let xml = "<front><article-id pub-id-type=\"pmid\"></article-id>\
               <article-id pub-id-type=\"other\">99</article-id></front>";
    assert_eq!(extract(xml).pmid.as_deref(), Some("99"));
}

#[test]
fn date_with_month_name_and_day() {
    let xml = "<front><pub-date><year>2020</year><month>March</month><day>15</day></pub-date></front>";
    assert_eq!(extract(xml).publication_date.as_deref(), Some("2020-03-15"));
}

#[test]
fn date_with_year_only() {
    let xml = "<front><pub-date><year>2020</year></pub-date></front>";
    assert_eq!(extract(xml).publication_date.as_deref(), Some("2020"));
}

#[test]
fn date_without_year_is_not_committed() {
    let xml = "<front><pub-date><month>March</month><day>3</day></pub-date></front>";
    assert_eq!(extract(xml).publication_date, None);
}

#[test]
fn date_with_day_but_no_month_drops_the_day() {
    let xml = "<front><pub-date><year>2020</year><day>15</day></pub-date></front>";
    assert_eq!(extract(xml).publication_date.as_deref(), Some("2020"));
}

#[test]
fn date_with_numeric_month_passes_through() {
    let xml = "<front><pub-date><year>2021</year><month>07</month></pub-date></front>";
    assert_eq!(extract(xml).publication_date.as_deref(), Some("2021-07"));
    let bare = "<front><pub-date><year>2021</year><month>7</month><day>4</day></pub-date></front>";
    assert_eq!(extract(bare).publication_date.as_deref(), Some("2021-7-4"));
}

#[test]
fn later_date_overwrites_and_yearless_date_does_not() {
    let xml = "<front><pub-date><year>2019</year></pub-date>\
               <pub-date><year>2020</year><month>dec</month></pub-date>\
               <pub-date><month>jan</month></pub-date></front>";
    assert_eq!(extract(xml).publication_date.as_deref(), Some("2020-12"));
}

#[test]
fn year_outside_date_container_is_ignored() {
    let xml = "<front><year>1999</year><pub-date><year>2020</year></pub-date></front>";
    assert_eq!(extract(xml).publication_date.as_deref(), Some("2020"));
}

#[test]
fn body_text_is_joined_by_single_spaces() {
    let xml = "<article><body><p>Hello <b>bold</b> world</p><p>Again</p></body></article>";
    assert_eq!(extract(xml).full_text.as_deref(), Some("Hello bold world Again"));
}

#[test]
fn body_text_is_independent_of_header() {
    let xml = "<article><front><body><p>in both</p></body></front></article>";
    let record = extract(xml);
    assert_eq!(record.full_text.as_deref(), Some("in both"));
    let nested = "<front><abstract><body>shared</body></abstract></front>";
    let record = extract(nested);
    assert_eq!(record.abstract_text.as_deref(), Some("shared"));
    assert_eq!(record.full_text.as_deref(), Some("shared"));
}

#[test]
fn document_without_body_has_no_full_text() {
    let xml = "<article><front><article-title>T</article-title></front></article>";
    assert_eq!(extract(xml).full_text, None);
}

#[test]
fn text_outside_body_is_not_body_text() {
    let xml = "<article><p>before</p><body><p>inside</p></body><p>after</p></article>";
    assert_eq!(extract(xml).full_text.as_deref(), Some("inside"));
}

#[test]
fn entity_references_are_kept_as_written() {
    let xml = "<front><article-title>Salt &amp; pepper</article-title></front>";
    assert_eq!(extract(xml).title.as_deref(), Some("Salt &amp; pepper"));
}

#[test]
fn non_ascii_text_is_kept() {
    let xml = "<front><contrib contrib-type=\"author\"><surname>Müller</surname>\
               <given-names>Zoë</given-names></contrib></front><body>naïve café</body>";
    let record = extract(xml);
    assert_eq!(record.authors, vec!["Müller, Zoë".to_string()]);
    assert_eq!(record.full_text.as_deref(), Some("naïve café"));
}

#[test]
fn self_closing_elements_are_ignored() {
    let xml = "<article><front/><article-title>T</article-title><body/><p>x</p></article>";
    assert_eq!(extract(xml), blank("doc.xml"));
}

#[test]
fn mismatched_end_tag_fails_without_a_record() {
    let error = extract_article_metadata("<a><b></a>", "bad.xml").unwrap_err();
    assert!(error.message.starts_with("Error parsing XML: "));
    assert!(error.message.len() > "Error parsing XML: ".len());
}

#[test]
fn failure_after_committed_fields_yields_no_partial_record() {
    let xml = "<front><article-title>T</article-title></front></wrong>";
    assert!(extract_article_metadata(xml, "bad.xml").is_err());
}

#[test]
fn unclosed_tag_fails() {
    assert!(extract_article_metadata("<front><article-title", "bad.xml").is_err());
}

#[test]
fn source_path_is_always_present() {
    let record = extract_article_metadata("<a/>", "some/dir/file.nxml").unwrap();
    assert_eq!(record.file_path, "some/dir/file.nxml");
    assert_eq!(ArticleMetadata::default().file_path, "");
    assert_eq!(ArticleMetadata::default(), blank(""));
}

#[test]
fn events_at_hand_give_the_same_record_as_the_text() {
    let events = vec![
        start("article"),
        start("front"),
        start("article-title"),
        text("A"),
        end("article-title"),
        start_with("article-id", "pub-id-type", "pmc"),
        text("1234567"),
        end("article-id"),
        start_with("contrib", "contrib-type", "author"),
        start("surname"),
        text("Smith"),
        end("surname"),
        start("given-names"),
        text("Jane"),
        end("given-names"),
        end("contrib"),
        end("front"),
        start("body"),
        text("one"),
        MarkupEvent::Other,
        text("two"),
        end("body"),
        end("article"),
        MarkupEvent::Eof,
    ];
    let from_events = extract_from_events(&events, "doc.xml");
    let xml = "<article><front><article-title>A</article-title>\
               <article-id pub-id-type=\"pmc\">1234567</article-id>\
               <contrib contrib-type=\"author\"><surname>Smith</surname>\
               <given-names>Jane</given-names></contrib></front>\
               <body>one<!-- c -->two</body></article>";
    assert_eq!(from_events, extract(xml));
    assert_eq!(from_events.title.as_deref(), Some("A"));
    assert_eq!(from_events.pmc_id.as_deref(), Some("PMC1234567"));
    assert_eq!(from_events.authors, vec!["Smith, Jane".to_string()]);
    assert_eq!(from_events.full_text.as_deref(), Some("one two"));
}

#[test]
fn unreadable_attribute_is_skipped() {
    let events = vec![
        start("front"),
        MarkupEvent::Start {
            name: b"contrib".to_vec(),
            attributes: vec![
                None,
                Some(Attribute { key: b"contrib-type".to_vec(), value: b"author".to_vec() }),
            ],
        },
        start("surname"),
        text("Smith"),
        end("surname"),
        end("contrib"),
    ];
    assert_eq!(extract_from_events(&events, "p").authors, vec!["Smith".to_string()]);
    let xml = "<front><contrib x=1 contrib-type=\"author\"><surname>Smith</surname></contrib></front>";
    assert_eq!(extract(xml).authors, vec!["Smith".to_string()]);
}

#[test]
fn text_that_is_not_utf8_counts_as_empty() {
    let events = vec![
        start("front"),
        start("article-title"),
        MarkupEvent::Text { content: vec![0xff, 0xfe] },
        text("T"),
        end("article-title"),
        end("front"),
        start("body"),
        MarkupEvent::Text { content: vec![0xc3] },
        text("x"),
        end("body"),
    ];
    let record = extract_from_events(&events, "p");
    assert_eq!(record.title.as_deref(), Some("T"));
    assert_eq!(record.full_text.as_deref(), Some(" x"));
}

#[test]
fn name_parts_outside_a_collecting_contributor_are_ignored() {
    let events = vec![
        start("front"),
        start("surname"),
        text("Ghost"),
        end("surname"),
        start_with("contrib", "contrib-type", "author"),
        start("given-names"),
        text("Real"),
        end("given-names"),
        end("contrib"),
        end("front"),
    ];
    assert_eq!(extract_from_events(&events, "p").authors, vec!["Real".to_string()]);
}

#[test]
fn machine_can_be_fed_step_by_step() {
    let mut machine = Extractor::new("stream.xml");
    machine.feed(&start("front"));
    machine.feed(&start("journal-title"));
    machine.feed(&text("Nature"));
    machine.feed(&end("journal-title"));
    machine.feed(&MarkupEvent::Eof);
    machine.feed(&start("body"));
    machine.feed(&text("b"));
    let record = machine.finish();
    assert_eq!(record.journal.as_deref(), Some("Nature"));
    assert_eq!(record.full_text.as_deref(), Some("b"));
    assert_eq!(record.file_path, "stream.xml");
}

#[test]
fn header_closed_before_title_end_leaves_title_uncommitted() {
    let events = vec![
        start("front"),
        start("article-title"),
        text("T"),
        end("front"),
        end("article-title"),
    ];
    assert_eq!(extract_from_events(&events, "p").title, None);
}

#[test]
fn both_trailing_and_header_boundaries_switch_the_header_off() {
    let events = vec![
        start("front"),
        start("back"),
        start("article-title"),
        text("T"),
        end("article-title"),
        end("back"),
        start("abstract"),
        text("A"),
        end("abstract"),
    ];
    let record = extract_from_events(&events, "p");
    assert_eq!(record.title, None);
    assert_eq!(record.abstract_text, None);
}

#[test]
fn machine_can_be_driven_by_tags() {
    let mut machine = Extractor::new("tags.xml");
    machine.open(Tag::Front, &vec![]);
    machine.open(Tag::PubDate, &vec![]);
    machine.open(Tag::Year, &vec![]);
    machine.characters(b"1999");
    machine.close(Tag::Year);
    machine.open(Tag::Month, &vec![]);
    machine.characters(b"Oct");
    machine.close(Tag::Month);
    machine.close(Tag::PubDate);
    machine.close(Tag::Front);
    machine.start(b"body", &vec![]);
    machine.characters(b"text");
    machine.end(b"body");
    machine.characters(b"outside");
    let record = machine.finish();
    assert_eq!(record.publication_date.as_deref(), Some("1999-10"));
    assert_eq!(record.full_text.as_deref(), Some("text"));
}
