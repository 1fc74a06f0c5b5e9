//! Content search: every match of every pattern in the raw text of every
//! document, each with its context window. The matching itself is the
//! `regex` crate's and is not proved; what is made of the matches is.

use regex::Regex;
use vstd::prelude::*;
use vstd::string::*;

use crate::batch::{Document, DocumentView};
use crate::context::{context_of, context_window, is_span};

verus! {

/// `regex::Regex`, carried through as an opaque value.
#[verifier::external_type_specification]
#[verifier::external_body]
pub struct ExRegex(Regex);

/// `regex::Error`, carried through as an opaque value.
#[verifier::external_type_specification]
#[verifier::external_body]
pub struct ExRegexError(regex::Error);

/// What `Regex::new` makes of a pattern: the regex, or nothing where the
/// pattern is not accepted.
pub uninterp spec fn compiled(pattern: Seq<char>) -> Option<Regex>;

/// The matches that `Regex::find_iter` finds in a haystack, in the order in
/// which it finds them, each as the byte offsets of its start and its end.
pub uninterp spec fn match_spans(regex: Regex, haystack: Seq<char>) -> Seq<(usize, usize)>;

/// Calls `Regex::new`. Trusted: whether the pattern is accepted, and the
/// regex that comes of it, depend on the pattern alone.
#[verifier::external_body]
pub(crate) fn compile(pattern: &str) -> (result: Result<Regex, regex::Error>)
    ensures
        match result {
            Ok(regex) => compiled(pattern@) == Some(regex),
            Err(_) => compiled(pattern@) is None,
        },
{
    Regex::new(pattern)
}

/// Calls `Regex::find_iter` and copies out each match's offsets. Trusted:
/// the matches depend on the regex and the haystack alone, and each lies
/// within the haystack, start before end, both between two characters, as
/// the crate documents of `Match`.
#[verifier::external_body]
pub(crate) fn find_spans(regex: &Regex, haystack: &str) -> (spans: Vec<(usize, usize)>)
    ensures
        spans@ == match_spans(*regex, haystack@),
        forall|i: int|
            0 <= i < spans.len() ==> is_span(
                haystack@,
                (#[trigger] spans@[i]).0 as int,
                spans@[i].1 as int,
            ),
{
    regex.find_iter(haystack).map(|m| (m.start(), m.end())).collect()
}

/// Formats a `regex::Error` through its `Display`. Nothing is claimed of the
/// text.
#[verifier::external_body]
pub(crate) fn pattern_error_text(error: &regex::Error) -> (text: String) {
    format!("{}", error)
}

/// One match: the document, the pattern as the caller gave it, and the
/// context window.
#[derive(Debug, Clone, PartialEq, Eq)]
pub struct SearchRow {
    pub file_path: String,
    pub matched_pattern: String,
    pub match_context: String,
}

/// A row over character sequences.
pub struct SearchRowView {
    pub file_path: Seq<char>,
    pub matched_pattern: Seq<char>,
    pub match_context: Seq<char>,
}

impl DeepView for SearchRow {
    type V = SearchRowView;

    open spec fn deep_view(&self) -> SearchRowView {
        SearchRowView {
            file_path: self.file_path@,
            matched_pattern: self.matched_pattern@,
            match_context: self.match_context@,
        }
    }
}

impl View for SearchRow {
    type V = SearchRowView;

    open spec fn view(&self) -> SearchRowView {
        self.deep_view()
    }
}

/// A pattern was not accepted.
#[derive(Debug, Clone, PartialEq, Eq)]
pub struct PatternError {
    /// The pattern as the caller gave it.
    pub pattern: String,
    /// `Invalid regex pattern '`, the pattern, `': ` and the cause.
    pub message: String,
}

/// The pattern that is compiled for a caller's pattern: the pattern itself
/// where case matters, else the pattern behind the flag that ignores case.
pub open spec fn effective(pattern: Seq<char>, case_sensitive: bool) -> Seq<char> {
    if case_sensitive {
        pattern
    } else {
        "(?i)"@ + pattern
    }
}

/// Whether a caller's pattern is accepted.
pub open spec fn accepted(pattern: Seq<char>, case_sensitive: bool) -> bool {
    compiled(effective(pattern, case_sensitive)) is Some
}

/// The regexes of the patterns, one per pattern and in their order.
pub open spec fn regexes_of(patterns: Seq<Seq<char>>, case_sensitive: bool) -> Seq<Regex> {
    Seq::new(patterns.len(), |i: int| compiled(effective(patterns[i], case_sensitive))->Some_0)
}

/// One row per span, in the spans' order.
pub open spec fn rows_of_spans(
    path: Seq<char>,
    pattern: Seq<char>,
    text: Seq<char>,
    spans: Seq<(usize, usize)>,
) -> Seq<SearchRowView> {
    Seq::new(
        spans.len(),
        |i: int|
            SearchRowView {
                file_path: path,
                matched_pattern: pattern,
                match_context: context_of(text, spans[i].0 as int, spans[i].1 as int),
            },
    )
}

/// The rows of one document: pattern by pattern, and for each pattern match
/// by match.
pub open spec fn rows_of_text(
    path: Seq<char>,
    text: Seq<char>,
    patterns: Seq<Seq<char>>,
    regexes: Seq<Regex>,
) -> Seq<SearchRowView>
    decreases patterns.len(),
{
    if patterns.len() == 0 {
        Seq::empty()
    } else {
        rows_of_text(path, text, patterns.drop_last(), regexes.drop_last()) + rows_of_spans(
            path,
            patterns.last(),
            text,
            match_spans(regexes.last(), text),
        )
    }
}

/// The rows of a set of documents, document by document; a document that
/// could not be read has none.
pub open spec fn rows_of_documents(
    documents: Seq<DocumentView>,
    patterns: Seq<Seq<char>>,
    regexes: Seq<Regex>,
) -> Seq<SearchRowView>
    decreases documents.len(),
{
    if documents.len() == 0 {
        Seq::empty()
    } else {
        let before = rows_of_documents(documents.drop_last(), patterns, regexes);
        match documents.last().content {
            Some(text) => before + rows_of_text(documents.last().path, text, patterns, regexes),
            None => before,
        }
    }
}

/// The pattern that is handed to the compiler.
pub fn effective_pattern(pattern: &str, case_sensitive: bool) -> (out: String)
    ensures
        out@ == effective(pattern@, case_sensitive),
{
    if case_sensitive {
        String::from_str(pattern)
    } else {
        String::from_str("(?i)").concat(pattern)
    }
}

/// Compiles every pattern, in order, and stops at the first that is not
/// accepted.
pub fn compile_patterns(patterns: &Vec<String>, case_sensitive: bool) -> (result: Result<
    Vec<Regex>,
    PatternError,
>)
    ensures
        result is Ok <==> forall|i: int|
            0 <= i < patterns.len() ==> accepted(#[trigger] patterns@[i]@, case_sensitive),
        result matches Ok(regexes) ==> regexes@ == regexes_of(
            patterns.deep_view(),
            case_sensitive,
        ),
        result matches Err(error) ==> exists|i: int|
            {
                &&& 0 <= i < patterns.len()
                &&& !accepted(#[trigger] patterns@[i]@, case_sensitive)
                &&& forall|k: int| 0 <= k < i ==> accepted(#[trigger] patterns@[k]@, case_sensitive)
                &&& error.pattern@ == patterns@[i]@
                &&& ("Invalid regex pattern '"@ + patterns@[i]@ + "': "@).is_prefix_of(
                    error.message@,
                )
            },
{
    let mut regexes: Vec<Regex> = Vec::new();
    let mut i: usize = 0;
    while i < patterns.len()
        invariant
            i <= patterns.len(),
            regexes.len() == i,
            forall|k: int| 0 <= k < i ==> accepted(#[trigger] patterns@[k]@, case_sensitive),
            forall|k: int|
                0 <= k < i ==> compiled(effective(patterns@[k]@, case_sensitive)) == Some(
                    #[trigger] regexes@[k],
                ),
        decreases patterns.len() - i,
    {
        let source = effective_pattern(patterns[i].as_str(), case_sensitive);
        match compile(source.as_str()) {
            Ok(regex) => {
                regexes.push(regex);
            },
            Err(error) => {
                let head = String::from_str("Invalid regex pattern '").concat(
                    patterns[i].as_str(),
                ).concat("': ");
                let ghost prefix = head@;
                let detail = pattern_error_text(&error);
                let message = head.concat(detail.as_str());
                assert(message@.subrange(0, prefix.len() as int) =~= prefix);
                assert(!accepted(patterns@[i as int]@, case_sensitive));
                return Err(PatternError { pattern: patterns[i].clone(), message });
            },
        }
        i = i + 1;
    }
    assert(regexes@ =~= regexes_of(patterns.deep_view(), case_sensitive));
    Ok(regexes)
}

/// Turns the spans of one pattern in one document into rows and appends
/// them to `rows`.
pub fn collect_rows(
    path: &str,
    pattern: &str,
    content: &str,
    spans: &Vec<(usize, usize)>,
    rows: &mut Vec<SearchRow>,
)
    requires
        forall|i: int|
            0 <= i < spans.len() ==> is_span(
                content@,
                (#[trigger] spans@[i]).0 as int,
                spans@[i].1 as int,
            ),
    ensures
        final(rows).deep_view() == old(rows).deep_view() + rows_of_spans(
            path@,
            pattern@,
            content@,
            spans@,
        ),
{
    let ghost before = rows.deep_view();
    let ghost wanted = rows_of_spans(path@, pattern@, content@, spans@);
    let mut i: usize = 0;
    while i < spans.len()
        invariant
            i <= spans.len(),
            wanted == rows_of_spans(path@, pattern@, content@, spans@),
            forall|k: int|
                0 <= k < spans.len() ==> is_span(
                    content@,
                    (#[trigger] spans@[k]).0 as int,
                    spans@[k].1 as int,
                ),
            rows.deep_view() =~= before + wanted.take(i as int),
        decreases spans.len() - i,
    {
        let (start, end) = spans[i];
        assert(is_span(content@, spans@[i as int].0 as int, spans@[i as int].1 as int));
        let row = SearchRow {
            file_path: String::from_str(path),
            matched_pattern: String::from_str(pattern),
            match_context: context_window(content, start, end),
        };
        let ghost held = rows.deep_view();
        assert(row.deep_view() == wanted[i as int]);
        rows.push(row);
        assert(rows.deep_view() =~= held.push(wanted[i as int]));
        assert(wanted.take(i + 1) =~= wanted.take(i as int).push(wanted[i as int]));
        i = i + 1;
    }
    assert(wanted.take(spans.len() as int) =~= wanted);
}

/// Searches one document for every pattern and appends the rows to `rows`.
pub fn search_text(
    path: &str,
    content: &str,
    patterns: &Vec<String>,
    regexes: &Vec<Regex>,
    rows: &mut Vec<SearchRow>,
)
    requires
        patterns.len() == regexes.len(),
    ensures
        final(rows).deep_view() == old(rows).deep_view() + rows_of_text(
            path@,
            content@,
            patterns.deep_view(),
            regexes@,
        ),
{
    let ghost before = rows.deep_view();
    let mut i: usize = 0;
    assert(patterns.deep_view().take(0) =~= Seq::<Seq<char>>::empty());
    assert(before + Seq::<SearchRowView>::empty() =~= before);
    while i < patterns.len()
        invariant
            i <= patterns.len(),
            patterns.len() == regexes.len(),
            rows.deep_view() == before + rows_of_text(
                path@,
                content@,
                patterns.deep_view().take(i as int),
                regexes@.take(i as int),
            ),
        decreases patterns.len() - i,
    {
        let ghost done = rows_of_text(
            path@,
            content@,
            patterns.deep_view().take(i as int),
            regexes@.take(i as int),
        );
        let spans = find_spans(&regexes[i], content);
        collect_rows(path, patterns[i].as_str(), content, &spans, rows);
        proof {
            let next = rows_of_spans(path@, patterns@[i as int]@, content@, spans@);
            assert(patterns.deep_view().take(i + 1).drop_last() =~= patterns.deep_view().take(
                i as int,
            ));
            assert(regexes@.take(i + 1).drop_last() =~= regexes@.take(i as int));
            assert(patterns.deep_view().take(i + 1).last() == patterns@[i as int]@);
            assert(regexes@.take(i + 1).last() == regexes@[i as int]);
            assert((before + done) + next =~= before + (done + next));
        }
        i = i + 1;
    }
    assert(patterns.deep_view().take(patterns.len() as int) =~= patterns.deep_view());
    assert(regexes@.take(regexes.len() as int) =~= regexes@);
}

/// Searches every document that could be read with patterns that are
/// already compiled, `regexes[i]` being the regex of `patterns[i]`.
pub fn search_documents(documents: &Vec<Document>, patterns: &Vec<String>, regexes: &Vec<Regex>) -> (rows:
    Vec<SearchRow>)
    requires
        patterns.len() == regexes.len(),
    ensures
        rows.deep_view() == rows_of_documents(
            documents.deep_view(),
            patterns.deep_view(),
            regexes@,
        ),
{
    let mut rows: Vec<SearchRow> = Vec::new();
    let mut i: usize = 0;
    assert(documents.deep_view().take(0) =~= Seq::<DocumentView>::empty());
    assert(rows.deep_view() =~= Seq::<SearchRowView>::empty());
    while i < documents.len()
        invariant
            i <= documents.len(),
            patterns.len() == regexes.len(),
            rows.deep_view() == rows_of_documents(
                documents.deep_view().take(i as int),
                patterns.deep_view(),
                regexes@,
            ),
        decreases documents.len() - i,
    {
        proof {
            assert(documents.deep_view().take(i + 1).drop_last() =~= documents.deep_view().take(
                i as int,
            ));
            assert(documents.deep_view().take(i + 1).last() == documents@[i as int]@);
        }
        match &documents[i].content {
            Some(content) => {
                search_text(
                    documents[i].path.as_str(),
                    content.as_str(),
                    patterns,
                    regexes,
                    &mut rows,
                );
            },
            None => {},
        }
        i = i + 1;
    }
    assert(documents.deep_view().take(documents.len() as int) =~= documents.deep_view());
    rows
}

/// Searches the raw text of every document for every pattern.
///
/// Case is ignored unless `case_sensitive` is `Some(true)`. The patterns are
/// compiled first: one that is not accepted fails the whole search, whatever
/// the documents. Else there is one row per match, and none for a document
/// that could not be read.
pub fn search_xml_content(
    documents: &Vec<Document>,
    patterns: &Vec<String>,
    case_sensitive: Option<bool>,
) -> (result: Result<Vec<SearchRow>, PatternError>)
    ensures
        result is Ok <==> forall|i: int|
            0 <= i < patterns.len() ==> accepted(
                #[trigger] patterns@[i]@,
                case_sensitive == Some(true),
            ),
        result matches Ok(rows) ==> rows.deep_view() == rows_of_documents(
            documents.deep_view(),
            patterns.deep_view(),
            regexes_of(patterns.deep_view(), case_sensitive == Some(true)),
        ),
        result matches Err(error) ==> exists|i: int|
            {
                &&& 0 <= i < patterns.len()
                &&& !accepted(#[trigger] patterns@[i]@, case_sensitive == Some(true))
                &&& forall|k: int|
                    0 <= k < i ==> accepted(#[trigger] patterns@[k]@, case_sensitive == Some(true))
                &&& error.pattern@ == patterns@[i]@
                &&& ("Invalid regex pattern '"@ + patterns@[i]@ + "': "@).is_prefix_of(
                    error.message@,
                )
            },
{
    let sensitive = match case_sensitive {
        Some(flag) => flag,
        None => false,
    };
    match compile_patterns(patterns, sensitive) {
        Ok(regexes) => Ok(search_documents(documents, patterns, &regexes)),
        Err(error) => Err(error),
    }
}

} // verus!
