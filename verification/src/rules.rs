//! The stateless field rules: committing a scratch buffer, prefixing the short
//! identifier, composing an author's display name, and assembling a date.

use vstd::prelude::*;
use vstd::string::*;

use crate::text::{lowercase, lowercased, text_equal, trim, trimmed};

verus! {

/// What a scratch buffer commits: its trimmed text, or nothing when that is
/// empty.
pub open spec fn committed(buffer: Seq<char>) -> Option<Seq<char>> {
    if trimmed(buffer).len() > 0 {
        Some(trimmed(buffer))
    } else {
        None
    }
}

/// The short identifier for an already trimmed text: the text itself when it
/// begins with `PMC`, else the text behind that prefix.
pub open spec fn short_id(text: Seq<char>) -> Seq<char> {
    if "PMC"@.is_prefix_of(text) {
        text
    } else {
        "PMC"@ + text
    }
}

/// The display name of a contributor, from the two name buffers.
pub open spec fn author_name(surname: Seq<char>, given_names: Seq<char>) -> Option<Seq<char>> {
    let s = trimmed(surname);
    let g = trimmed(given_names);
    if s.len() > 0 && g.len() > 0 {
        Some(s + ", "@ + g)
    } else if s.len() > 0 {
        Some(s)
    } else if g.len() > 0 {
        Some(g)
    } else {
        None
    }
}

/// The two-digit numeral of an English month name, full or abbreviated, given
/// in lower case.
pub open spec fn month_numeral(lowered: Seq<char>) -> Option<Seq<char>> {
    if lowered == "january"@ || lowered == "jan"@ {
        Some("01"@)
    } else if lowered == "february"@ || lowered == "feb"@ {
        Some("02"@)
    } else if lowered == "march"@ || lowered == "mar"@ {
        Some("03"@)
    } else if lowered == "april"@ || lowered == "apr"@ {
        Some("04"@)
    } else if lowered == "may"@ {
        Some("05"@)
    } else if lowered == "june"@ || lowered == "jun"@ {
        Some("06"@)
    } else if lowered == "july"@ || lowered == "jul"@ {
        Some("07"@)
    } else if lowered == "august"@ || lowered == "aug"@ {
        Some("08"@)
    } else if lowered == "september"@ || lowered == "sep"@ {
        Some("09"@)
    } else if lowered == "october"@ || lowered == "oct"@ {
        Some("10"@)
    } else if lowered == "november"@ || lowered == "nov"@ {
        Some("11"@)
    } else if lowered == "december"@ || lowered == "dec"@ {
        Some("12"@)
    } else {
        None
    }
}

/// The month component of a date: the numeral of a month name, whatever its
/// case, and any other text unchanged.
pub open spec fn month_component(month: Seq<char>) -> Seq<char> {
    match month_numeral(lowercased(month)) {
        Some(numeral) => numeral,
        None => month,
    }
}

/// The publication date assembled from the three date buffers: nothing without
/// a year, a day only behind a month.
pub open spec fn date_of(year: Seq<char>, month: Seq<char>, day: Seq<char>) -> Option<Seq<char>> {
    let y = trimmed(year);
    let m = trimmed(month);
    let d = trimmed(day);
    if y.len() == 0 {
        None
    } else if m.len() == 0 {
        Some(y)
    } else if d.len() == 0 {
        Some(y + "-"@ + month_component(m))
    } else {
        Some(y + "-"@ + month_component(m) + "-"@ + d)
    }
}

/// Trims a scratch buffer and returns it if anything is left.
pub fn commit_text(buffer: &str) -> (value: Option<String>)
    ensures
        value.deep_view() == committed(buffer@),
{
    let t = trim(buffer);
    if t.is_empty() {
        None
    } else {
        Some(String::from_str(t))
    }
}

/// Whether `text` begins with `PMC`.
pub fn has_pmc_prefix(text: &str) -> (yes: bool)
    ensures
        yes == "PMC"@.is_prefix_of(text@),
{
    proof {
        reveal_strlit("PMC");
    }
    if text.unicode_len() < 3 {
        return false;
    }
    let yes = text.get_char(0) == 'P' && text.get_char(1) == 'M' && text.get_char(2) == 'C';
    assert(yes ==> "PMC"@ =~= text@.subrange(0, 3));
    assert(!yes ==> "PMC"@ != text@.subrange(0, 3)) by {
        if "PMC"@ == text@.subrange(0, 3) {
            assert(text@.subrange(0, 3)[0] == 'P');
            assert(text@.subrange(0, 3)[1] == 'M');
            assert(text@.subrange(0, 3)[2] == 'C');
        }
    }
    yes
}

/// Puts the `PMC` prefix before `text` unless it is there already.
pub fn normalize_pmc_id(text: &str) -> (id: String)
    ensures
        id@ == short_id(text@),
{
    if has_pmc_prefix(text) {
        String::from_str(text)
    } else {
        String::from_str("PMC").concat(text)
    }
}

/// Composes `"{surname}, {given-names}"`, or the one name that is there.
pub fn compose_author_name(surname: &str, given_names: &str) -> (name: Option<String>)
    ensures
        name.deep_view() == author_name(surname@, given_names@),
{
    let s = trim(surname);
    let g = trim(given_names);
    if !s.is_empty() && !g.is_empty() {
        Some(String::from_str(s).concat(", ").concat(g))
    } else if !s.is_empty() {
        Some(String::from_str(s))
    } else if !g.is_empty() {
        Some(String::from_str(g))
    } else {
        None
    }
}

/// Looks a lower-case month name up in the table.
pub fn month_number(lowered: &str) -> (numeral: Option<&'static str>)
    ensures
        numeral.deep_view() == month_numeral(lowered@),
{
    if text_equal(lowered, "january") || text_equal(lowered, "jan") {
        Some("01")
    } else if text_equal(lowered, "february") || text_equal(lowered, "feb") {
        Some("02")
    } else if text_equal(lowered, "march") || text_equal(lowered, "mar") {
        Some("03")
    } else if text_equal(lowered, "april") || text_equal(lowered, "apr") {
        Some("04")
    } else if text_equal(lowered, "may") {
        Some("05")
    } else if text_equal(lowered, "june") || text_equal(lowered, "jun") {
        Some("06")
    } else if text_equal(lowered, "july") || text_equal(lowered, "jul") {
        Some("07")
    } else if text_equal(lowered, "august") || text_equal(lowered, "aug") {
        Some("08")
    } else if text_equal(lowered, "september") || text_equal(lowered, "sep") {
        Some("09")
    } else if text_equal(lowered, "october") || text_equal(lowered, "oct") {
        Some("10")
    } else if text_equal(lowered, "november") || text_equal(lowered, "nov") {
        Some("11")
    } else if text_equal(lowered, "december") || text_equal(lowered, "dec") {
        Some("12")
    } else {
        None
    }
}

/// Turns a month name into its numeral and leaves any other text as it is.
pub fn normalize_month(month: &str) -> (component: String)
    ensures
        component@ == month_component(month@),
{
    let lowered = lowercase(month);
    match month_number(lowered.as_str()) {
        Some(numeral) => String::from_str(numeral),
        None => String::from_str(month),
    }
}

/// Assembles the publication date from the year, month and day buffers.
pub fn assemble_date(year: &str, month: &str, day: &str) -> (date: Option<String>)
    ensures
        date.deep_view() == date_of(year@, month@, day@),
{
    let y = trim(year);
    let m = trim(month);
    let d = trim(day);
    if y.is_empty() {
        return None;
    }
    let mut date = String::from_str(y);
    if !m.is_empty() {
        let component = normalize_month(m);
        date.append("-");
        date.append(component.as_str());
        if !d.is_empty() {
            date.append("-");
            date.append(d);
        }
    }
    Some(date)
}

} // verus!
