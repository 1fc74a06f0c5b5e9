//! What holds of every run of the machine, whatever the events.

use vstd::prelude::*;
use vstd::string::*;

use crate::event::{tag_of, AttributeView, EventView, Tag};
use crate::machine::{
    closed, initial, opened, record_of, route_identifier, run, step, MachineState,
};
use crate::metadata::MetadataView;
use crate::rules::{committed, date_of, month_numeral, short_id};
use crate::text::{decoded, joined, trimmed};

verus! {

/// Whether an event opens the header region.
pub open spec fn opens_header(event: EventView) -> bool {
    event matches EventView::Start { name, .. } && tag_of(name) == Tag::Front
}

/// Whether the body region is open after `events`, going by the body
/// boundary alone.
pub open spec fn in_body_after(events: Seq<EventView>) -> bool
    decreases events.len(),
{
    if events.len() == 0 {
        false
    } else {
        match events.last() {
            EventView::Start { name, .. } => tag_of(name) == Tag::Body || (tag_of(name)
                != Tag::Body && in_body_after(events.drop_last())),
            EventView::End { name } => tag_of(name) != Tag::Body && in_body_after(
                events.drop_last(),
            ),
            _ => in_body_after(events.drop_last()),
        }
    }
}

/// The text fragments that lie inside the body region, in order, going by the
/// body boundary alone.
pub open spec fn body_fragments(events: Seq<EventView>) -> Seq<Seq<char>>
    decreases events.len(),
{
    if events.len() == 0 {
        Seq::empty()
    } else {
        match events.last() {
            EventView::Text { content } => if in_body_after(events.drop_last()) {
                body_fragments(events.drop_last()).push(decoded(content))
            } else {
                body_fragments(events.drop_last())
            },
            _ => body_fragments(events.drop_last()),
        }
    }
}

/// A text is a prefix of itself followed by anything.
pub proof fn lemma_prefix_of_concat(a: Seq<char>, b: Seq<char>)
    ensures
        a.is_prefix_of(a + b),
{
    assert((a + b).subrange(0, a.len() as int) =~= a);
}

/// Prefixing is idempotent: the short identifier of a short identifier is
/// itself, and it always begins with `PMC`.
pub proof fn lemma_short_id_idempotent(text: Seq<char>)
    ensures
        "PMC"@.is_prefix_of(short_id(text)),
        short_id(short_id(text)) == short_id(text),
{
    lemma_prefix_of_concat("PMC"@, text);
}

/// A month that comes from the table of names is written with two digits.
pub proof fn lemma_month_numeral_two_digits(lowered: Seq<char>)
    ensures
        month_numeral(lowered) matches Some(numeral) ==> numeral.len() == 2,
{
    reveal_strlit("01");
    reveal_strlit("02");
    reveal_strlit("03");
    reveal_strlit("04");
    reveal_strlit("05");
    reveal_strlit("06");
    reveal_strlit("07");
    reveal_strlit("08");
    reveal_strlit("09");
    reveal_strlit("10");
    reveal_strlit("11");
    reveal_strlit("12");
}

/// A date is there exactly when the year is, and then begins with the year.
pub proof fn lemma_date_needs_year(year: Seq<char>, month: Seq<char>, day: Seq<char>)
    ensures
        date_of(year, month, day) is Some <==> trimmed(year).len() > 0,
        date_of(year, month, day) matches Some(date) ==> trimmed(year).is_prefix_of(date),
        trimmed(month).len() == 0 ==> date_of(year, month, day) == date_of(
            year,
            month,
            Seq::empty(),
        ),
{
    let y = trimmed(year);
    let m = trimmed(month);
    let d = trimmed(day);
    if y.len() > 0 {
        let date = date_of(year, month, day)->Some_0;
        assert(date.subrange(0, y.len() as int) =~= y);
    }
}

/// One event keeps a well-formed record well-formed.
pub proof fn lemma_step_keeps_well_formed(s: MachineState, event: EventView)
    requires
        s.record.well_formed(),
    ensures
        step(s, event).record.well_formed(),
{
    match event {
        EventView::Start { name, attributes } => {},
        EventView::End { name } => {
            let tag = tag_of(name);
            let after = closed(s, tag);
            match tag {
                Tag::ArticleId => {
                    assert forall|t: Seq<char>| "PMC"@.is_prefix_of(#[trigger] short_id(t)) by {
                        lemma_short_id_idempotent(t);
                    }
                },
                Tag::Contrib => {
                    assert forall|i: int| 0 <= i < after.record.authors.len() implies (
                    #[trigger] after.record.authors[i]).len() > 0 by {
                        if i < s.record.authors.len() {
                            assert(after.record.authors[i] == s.record.authors[i]);
                        }
                    }
                },
                _ => {},
            }
        },
        _ => {},
    }
}

/// Every record that the machine commits is well-formed: a title, abstract,
/// journal, identifier or date that is present is not empty, no author's
/// name is empty, and the short identifier begins with `PMC`. The record
/// names the document it was asked for.
pub proof fn lemma_record_well_formed(events: Seq<EventView>, file_path: Seq<char>)
    ensures
        run(initial(file_path), events).record.well_formed(),
        record_of(events, file_path).well_formed(),
        record_of(events, file_path).file_path == file_path,
    decreases events.len(),
{
    if events.len() > 0 {
        lemma_record_well_formed(events.drop_last(), file_path);
        let before = run(initial(file_path), events.drop_last());
        lemma_step_keeps_well_formed(before, events.last());
        lemma_step_keeps_path(before, events.last());
    }
}

/// No event changes the name of the document.
pub proof fn lemma_step_keeps_path(s: MachineState, event: EventView)
    ensures
        step(s, event).record.file_path == s.record.file_path,
{
}

/// Outside the header no event commits anything, unless it opens the header.
pub proof fn lemma_step_outside_header(s: MachineState, event: EventView)
    requires
        !s.in_header,
        !opens_header(event),
    ensures
        !step(s, event).in_header,
        step(s, event).record == s.record,
{
}

/// A document without a header boundary: after any run of its events the
/// machine is outside the header and has committed nothing.
pub proof fn lemma_run_without_header(events: Seq<EventView>, file_path: Seq<char>)
    requires
        forall|i: int| 0 <= i < events.len() ==> !opens_header(#[trigger] events[i]),
    ensures
        !run(initial(file_path), events).in_header,
        run(initial(file_path), events).record == MetadataView::blank(file_path),
    decreases events.len(),
{
    if events.len() > 0 {
        let front = events.drop_last();
        assert forall|i: int| 0 <= i < front.len() implies !opens_header(#[trigger] front[i]) by {
            assert(front[i] == events[i]);
        }
        lemma_run_without_header(front, file_path);
        assert(!opens_header(events[events.len() - 1]));
        lemma_step_outside_header(run(initial(file_path), front), events.last());
    }
}

/// The body text goes by the body boundary alone: after any run the machine
/// is inside the body exactly when the last body boundary opened it, and it
/// holds exactly the text fragments met inside the body, header or no header.
pub proof fn lemma_body_text_independent(events: Seq<EventView>, file_path: Seq<char>)
    ensures
        run(initial(file_path), events).in_body == in_body_after(events),
        run(initial(file_path), events).body_parts == body_fragments(events),
        record_of(events, file_path).full_text == if body_fragments(events).len() > 0 {
            Some(joined(body_fragments(events), " "@))
        } else {
            None
        },
    decreases events.len(),
{
    if events.len() > 0 {
        lemma_body_text_independent(events.drop_last(), file_path);
        let before = run(initial(file_path), events.drop_last());
        lemma_step_body(before, events.last());
    }
}

/// What one event does to the body flag and to the body fragments.
pub proof fn lemma_step_body(s: MachineState, event: EventView)
    ensures
        step(s, event).in_body == match event {
            EventView::Start { name, .. } => tag_of(name) == Tag::Body || s.in_body,
            EventView::End { name } => tag_of(name) != Tag::Body && s.in_body,
            _ => s.in_body,
        },
        step(s, event).body_parts == match event {
            EventView::Text { content } => if s.in_body {
                s.body_parts.push(decoded(content))
            } else {
                s.body_parts
            },
            _ => s.body_parts,
        },
{
}

/// A document with no header boundary at all yields no header field, and
/// still yields the text of its body.
pub proof fn lemma_no_header_no_header_fields(events: Seq<EventView>, file_path: Seq<char>)
    requires
        forall|i: int| 0 <= i < events.len() ==> !opens_header(#[trigger] events[i]),
    ensures
        record_of(events, file_path) == (MetadataView {
            full_text: if body_fragments(events).len() > 0 {
                Some(joined(body_fragments(events), " "@))
            } else {
                None
            },
            ..MetadataView::blank(file_path)
        }),
{
    lemma_run_without_header(events, file_path);
    lemma_body_text_independent(events, file_path);
}

/// One event keeps the latch in step with the title: the latch is set exactly
/// when a title is there.
pub proof fn lemma_step_keeps_latch(s: MachineState, event: EventView)
    requires
        s.title_committed == s.record.title is Some,
    ensures
        step(s, event).title_committed == step(s, event).record.title is Some,
{
}

/// In every run from the start the latch is set exactly when a title has
/// been committed.
pub proof fn lemma_latch_follows_title(events: Seq<EventView>, file_path: Seq<char>)
    ensures
        run(initial(file_path), events).title_committed == run(
            initial(file_path),
            events,
        ).record.title is Some,
    decreases events.len(),
{
    if events.len() > 0 {
        lemma_latch_follows_title(events.drop_last(), file_path);
        lemma_step_keeps_latch(run(initial(file_path), events.drop_last()), events.last());
    }
}

/// Once a title is committed no event changes it.
pub proof fn lemma_step_keeps_title(s: MachineState, event: EventView)
    requires
        s.title_committed,
    ensures
        step(s, event).title_committed,
        step(s, event).record.title == s.record.title,
{
}

/// Title latch: from a state in which a title is committed, no run of events
/// changes the title, wherever its later candidates stand.
pub proof fn lemma_title_latch(s: MachineState, events: Seq<EventView>)
    requires
        s.title_committed,
    ensures
        run(s, events).title_committed,
        run(s, events).record.title == s.record.title,
    decreases events.len(),
{
    if events.len() > 0 {
        lemma_title_latch(s, events.drop_last());
        lemma_step_keeps_title(run(s, events.drop_last()), events.last());
    }
}

/// Whether no identifier that is already there is pending again.
pub open spec fn identifiers_taken_once(s: MachineState) -> bool {
    &&& s.record.pmid is Some ==> !s.pending.pmid
    &&& s.record.pmc_id is Some ==> !s.pending.pmc
    &&& s.record.doi is Some ==> !s.pending.doi
}

/// Whether `after` has every identifier that `before` has, unchanged, and
/// takes each identifier once.
pub open spec fn keeps_identifiers(before: MachineState, after: MachineState) -> bool {
    &&& identifiers_taken_once(after)
    &&& before.record.pmid is Some ==> after.record.pmid == before.record.pmid
    &&& before.record.pmc_id is Some ==> after.record.pmc_id == before.record.pmc_id
    &&& before.record.doi is Some ==> after.record.doi == before.record.doi
}

/// An opening element never makes an identifier pending that is already
/// there.
proof fn lemma_opening_keeps_identifiers(
    s: MachineState,
    tag: Tag,
    attributes: Seq<Option<AttributeView>>,
)
    requires
        identifiers_taken_once(s),
    ensures
        keeps_identifiers(s, opened(s, tag, attributes)),
{
    let after = opened(s, tag, attributes);
    if tag is ArticleId {
        assert(keeps_identifiers(s, after));
    } else {
        assert(after.record == s.record);
        assert(after.pending == s.pending);
    }
}

/// A closing element routes a value to a pending identifier only, and so
/// never to one that is already there.
proof fn lemma_closing_keeps_identifiers(s: MachineState, tag: Tag)
    requires
        identifiers_taken_once(s),
    ensures
        keeps_identifiers(s, closed(s, tag)),
{
    let after = closed(s, tag);
    if tag is ArticleId {
        if s.in_header {
            match committed(s.scratch.text) {
                Some(value) => {
                    assert(after.record == route_identifier(s, value).record);
                    assert(after.pending == route_identifier(s, value).pending);
                },
                None => {
                    assert(after.record == s.record);
                    assert(after.pending == s.pending);
                },
            }
        }
    } else {
        assert(after.pending == s.pending);
        assert(after.record.pmid == s.record.pmid);
        assert(after.record.pmc_id == s.record.pmc_id);
        assert(after.record.doi == s.record.doi);
    }
}

/// One event never makes an identifier pending that is already there, and
/// never changes one that is there.
pub proof fn lemma_step_keeps_identifiers(s: MachineState, event: EventView)
    requires
        identifiers_taken_once(s),
    ensures
        keeps_identifiers(s, step(s, event)),
{
    match event {
        EventView::Start { name, attributes } => {
            lemma_opening_keeps_identifiers(s, tag_of(name), attributes);
        },
        EventView::End { name } => {
            lemma_closing_keeps_identifiers(s, tag_of(name));
        },
        EventView::Text { content } => {
            assert(step(s, event).record == s.record);
            assert(step(s, event).pending == s.pending);
        },
        _ => {},
    }
}

/// Identifier latch: an identifier that has been routed is never replaced,
/// whatever elements of its type follow.
pub proof fn lemma_identifier_latch(s: MachineState, events: Seq<EventView>)
    requires
        identifiers_taken_once(s),
    ensures
        identifiers_taken_once(run(s, events)),
        s.record.pmid is Some ==> run(s, events).record.pmid == s.record.pmid,
        s.record.pmc_id is Some ==> run(s, events).record.pmc_id == s.record.pmc_id,
        s.record.doi is Some ==> run(s, events).record.doi == s.record.doi,
    decreases events.len(),
{
    if events.len() > 0 {
        lemma_identifier_latch(s, events.drop_last());
        lemma_step_keeps_identifiers(run(s, events.drop_last()), events.last());
    }
}

/// In every run from the start each identifier is taken once: what the
/// first events routed is what the whole run has.
pub proof fn lemma_first_identifier_wins(
    first: Seq<EventView>,
    rest: Seq<EventView>,
    file_path: Seq<char>,
)
    ensures
        ({
            let early = run(initial(file_path), first).record;
            let late = run(initial(file_path), first + rest).record;
            &&& early.pmid is Some ==> late.pmid == early.pmid
            &&& early.pmc_id is Some ==> late.pmc_id == early.pmc_id
            &&& early.doi is Some ==> late.doi == early.doi
        }),
{
    lemma_identifier_latch(initial(file_path), first);
    lemma_run_in_two(initial(file_path), first, rest);
    lemma_identifier_latch(run(initial(file_path), first), rest);
}

/// A run over two stretches of events is the run over the second from where
/// the first ended.
pub proof fn lemma_run_in_two(s: MachineState, first: Seq<EventView>, rest: Seq<EventView>)
    ensures
        run(s, first + rest) == run(run(s, first), rest),
    decreases rest.len(),
{
    if rest.len() == 0 {
        assert(first + rest =~= first);
    } else {
        lemma_run_in_two(s, first, rest.drop_last());
        assert((first + rest).drop_last() =~= first + rest.drop_last());
        assert((first + rest).last() == rest.last());
    }
}

/// One event leaves the authors as they are or adds one at the end.
pub proof fn lemma_step_extends_authors(s: MachineState, event: EventView)
    ensures
        s.record.authors.is_prefix_of(step(s, event).record.authors),
        step(s, event).record.authors.len() <= s.record.authors.len() + 1,
{
    let after = step(s, event).record.authors;
    if after.len() == s.record.authors.len() + 1 {
        assert(after.subrange(0, s.record.authors.len() as int) =~= s.record.authors);
    } else {
        assert(after.subrange(0, s.record.authors.len() as int) =~= s.record.authors);
    }
}

/// Authors keep their order: what a run adds comes behind what was there.
pub proof fn lemma_authors_in_order(s: MachineState, events: Seq<EventView>)
    ensures
        s.record.authors.is_prefix_of(run(s, events).record.authors),
    decreases events.len(),
{
    if events.len() > 0 {
        lemma_authors_in_order(s, events.drop_last());
        let before = run(s, events.drop_last());
        lemma_step_extends_authors(before, events.last());
        let after = run(s, events).record.authors;
        assert(after.subrange(0, s.record.authors.len() as int) =~= s.record.authors) by {
            assert(before.record.authors.subrange(0, s.record.authors.len() as int)
                =~= s.record.authors);
            assert(after.subrange(0, before.record.authors.len() as int)
                =~= before.record.authors);
        }
    } else {
        assert(s.record.authors.subrange(0, s.record.authors.len() as int) =~= s.record.authors);
    }
}

} // verus!
