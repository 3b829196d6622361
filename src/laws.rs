//! Properties of extraction that hold of every input.
use vstd::prelude::*;
use crate::capture::{captured, lemma_walk_done, text_of, walk};
use crate::container::{container_listing, prefixed, selected, selected_from, EntryView};
use crate::document::{arms, merges, selects, DocumentKind};
use crate::error::ErrorView;
use crate::markup::EventView;
use crate::pipeline::{extraction, file_extraction};

verus! {

proof fn lemma_nothing_selected_from(kind: DocumentKind, entries: Seq<EntryView>, i: nat)
    requires
        forall|j: int|
            0 <= j < entries.len() ==> (#[trigger] entries[j]).name is Some && !selects(
                kind,
                entries[j].name->0,
            ),
    ensures
        selected_from(kind, entries, i) == Ok::<Seq<char>, ErrorView>(Seq::empty()),
    decreases entries.len() - i,
{
    if i < entries.len() {
        lemma_nothing_selected_from(kind, entries, i + 1);
    }
}

/// A container none of whose entries the kind selects yields the empty text,
/// not an error.
pub proof fn lemma_nothing_selected_yields_empty_text(kind: DocumentKind, bytes: Seq<u8>)
    requires
        container_listing(bytes) is Some,
        forall|j: int|
            0 <= j < container_listing(bytes)->0.len() ==> (#[trigger] container_listing(
                bytes,
            )->0[j]).name is Some && !selects(kind, container_listing(bytes)->0[j].name->0),
    ensures
        extraction(kind, bytes) == Ok::<Seq<char>, ErrorView>(Seq::empty()),
{
    let entries = container_listing(bytes)->0;
    assert forall|j: int| 0 <= j < entries.len() implies (#[trigger] entries[j]).name is Some
        && !selects(kind, entries[j].name->0) by {
        assert(container_listing(bytes)->0[j] == entries[j]);
    }
    lemma_nothing_selected_from(kind, entries, 0);
}

/// Extraction depends on the container's bytes (and the kind or filename)
/// alone: the same bytes give the same text, or the same error.
pub proof fn lemma_extraction_deterministic(
    kind: DocumentKind,
    filename: Seq<char>,
    first: Seq<u8>,
    second: Seq<u8>,
)
    requires
        first == second,
    ensures
        extraction(kind, first) == extraction(kind, second),
        file_extraction(first, filename) == file_extraction(second, filename),
{
}

/// A stream with no start tag that arms capture yields no text at all, so
/// no separator either.
pub proof fn lemma_no_arming_tag_no_text(kind: DocumentKind, events: Seq<EventView>)
    requires
        forall|j: int|
            0 <= j < events.len() ==> !((#[trigger] events[j]) matches EventView::Start(n) && arms(
                kind,
                n,
            )),
    ensures
        walk(kind, events).text == Seq::<char>::empty(),
        !walk(kind, events).armed,
        captured(kind, events) is Ok ==> captured(kind, events)->Ok_0 == Seq::<char>::empty(),
    decreases events.len(),
{
    if events.len() > 0 {
        let init = events.drop_last();
        assert forall|j: int| 0 <= j < init.len() implies !((#[trigger] init[j]) matches EventView::Start(
            n,
        ) && arms(kind, n)) by {
            assert(init[j] == events[j]);
        }
        lemma_no_arming_tag_no_text(kind, init);
        assert(events.last() == events[events.len() - 1]);
    }
}

proof fn lemma_walk_faults(kind: DocumentKind, events: Seq<EventView>)
    requires
        forall|j: int| 0 <= j < events.len() ==> !((#[trigger] events[j]) is Eof),
    ensures
        walk(kind, events).done ==> walk(kind, events).fault is Some,
    decreases events.len(),
{
    if events.len() > 0 {
        let init = events.drop_last();
        assert forall|j: int| 0 <= j < init.len() implies !((#[trigger] init[j]) is Eof) by {
            assert(init[j] == events[j]);
        }
        lemma_walk_faults(kind, init);
        assert(!(events[events.len() - 1] is Eof));
    }
}

/// Invalid markup before the end of input fails the capture with a
/// `MalformedInput` error, and returns no text.
pub proof fn lemma_malformed_fails(kind: DocumentKind, events: Seq<EventView>, k: int)
    requires
        0 <= k < events.len(),
        events[k] is Malformed,
        forall|j: int| 0 <= j < k ==> !((#[trigger] events[j]) is Eof),
    ensures
        captured(kind, events) matches Err(ErrorView::MalformedInput(_, _)),
{
    let upto = events.take(k + 1);
    assert forall|j: int| 0 <= j < upto.len() implies !((#[trigger] upto[j]) is Eof) by {
        assert(upto[j] == events[j]);
    }
    lemma_walk_faults(kind, upto);
    let before = events.take(k);
    assert(upto.drop_last() =~= before);
    assert(upto.last() == events[k]);
    assert(walk(kind, upto).done);
    lemma_walk_done(kind, events, k + 1);
}

proof fn lemma_selected_shift(kind: DocumentKind, first: Seq<EntryView>, second: Seq<EntryView>, j: nat)
    ensures
        selected_from(kind, first + second, first.len() + j) == selected_from(kind, second, j),
    decreases second.len() - j,
{
    let all = first + second;
    if j < second.len() {
        assert(all[first.len() + j as int] == second[j as int]);
        lemma_selected_shift(kind, first, second, j + 1);
        assert(first.len() + j + 1 == first.len() + (j + 1));
    }
}

proof fn lemma_merge_from(kind: DocumentKind, first: Seq<EntryView>, second: Seq<EntryView>, i: nat)
    requires
        merges(kind),
        i <= first.len(),
    ensures
        selected_from(kind, first + second, i) == match selected_from(kind, first, i) {
            Ok(t) => prefixed(t, selected(kind, second)),
            Err(e) => Err(e),
        },
    decreases first.len() - i,
{
    let all = first + second;
    if i == first.len() {
        lemma_selected_shift(kind, first, second, 0);
        assert(Seq::<char>::empty() + Seq::<char>::empty() =~= Seq::<char>::empty());
        match selected(kind, second) {
            Ok(x) => {
                assert(Seq::<char>::empty() + x =~= x);
            },
            Err(_) => {},
        }
    } else {
        assert(all[i as int] == first[i as int]);
        lemma_merge_from(kind, first, second, i + 1);
        match selected_from(kind, first, i + 1) {
            Ok(r) => match selected(kind, second) {
                Ok(x) => {
                    let e = first[i as int];
                    if e.name is Some && selects(kind, e.name->0) && e.text is Some {
                        let t = e.text->0;
                        assert(t + (r + x) =~= (t + r) + x);
                    }
                },
                Err(_) => {},
            },
            Err(_) => {},
        }
    }
}

/// For a kind that merges its entries, the selection over two runs of
/// entries is that over the first followed by that over the second: each
/// selected entry's text appears once, in container order.
pub proof fn lemma_merge_keeps_order(kind: DocumentKind, first: Seq<EntryView>, second: Seq<EntryView>)
    requires
        merges(kind),
    ensures
        selected(kind, first + second) == match selected(kind, first) {
            Ok(t) => prefixed(t, selected(kind, second)),
            Err(e) => Err(e),
        },
{
    lemma_merge_from(kind, first, second, 0);
}

} // verus!
