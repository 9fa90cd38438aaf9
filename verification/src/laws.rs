//! Properties that hold across the library's operations.

use vstd::prelude::*;
use crate::encoding::{is_unreserved, percent_encode, url_encoded};
use crate::model::{AppState, DiscoveryRecordView, Site};
use crate::order::{
    filter_marks, is_sorted_order, is_sorted_selection, lemma_site_before_irreflexive,
    lemma_sorted_selection_unique, site_before, strictly_increasing,
};
use crate::search::progress_percent_of;
use crate::status::{shows_removal_of, site_status_of, site_task_counts, task_totals};
use crate::text::lemma_seq_lt_irreflexive;

verus! {

/// After a broker's status is set, reading it gives back the status and time
/// that were written, and every other broker reads as before.
pub proof fn law_status_reads_back(
    before: AppState,
    after: AppState,
    id: Seq<char>,
    status: Seq<char>,
    now: Seq<char>,
)
    requires
        after.discovery_map() == before.discovery_map().insert(
            id,
            DiscoveryRecordView { status, last_checked: now },
        ),
    ensures
        after.status_of(id) == status,
        after.checked_at(id) == now,
        forall|other: Seq<char>|
            other != id ==> #[trigger] after.status_of(other) == before.status_of(other)
                && after.checked_at(other) == before.checked_at(other),
{
}

/// Marking a broker found checks its first removal step and keeps the steps
/// checked before.
pub proof fn law_found_checks_first_step(before: AppState, after: AppState, id: Seq<char>)
    requires
        after.progress_map() == before.progress_map().insert(id, before.steps_of(id).insert(0)),
    ensures
        after.steps_of(id).contains(0),
        before.steps_of(id).subset_of(after.steps_of(id)),
{
}

/// Marking a broker not found clears its checklist, and the broker then shows as
/// "Not found", whatever its number of steps.
pub proof fn law_not_found_clears_checklist(
    before: AppState,
    after: AppState,
    id: Seq<char>,
    now: Seq<char>,
    steps: nat,
)
    requires
        after.discovery_map() == before.discovery_map().insert(
            id,
            DiscoveryRecordView { status: "not-found"@, last_checked: now },
        ),
        after.progress_map() == before.progress_map().remove(id),
    ensures
        after.completed_of(id) == 0,
        after.steps_of(id) == Set::<usize>::empty(),
        site_status_of(after.status_of(id), after.completed_of(id), steps) == ("Not found"@, "done"@),
{
}

/// Checking or unchecking a step is what a later read of that step shows; the
/// other steps and brokers keep their state.
pub proof fn law_step_reads_back(
    before: AppState,
    after: AppState,
    id: Seq<char>,
    index: usize,
    checked: bool,
)
    requires
        after.progress_map() == before.progress_map().insert(
            id,
            if checked {
                before.steps_of(id).insert(index)
            } else {
                before.steps_of(id).remove(index)
            },
        ),
    ensures
        after.steps_of(id).contains(index) == checked,
        forall|other: usize| other != index ==> #[trigger] after.steps_of(id).contains(other) == before.steps_of(id).contains(other),
        forall|broker: Seq<char>| broker != id ==> #[trigger] after.steps_of(broker) == before.steps_of(broker),
{
}

/// In the broker order, every broker after a not-found broker is not found either:
/// not-found brokers sit at the bottom.
pub proof fn law_not_found_sorts_last(state: AppState, sites: Seq<Site>, order: Seq<usize>, a: int, b: int)
    requires
        is_sorted_order(state, sites, order),
        0 <= a < b < order.len(),
        state.status_of(sites[order[a] as int].id@) == "not-found"@,
    ensures
        state.status_of(sites[order[b] as int].id@) == "not-found"@,
{
    assert(site_before(state, sites, order[a] as int, order[b] as int));
}

/// The broker order lists every broker exactly once.
pub proof fn law_order_is_permutation(state: AppState, sites: Seq<Site>, order: Seq<usize>)
    requires
        is_sorted_order(state, sites, order),
        sites.len() <= usize::MAX,
    ensures
        order.len() == sites.len(),
        order.no_duplicates(),
        forall|j: usize| j < sites.len() ==> #[trigger] order.contains(j),
{
    let keep = Seq::new(sites.len(), |j: int| true);
    assert forall|j: usize| j < sites.len() implies #[trigger] order.contains(j) by {
        assert(keep[j as int]);
    }
    assert forall|a: int, b: int| 0 <= a < order.len() && 0 <= b < order.len() && a != b implies order[a] != order[b] by {
        if a < b {
            assert(site_before(state, sites, order[a] as int, order[b] as int));
        } else {
            assert(site_before(state, sites, order[b] as int, order[a] as int));
        }
        lemma_site_before_irreflexive(state, sites, order[a] as int);
    }
    let identity = Seq::new(sites.len(), |j: int| j as usize);
    let order_set = order.to_set();
    let all = identity.to_set();
    assert(order_set =~= all) by {
        assert forall|x: usize| order_set.contains(x) implies all.contains(x) by {
            let k = choose|k: int| 0 <= k < order.len() && order[k] == x;
            assert(order[k] < sites.len());
            assert(identity[x as int] == x);
        }
        assert forall|x: usize| all.contains(x) implies order_set.contains(x) by {
            let k = choose|k: int| 0 <= k < identity.len() && identity[k] == x;
            assert(order.contains(k as usize));
        }
    }
    assert forall|a: int, b: int| 0 <= a < identity.len() && 0 <= b < identity.len() && a != b implies identity[a] != identity[b] by {
        assert(identity[a] as int == a);
        assert(identity[b] as int == b);
    }
    assert(identity.no_duplicates());
    order.unique_seq_to_set();
    identity.unique_seq_to_set();
}

/// With both filters at `all`, the discovery list is the full broker order.
pub proof fn law_unfiltered_list_is_full_order(
    state: AppState,
    sites: Seq<Site>,
    full: Seq<usize>,
    shown: Seq<usize>,
)
    requires
        is_sorted_order(state, sites, full),
        is_sorted_selection(state, sites, shown, filter_marks("all"@, "all"@, state, sites)),
    ensures
        shown == full,
{
    assert(filter_marks("all"@, "all"@, state, sites) =~= Seq::new(sites.len(), |j: int| true));
    lemma_sorted_selection_unique(state, sites, shown, full, Seq::new(sites.len(), |j: int| true));
}

/// A filtered list keeps the brokers in the same relative order as the full list.
pub proof fn law_filter_keeps_relative_order(
    state: AppState,
    sites: Seq<Site>,
    full: Seq<usize>,
    shown: Seq<usize>,
    marks: Seq<bool>,
    a: int,
    b: int,
    c: int,
    d: int,
)
    requires
        is_sorted_order(state, sites, full),
        is_sorted_selection(state, sites, shown, marks),
        0 <= a < b < shown.len(),
        0 <= c < full.len(),
        0 <= d < full.len(),
        full[c] == shown[a],
        full[d] == shown[b],
    ensures
        c < d,
{
    assert(site_before(state, sites, shown[a] as int, shown[b] as int));
    lemma_site_before_irreflexive(state, sites, shown[a] as int);
    if d < c {
        assert(site_before(state, sites, full[d] as int, full[c] as int));
        crate::order::lemma_site_before_transitive(state, sites, shown[a] as int, shown[b] as int, shown[a] as int);
    }
}

/// The category list never holds the same category twice.
pub proof fn law_categories_distinct(cats: Seq<&'static str>, a: int, b: int)
    requires
        strictly_increasing(cats),
        0 <= a < cats.len(),
        0 <= b < cats.len(),
        a != b,
    ensures
        cats[a]@ != cats[b]@,
{
    if a < b {
        assert(crate::text::seq_lt(cats[a]@, cats[b]@));
        lemma_seq_lt_irreflexive(cats[a]@);
    } else {
        assert(crate::text::seq_lt(cats[b]@, cats[a]@));
        lemma_seq_lt_irreflexive(cats[b]@);
    }
}

proof fn lemma_bounded_set_len(s: Set<usize>, n: nat)
    requires
        forall|x: usize| #[trigger] s.contains(x) ==> x < n,
    ensures
        s.finite(),
        s.len() <= n,
    decreases n,
{
    if n == 0 {
        assert(s =~= Set::<usize>::empty());
    } else {
        let top = (n - 1) as usize;
        let rest = s.remove(top);
        assert forall|x: usize| #[trigger] rest.contains(x) implies x < (n - 1) as nat by {}
        lemma_bounded_set_len(rest, (n - 1) as nat);
        if s.contains(top) {
            assert(s =~= rest.insert(top));
        } else {
            assert(s =~= rest);
        }
    }
}

/// Every saved step of a listed broker is one of its checklist steps.
pub open spec fn steps_in_range(state: AppState, sites: Seq<Site>) -> bool {
    forall|i: int, x: usize|
        0 <= i < sites.len() && #[trigger] state.steps_of(sites[i].id@).contains(x) ==> x < sites[i].steps@.len()
}

/// A broker that is not found or due for a recheck counts as a single discovery
/// task, done once it has any status other than `unchecked`.
pub proof fn law_unfound_broker_is_one_task(state: AppState, site: Site)
    requires
        !shows_removal_of(state.status_of(site.id@)),
    ensures
        site_task_counts(state, site).1 == 1,
        site_task_counts(state, site).0 == (if state.status_of(site.id@) == "unchecked"@ { 0nat } else { 1nat }),
{
}

/// When saved steps are all real checklist steps, completed tasks never exceed the active tasks.
pub proof fn law_done_within_total(state: AppState, sites: Seq<Site>)
    requires
        steps_in_range(state, sites),
    ensures
        task_totals(state, sites).0 <= task_totals(state, sites).1,
    decreases sites.len(),
{
    if sites.len() > 0 {
        let init = sites.drop_last();
        assert(steps_in_range(state, init)) by {
            assert forall|i: int, x: usize|
                0 <= i < init.len() && #[trigger] state.steps_of(init[i].id@).contains(x) implies x < init[i].steps@.len() by {
                assert(init[i] == sites[i]);
            }
        }
        law_done_within_total(state, init);
        let site = sites.last();
        let last = sites.len() - 1;
        assert forall|x: usize| #[trigger] state.steps_of(site.id@).contains(x) implies x < site.steps@.len() by {
            assert(sites[last] == site);
        }
        lemma_bounded_set_len(state.steps_of(site.id@), site.steps@.len());
        let counts = site_task_counts(state, site);
        assert(counts.0 <= counts.1);
    }
}

/// The progress bar shows a percentage between 0 and 100, and 100 once every task is done.
pub proof fn law_percent_in_range(done: int, total: int)
    requires
        0 <= done <= total,
        total > 0,
        done * 100 <= usize::MAX,
    ensures
        0 <= progress_percent_of(done, total) <= 100,
        done == total ==> progress_percent_of(done, total) == 100,
        progress_percent_of(done, total) == done * 100 / total,
{
    assert(0 <= done * 100 / total <= 100) by (nonlinear_arith)
        requires
            0 <= done <= total,
            total > 0,
    ;
    assert(done == total ==> done * 100 / total == 100) by (nonlinear_arith)
        requires
            total > 0,
    ;
}

proof fn lemma_percent_encode_unreserved(bytes: Seq<u8>)
    requires
        forall|i: int| 0 <= i < bytes.len() ==> is_unreserved(#[trigger] bytes[i]),
    ensures
        percent_encode(bytes) == Seq::new(bytes.len(), |i: int| bytes[i] as char),
    decreases bytes.len(),
{
    if bytes.len() > 0 {
        let rest = bytes.drop_first();
        assert forall|i: int| 0 <= i < rest.len() implies is_unreserved(#[trigger] rest[i]) by {
            assert(rest[i] == bytes[i + 1]);
        }
        lemma_percent_encode_unreserved(rest);
        assert(percent_encode(bytes) =~= Seq::new(bytes.len(), |i: int| bytes[i] as char));
    } else {
        assert(percent_encode(bytes) =~= Seq::new(bytes.len(), |i: int| bytes[i] as char));
    }
}

/// Text made only of ASCII letters, digits, `-`, `.`, `_` and `~` is left unchanged by encoding.
pub proof fn law_encode_keeps_unreserved_text(s: Seq<char>)
    requires
        vstd::utf8::is_ascii_chars(s),
        forall|i: int| 0 <= i < s.len() ==> is_unreserved(#[trigger] s[i] as u8),
    ensures
        url_encoded(s) == s,
{
    vstd::utf8::is_ascii_chars_encode_utf8(s);
    let bytes = vstd::utf8::encode_utf8(s);
    assert forall|i: int| 0 <= i < bytes.len() implies is_unreserved(#[trigger] bytes[i]) by {
        assert(s[i] as u8 == bytes[i]);
    }
    lemma_percent_encode_unreserved(bytes);
    assert forall|i: int| 0 <= i < s.len() implies (#[trigger] bytes[i]) as char == s[i] by {
        let c = s[i];
        assert('\0' <= c <= '\u{7f}');
        assert(c as u8 == bytes[i]);
        assert((c as int) < 128);
        assert((c as u8) as int == c as int);
        assert((c as u8) as char == c);
    }
    assert(url_encoded(s) =~= s);
}

} // verus!
