//! Properties of the broker order and the discovery filters, stated directly
//! over broker categories, statuses and update times.

use vstd::prelude::*;
use crate::model::{AppState, Site};
use crate::order::{filter_marks, is_sorted_order, is_sorted_selection, site_before};
use crate::text::{lemma_seq_lt_irreflexive, lemma_seq_lt_transitive, seq_lt};

verus! {

/// Every broker the filters keep has the chosen category (unless it is `all`)
/// and the chosen status (unless it is `all`); every broker with both is kept.
pub proof fn law_filter_keeps_exactly_matches(
    category: Seq<char>,
    status: Seq<char>,
    state: AppState,
    sites: Seq<Site>,
    shown: Seq<usize>,
)
    requires
        is_sorted_selection(state, sites, shown, filter_marks(category, status, state, sites)),
    ensures
        forall|k: int| 0 <= k < shown.len() && category != "all"@ ==> #[trigger] sites[shown[k] as int].category@ == category,
        forall|k: int| 0 <= k < shown.len() && status != "all"@ ==> state.status_of(#[trigger] sites[shown[k] as int].id@) == status,
        forall|j: int|
            0 <= j < sites.len() && (category == "all"@ || sites[j].category@ == category)
                && (status == "all"@ || state.status_of(sites[j].id@) == status) ==> shown.contains(#[trigger] (j as usize)),
{
    let marks = filter_marks(category, status, state, sites);
    assert forall|k: int| 0 <= k < shown.len() && category != "all"@ implies #[trigger] sites[shown[k] as int].category@ == category by {
        assert(marks[shown[k] as int]);
    }
    assert forall|k: int| 0 <= k < shown.len() && status != "all"@ implies state.status_of(#[trigger] sites[shown[k] as int].id@) == status by {
        assert(marks[shown[k] as int]);
    }
    assert forall|j: int|
        0 <= j < sites.len() && (category == "all"@ || sites[j].category@ == category)
            && (status == "all"@ || state.status_of(sites[j].id@) == status) implies shown.contains(#[trigger] (j as usize)) by {
        assert(marks[j]);
    }
}

/// Brokers on the same side of the not-found split are listed by the time their
/// status was last updated (as text, earliest first), then by list position.
pub proof fn law_order_by_update_time(state: AppState, sites: Seq<Site>, order: Seq<usize>, a: int, b: int)
    requires
        is_sorted_order(state, sites, order),
        0 <= a < b < order.len(),
        (state.status_of(sites[order[a] as int].id@) == "not-found"@) == (state.status_of(
            sites[order[b] as int].id@,
        ) == "not-found"@),
    ensures
        !seq_lt(state.checked_at(sites[order[b] as int].id@), state.checked_at(sites[order[a] as int].id@)),
        state.checked_at(sites[order[a] as int].id@) == state.checked_at(sites[order[b] as int].id@)
            ==> order[a] < order[b],
{
    assert(site_before(state, sites, order[a] as int, order[b] as int));
    let ua = state.checked_at(sites[order[a] as int].id@);
    let ub = state.checked_at(sites[order[b] as int].id@);
    if seq_lt(ub, ua) {
        if seq_lt(ua, ub) {
            lemma_seq_lt_transitive(ua, ub, ua);
            lemma_seq_lt_irreflexive(ua);
        } else {
            lemma_seq_lt_irreflexive(ua);
        }
    }
}

/// A broker that is not marked not found is listed before every broker that is.
pub proof fn law_found_before_not_found(state: AppState, sites: Seq<Site>, order: Seq<usize>, a: int, b: int)
    requires
        is_sorted_order(state, sites, order),
        0 <= a < order.len(),
        0 <= b < order.len(),
        state.status_of(sites[order[a] as int].id@) != "not-found"@,
        state.status_of(sites[order[b] as int].id@) == "not-found"@,
    ensures
        a < b,
{
    if b < a {
        assert(site_before(state, sites, order[b] as int, order[a] as int));
    }
    if a == b {
    }
}

} // verus!
