//! Broker ordering, filtering, and category listing.

use vstd::prelude::*;
use crate::model::{AppState, Site};
use crate::status::find_record;
use crate::text::{
    lemma_seq_lt_irreflexive, lemma_seq_lt_total,
    lemma_seq_lt_transitive, seq_lt, str_eq, str_lt,
};

verus! {

/// 1 for brokers marked not found, which sort to the bottom; 0 otherwise.
pub open spec fn bottom_rank(state: AppState, site: Site) -> int {
    if state.status_of(site.id@) == "not-found"@ {
        1
    } else {
        0
    }
}

/// Whether broker `i` sorts before broker `j`: by bottom rank, then by the time
/// the status was last updated (as text), then by position in the list.
pub open spec fn site_before(state: AppState, sites: Seq<Site>, i: int, j: int) -> bool {
    let ri = bottom_rank(state, sites[i]);
    let rj = bottom_rank(state, sites[j]);
    let ui = state.checked_at(sites[i].id@);
    let uj = state.checked_at(sites[j].id@);
    ri < rj || (ri == rj && (seq_lt(ui, uj) || (ui == uj && i < j)))
}

/// No broker sorts before itself.
pub proof fn lemma_site_before_irreflexive(state: AppState, sites: Seq<Site>, i: int)
    ensures
        !site_before(state, sites, i, i),
{
    lemma_seq_lt_irreflexive(state.checked_at(sites[i].id@));
}

/// The broker order is transitive.
pub proof fn lemma_site_before_transitive(state: AppState, sites: Seq<Site>, i: int, j: int, k: int)
    requires
        site_before(state, sites, i, j),
        site_before(state, sites, j, k),
    ensures
        site_before(state, sites, i, k),
{
    let ui = state.checked_at(sites[i].id@);
    let uj = state.checked_at(sites[j].id@);
    let uk = state.checked_at(sites[k].id@);
    if seq_lt(ui, uj) && seq_lt(uj, uk) {
        lemma_seq_lt_transitive(ui, uj, uk);
    }
}

/// Any two different positions are ordered one way or the other.
pub proof fn lemma_site_before_total(state: AppState, sites: Seq<Site>, i: int, j: int)
    requires
        i != j,
    ensures
        site_before(state, sites, i, j) || site_before(state, sites, j, i),
{
    let ui = state.checked_at(sites[i].id@);
    let uj = state.checked_at(sites[j].id@);
    if ui != uj {
        lemma_seq_lt_total(ui, uj);
    }
}

/// `order` lists, in the broker order, exactly the positions of `sites` that satisfy `keep`.
pub open spec fn is_sorted_selection(
    state: AppState,
    sites: Seq<Site>,
    order: Seq<usize>,
    keep: Seq<bool>,
) -> bool {
    &&& forall|k: int| 0 <= k < order.len() ==> #[trigger] order[k] < sites.len() && keep[order[k] as int]
    &&& forall|j: int| 0 <= j < sites.len() && #[trigger] keep[j] ==> order.contains(j as usize)
    &&& forall|a: int, b: int|
        0 <= a < b < order.len() ==> site_before(state, sites, #[trigger] order[a] as int, #[trigger] order[b] as int)
}

/// `order` lists every position of `sites` once, in the broker order.
pub open spec fn is_sorted_order(state: AppState, sites: Seq<Site>, order: Seq<usize>) -> bool {
    is_sorted_selection(state, sites, order, Seq::new(sites.len(), |j: int| true))
}

/// Bottom rank and last-update text of every broker, in list order.
fn sort_keys(sites: &[Site], state: &AppState) -> (r: Vec<(usize, String)>)
    requires
        state.wf(),
    ensures
        r@.len() == sites@.len(),
        forall|k: int| #![trigger r@[k]] 0 <= k < sites@.len() ==> r@[k].0 == bottom_rank(*state, sites@[k])
            && r@[k].1@ == state.checked_at(sites@[k].id@),
{
    let mut keys: Vec<(usize, String)> = Vec::new();
    let mut i: usize = 0;
    while i < sites.len()
        invariant
            state.wf(),
            i <= sites@.len(),
            keys@.len() == i,
            forall|k: int| #![trigger keys@[k]] 0 <= k < i ==> keys@[k].0 == bottom_rank(*state, sites@[k])
                && keys@[k].1@ == state.checked_at(sites@[k].id@),
        decreases sites@.len() - i,
    {
        let site = sites[i];
        let key = match find_record(state, site.id) {
            Some(rec) => {
                let rank: usize = if str_eq(rec.status.as_str(), "not-found") { 1 } else { 0 };
                (rank, rec.last_checked.clone())
            },
            None => {
                proof {
                    reveal_strlit("unchecked");
                    reveal_strlit("not-found");
                    assert("unchecked"@[0] != "not-found"@[0]);
                }
                (0, String::new())
            },
        };
        keys.push(key);
        i = i + 1;
    }
    keys
}

/// Whether the broker at `i` sorts before the broker at `j`, using precomputed keys.
fn key_before(keys: &Vec<(usize, String)>, i: usize, j: usize) -> (r: bool)
    requires
        i < keys@.len(),
        j < keys@.len(),
    ensures
        r == ({
            let ri = keys@[i as int].0;
            let rj = keys@[j as int].0;
            let ui = keys@[i as int].1@;
            let uj = keys@[j as int].1@;
            ri < rj || (ri == rj && (seq_lt(ui, uj) || (ui == uj && i < j)))
        }),
{
    let ri = keys[i].0;
    let rj = keys[j].0;
    if ri != rj {
        return ri < rj;
    }
    let ui = keys[i].1.as_str();
    let uj = keys[j].1.as_str();
    if str_lt(ui, uj) {
        return true;
    }
    if !str_eq(ui, uj) {
        return false;
    }
    i < j
}

/// Positions of the brokers that satisfy `keep`, in broker order.
fn sorted_positions(sites: &[Site], state: &AppState, keep: &Vec<bool>) -> (r: Vec<usize>)
    requires
        state.wf(),
        keep@.len() == sites@.len(),
    ensures
        is_sorted_selection(*state, sites@, r@, keep@),
{
    let keys = sort_keys(sites, state);
    let mut order: Vec<usize> = Vec::new();
    let mut i: usize = 0;
    while i < sites.len()
        invariant
            state.wf(),
            i <= sites@.len(),
            keep@.len() == sites@.len(),
            keys@.len() == sites@.len(),
            forall|k: int| #![trigger keys@[k]] 0 <= k < sites@.len() ==> keys@[k].0 == bottom_rank(*state, sites@[k])
                && keys@[k].1@ == state.checked_at(sites@[k].id@),
            forall|k: int| 0 <= k < order@.len() ==> #[trigger] order@[k] < i && keep@[order@[k] as int],
            forall|j: int| 0 <= j < i && #[trigger] keep@[j] ==> order@.contains(j as usize),
            forall|a: int, b: int|
                0 <= a < b < order@.len() ==> site_before(*state, sites@, #[trigger] order@[a] as int, #[trigger] order@[b] as int),
        decreases sites@.len() - i,
    {
        if keep[i] {
            let mut p: usize = 0;
            let mut found = false;
            while p < order.len() && !found
                invariant
                    i < sites@.len(),
                    keys@.len() == sites@.len(),
                    p <= order@.len(),
                    forall|k: int| #![trigger keys@[k]] 0 <= k < sites@.len() ==> keys@[k].0 == bottom_rank(*state, sites@[k])
                        && keys@[k].1@ == state.checked_at(sites@[k].id@),
                    forall|k: int| 0 <= k < order@.len() ==> #[trigger] order@[k] < i,
                    forall|k: int| 0 <= k < p ==> site_before(*state, sites@, #[trigger] order@[k] as int, i as int),
                    found ==> p < order@.len() && site_before(*state, sites@, i as int, order@[p as int] as int),
                decreases order@.len() - p, if found { 0int } else { 1int },
            {
                let o = order[p];
                if key_before(&keys, i, o) {
                    found = true;
                } else {
                    proof {
                        lemma_site_before_total(*state, sites@, i as int, o as int);
                    }
                    p = p + 1;
                }
            }
            let ghost old_order = order@;
            proof {
                if p < old_order.len() {
                    assert(site_before(*state, sites@, i as int, old_order[p as int] as int));
                }
            }
            order.insert(p, i);
            proof {
                assert(order@ =~= old_order.insert(p as int, i));
                assert forall|k: int| 0 <= k < order@.len() implies #[trigger] order@[k] < i + 1 && keep@[order@[k] as int] by {
                    if k < p {
                        assert(order@[k] == old_order[k]);
                    } else if k > p {
                        assert(order@[k] == old_order[k - 1]);
                    }
                }
                assert forall|j: int| 0 <= j < i + 1 && #[trigger] keep@[j] implies order@.contains(j as usize) by {
                    if j == i {
                        assert(order@[p as int] == i);
                    } else {
                        let w = choose|w: int| 0 <= w < old_order.len() && old_order[w] == j as usize;
                        if w < p {
                            assert(order@[w] == old_order[w]);
                        } else {
                            assert(order@[w + 1] == old_order[w]);
                        }
                    }
                }
                assert forall|a: int, b: int| 0 <= a < b < order@.len() implies site_before(*state, sites@, #[trigger] order@[a] as int, #[trigger] order@[b] as int) by {
                    if b < p {
                        assert(order@[a] == old_order[a] && order@[b] == old_order[b]);
                    } else if b == p {
                        assert(order@[a] == old_order[a]);
                    } else if a == p {
                        assert(order@[b] == old_order[b - 1]);
                        if b - 1 > p {
                            assert(site_before(*state, sites@, old_order[p as int] as int, old_order[b - 1] as int));
                            lemma_site_before_transitive(*state, sites@, i as int, old_order[p as int] as int, old_order[b - 1] as int);
                        }
                    } else if a < p {
                        assert(order@[a] == old_order[a] && order@[b] == old_order[b - 1]);
                    } else {
                        assert(order@[a] == old_order[a - 1] && order@[b] == old_order[b - 1]);
                    }
                }
            }
        }
        i = i + 1;
    }
    order
}

/// The brokers at the given positions.
fn sites_at(sites: &[Site], order: &Vec<usize>) -> (r: Vec<Site>)
    requires
        forall|k: int| 0 <= k < order@.len() ==> #[trigger] order@[k] < sites@.len(),
    ensures
        r@ == order@.map_values(|i: usize| sites@[i as int]),
{
    let mut r: Vec<Site> = Vec::new();
    let mut k: usize = 0;
    while k < order.len()
        invariant
            k <= order@.len(),
            forall|k: int| 0 <= k < order@.len() ==> #[trigger] order@[k] < sites@.len(),
            r@ =~= order@.take(k as int).map_values(|i: usize| sites@[i as int]),
        decreases order@.len() - k,
    {
        r.push(sites[order[k]]);
        k = k + 1;
        assert(r@ =~= order@.take(k as int).map_values(|i: usize| sites@[i as int]));
    }
    assert(order@.take(order@.len() as int) =~= order@);
    r
}

/// Returns brokers ordered with not-found items at the bottom.
pub fn ordered_sites(sites: &[Site], state: &AppState) -> (r: Vec<Site>)
    requires
        state.wf(),
    ensures
        exists|order: Seq<usize>|
            #[trigger] is_sorted_order(*state, sites@, order)
                && r@ == order.map_values(|i: usize| sites@[i as int]),
{
    let mut keep: Vec<bool> = Vec::new();
    let mut i: usize = 0;
    while i < sites.len()
        invariant
            i <= sites@.len(),
            keep@.len() == i,
            forall|k: int| 0 <= k < i ==> #[trigger] keep@[k],
        decreases sites@.len() - i,
    {
        keep.push(true);
        i = i + 1;
    }
    let order = sorted_positions(sites, state, &keep);
    let r = sites_at(sites, &order);
    assert(keep@ =~= Seq::new(sites@.len(), |j: int| true));
    assert(is_sorted_order(*state, sites@, order@));
    r
}


/// Whether a broker passes the discovery page's category and status filters;
/// `all` lets every value through.
pub open spec fn site_matches(category: Seq<char>, status: Seq<char>, state: AppState, site: Site) -> bool {
    &&& (category == "all"@ || category == site.category@)
    &&& (status == "all"@ || state.status_of(site.id@) == status)
}

/// For each broker, whether it passes the filters.
pub open spec fn filter_marks(category: Seq<char>, status: Seq<char>, state: AppState, sites: Seq<Site>) -> Seq<bool> {
    Seq::new(sites.len(), |j: int| site_matches(category, status, state, sites[j]))
}

/// Returns broker candidates matching the selected category and status filters.
pub fn filtered_sites(category: &str, status: &str, sites: &[Site], state: &AppState) -> (r: Vec<Site>)
    requires
        state.wf(),
    ensures
        exists|order: Seq<usize>|
            #[trigger] is_sorted_selection(*state, sites@, order, filter_marks(category@, status@, *state, sites@))
                && r@ == order.map_values(|i: usize| sites@[i as int]),
{
    let all_categories = str_eq(category, "all");
    let all_statuses = str_eq(status, "all");
    let mut keep: Vec<bool> = Vec::new();
    let mut i: usize = 0;
    while i < sites.len()
        invariant
            state.wf(),
            i <= sites@.len(),
            keep@.len() == i,
            all_categories == (category@ == "all"@),
            all_statuses == (status@ == "all"@),
            forall|k: int| 0 <= k < i ==> #[trigger] keep@[k] == site_matches(category@, status@, *state, sites@[k]),
        decreases sites@.len() - i,
    {
        let site = sites[i];
        let category_ok = all_categories || str_eq(category, site.category);
        let status_ok = if all_statuses {
            true
        } else {
            let current = crate::status::discovery_status(state, site.id);
            str_eq(current.as_str(), status)
        };
        keep.push(category_ok && status_ok);
        i = i + 1;
    }
    let order = sorted_positions(sites, state, &keep);
    let r = sites_at(sites, &order);
    assert(keep@ =~= filter_marks(category@, status@, *state, sites@));
    r
}

proof fn lemma_sorted_distinct(state: AppState, sites: Seq<Site>, o: Seq<usize>, keep: Seq<bool>, a: int, b: int)
    requires
        is_sorted_selection(state, sites, o, keep),
        0 <= a < o.len(),
        0 <= b < o.len(),
        a != b,
    ensures
        o[a] != o[b],
{
    if a < b {
        assert(site_before(state, sites, o[a] as int, o[b] as int));
    } else {
        assert(site_before(state, sites, o[b] as int, o[a] as int));
    }
    lemma_site_before_irreflexive(state, sites, o[a] as int);
}

proof fn lemma_sorted_selections_agree(
    state: AppState,
    sites: Seq<Site>,
    o1: Seq<usize>,
    o2: Seq<usize>,
    keep: Seq<bool>,
    k: int,
)
    requires
        keep.len() == sites.len(),
        is_sorted_selection(state, sites, o1, keep),
        is_sorted_selection(state, sites, o2, keep),
        0 <= k <= o1.len(),
        k <= o2.len(),
    ensures
        forall|t: int| 0 <= t < k ==> o1[t] == o2[t],
    decreases k,
{
    if k > 0 {
        lemma_sorted_selections_agree(state, sites, o1, o2, keep, k - 1);
        let j = k - 1;
        let x = o1[j];
        let y = o2[j];
        assert(keep[x as int]);
        assert(keep[y as int]);
        assert(o2.contains(x));
        assert(o1.contains(y));
        let m = choose|m: int| 0 <= m < o2.len() && o2[m] == x;
        let m2 = choose|m: int| 0 <= m < o1.len() && o1[m] == y;
        if m < j {
            assert(o1[m] == o2[m]);
            lemma_sorted_distinct(state, sites, o1, keep, m, j);
        }
        if m2 < j {
            assert(o1[m2] == o2[m2]);
            lemma_sorted_distinct(state, sites, o2, keep, m2, j);
        }
        if m > j && m2 > j {
            assert(site_before(state, sites, o2[j] as int, o2[m] as int));
            assert(site_before(state, sites, o1[j] as int, o1[m2] as int));
            lemma_site_before_transitive(state, sites, x as int, y as int, x as int);
            lemma_site_before_irreflexive(state, sites, x as int);
        }
    }
}

/// Two lists that both select the same brokers in broker order are the same list.
pub proof fn lemma_sorted_selection_unique(
    state: AppState,
    sites: Seq<Site>,
    o1: Seq<usize>,
    o2: Seq<usize>,
    keep: Seq<bool>,
)
    requires
        keep.len() == sites.len(),
        is_sorted_selection(state, sites, o1, keep),
        is_sorted_selection(state, sites, o2, keep),
    ensures
        o1 == o2,
{
    let n = if o1.len() < o2.len() { o1.len() } else { o2.len() };
    lemma_sorted_selections_agree(state, sites, o1, o2, keep, n as int);
    if o1.len() < o2.len() {
        let z = o2[n as int];
        assert(keep[z as int]);
        assert(o1.contains(z));
        let p = choose|p: int| 0 <= p < o1.len() && o1[p] == z;
        assert(o2[p] == z);
        lemma_sorted_distinct(state, sites, o2, keep, p, n as int);
    }
    if o2.len() < o1.len() {
        let z = o1[n as int];
        assert(keep[z as int]);
        assert(o2.contains(z));
        let p = choose|p: int| 0 <= p < o2.len() && o2[p] == z;
        assert(o1[p] == z);
        lemma_sorted_distinct(state, sites, o1, keep, p, n as int);
    }
    assert(o1 =~= o2);
}


/// Some broker has category `c`.
pub open spec fn is_site_category(sites: Seq<Site>, c: &'static str) -> bool {
    exists|i: int| 0 <= i < sites.len() && #[trigger] sites[i].category == c
}

/// Some entry of `cats` holds the characters `c`.
pub open spec fn lists_category(cats: Seq<&'static str>, c: Seq<char>) -> bool {
    exists|k: int| 0 <= k < cats.len() && #[trigger] cats[k]@ == c
}

/// `cats` is strictly increasing in character order.
pub open spec fn strictly_increasing(cats: Seq<&'static str>) -> bool {
    forall|a: int, b: int| 0 <= a < b < cats.len() ==> seq_lt(#[trigger] cats[a]@, #[trigger] cats[b]@)
}

/// Returns sorted, unique broker categories for the discovery filter.
pub fn categories(sites: &[Site]) -> (r: Vec<&'static str>)
    ensures
        strictly_increasing(r@),
        forall|k: int| 0 <= k < r@.len() ==> is_site_category(sites@, #[trigger] r@[k]),
        forall|i: int| 0 <= i < sites@.len() ==> lists_category(r@, #[trigger] sites@[i].category@),
{
    let mut cats: Vec<&'static str> = Vec::new();
    let mut i: usize = 0;
    while i < sites.len()
        invariant
            i <= sites@.len(),
            strictly_increasing(cats@),
            forall|k: int| 0 <= k < cats@.len() ==> is_site_category(sites@, #[trigger] cats@[k]),
            forall|j: int| 0 <= j < i ==> lists_category(cats@, #[trigger] sites@[j].category@),
        decreases sites@.len() - i,
    {
        let cat = sites[i].category;
        let mut p: usize = 0;
        while p < cats.len() && str_lt(cats[p], cat)
            invariant
                p <= cats@.len(),
                forall|k: int| 0 <= k < p ==> seq_lt(#[trigger] cats@[k]@, cat@),
            decreases cats@.len() - p,
        {
            p = p + 1;
        }
        let ghost old_cats = cats@;
        if p < cats.len() && str_eq(cats[p], cat) {
            assert(cats@[p as int]@ == sites@[i as int].category@);
        } else {
            proof {
                if p < old_cats.len() {
                    lemma_seq_lt_total(old_cats[p as int]@, cat@);
                }
            }
            cats.insert(p, cat);
            proof {
                assert(cats@ =~= old_cats.insert(p as int, cat));
                assert forall|a: int, b: int| 0 <= a < b < cats@.len() implies seq_lt(#[trigger] cats@[a]@, #[trigger] cats@[b]@) by {
                    if b < p {
                        assert(cats@[a] == old_cats[a] && cats@[b] == old_cats[b]);
                    } else if b == p {
                        assert(cats@[a] == old_cats[a]);
                    } else if a == p {
                        assert(cats@[b] == old_cats[b - 1]);
                        if b - 1 > p {
                            assert(seq_lt(old_cats[p as int]@, old_cats[b - 1]@));
                            lemma_seq_lt_transitive(cat@, old_cats[p as int]@, old_cats[b - 1]@);
                        }
                    } else if a < p {
                        assert(cats@[a] == old_cats[a] && cats@[b] == old_cats[b - 1]);
                    } else {
                        assert(cats@[a] == old_cats[a - 1] && cats@[b] == old_cats[b - 1]);
                    }
                }
                assert forall|k: int| 0 <= k < cats@.len() implies is_site_category(sites@, #[trigger] cats@[k]) by {
                    if k < p {
                        assert(cats@[k] == old_cats[k]);
                        assert(is_site_category(sites@, old_cats[k]));
                    } else if k > p {
                        assert(cats@[k] == old_cats[k - 1]);
                        assert(is_site_category(sites@, old_cats[k - 1]));
                    } else {
                        assert(cats@[k] == sites@[i as int].category);
                    }
                }
                assert forall|j: int| 0 <= j < i + 1 implies lists_category(cats@, #[trigger] sites@[j].category@) by {
                    if j == i {
                        assert(cats@[p as int]@ == sites@[j].category@);
                    } else {
                        assert(lists_category(old_cats, sites@[j].category@));
                        let w = choose|w: int| 0 <= w < old_cats.len() && #[trigger] old_cats[w]@ == sites@[j].category@;
                        if w < p {
                            assert(cats@[w] == old_cats[w]);
                        } else {
                            assert(cats@[w + 1] == old_cats[w]);
                        }
                    }
                }
            }
        }
        i = i + 1;
    }
    assert(i == sites@.len());
    assert(strictly_increasing(cats@));
    assert(forall|j: int| 0 <= j < i ==> #[trigger] sites@[j] == sites@[j]);
    assert(forall|j: int| 0 <= j < i ==> lists_category(cats@, #[trigger] sites@[j].category@));
    cats
}

} // verus!
