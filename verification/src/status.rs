//! Broker status, progress, and discovery-state helpers.

use vstd::prelude::*;
use std::collections::BTreeSet;
use crate::keyed::{keyed_find, keyed_insert, keyed_remove, lemma_view_at};
use crate::model::{AppState, DiscoveryRecord, DiscoveryRecordView, Site};
use crate::text::str_eq;

verus! {

impl AppState {
    /// The completed step indexes saved for a broker, empty when none are saved.
    pub open spec fn steps_of(&self, id: Seq<char>) -> Set<usize> {
        if self.progress_map().contains_key(id) {
            self.progress_map()[id]
        } else {
            Set::empty()
        }
    }

    /// Checks that each broker id occurs at most once in each keyed table.
    pub fn is_well_formed(&self) -> (r: bool)
        ensures
            r == self.wf(),
    {
        let mut i: usize = 0;
        while i < self.progress.len()
            invariant
                i <= self.progress@.len(),
                forall|a: int, b: int| 0 <= a < b < self.progress@.len() && a < i
                    ==> self.progress@[a].key@ != self.progress@[b].key@,
            decreases self.progress@.len() - i,
        {
            let mut j: usize = i + 1;
            while j < self.progress.len()
                invariant
                    i < self.progress@.len(),
                    i + 1 <= j <= self.progress@.len(),
                    forall|a: int, b: int| 0 <= a < b < self.progress@.len() && a < i
                        ==> self.progress@[a].key@ != self.progress@[b].key@,
                    forall|b: int| i < b < j ==> self.progress@[i as int].key@ != self.progress@[b].key@,
                decreases self.progress@.len() - j,
            {
                if str_eq(self.progress[i].key.as_str(), self.progress[j].key.as_str()) {
                    return false;
                }
                j = j + 1;
            }
            i = i + 1;
        }
        let mut i: usize = 0;
        while i < self.discovery.len()
            invariant
                i <= self.discovery@.len(),
                crate::keyed::keys_unique(self.progress@),
                forall|a: int, b: int| 0 <= a < b < self.discovery@.len() && a < i
                    ==> self.discovery@[a].key@ != self.discovery@[b].key@,
            decreases self.discovery@.len() - i,
        {
            let mut j: usize = i + 1;
            while j < self.discovery.len()
                invariant
                    i < self.discovery@.len(),
                    i + 1 <= j <= self.discovery@.len(),
                    forall|a: int, b: int| 0 <= a < b < self.discovery@.len() && a < i
                        ==> self.discovery@[a].key@ != self.discovery@[b].key@,
                    forall|b: int| i < b < j ==> self.discovery@[i as int].key@ != self.discovery@[b].key@,
                decreases self.discovery@.len() - j,
            {
                if str_eq(self.discovery[i].key.as_str(), self.discovery[j].key.as_str()) {
                    return false;
                }
                j = j + 1;
            }
            i = i + 1;
        }
        true
    }
}

/// The saved discovery record of a broker, if any.
pub fn find_record<'a>(state: &'a AppState, site_id: &str) -> (r: Option<&'a DiscoveryRecord>)
    requires
        state.wf(),
    ensures
        r is Some <==> state.discovery_map().contains_key(site_id@),
        r matches Some(rec) ==> rec@ == state.discovery_map()[site_id@],
{
    match keyed_find(&state.discovery, site_id) {
        Some(i) => {
            proof {
                lemma_view_at(state.discovery@, i as int);
            }
            Some(&state.discovery[i].value)
        },
        None => None,
    }
}

/// Number of checklist steps saved as completed for a broker.
pub fn completed_steps(state: &AppState, site_id: &str) -> (r: usize)
    requires
        state.wf(),
    ensures
        r == state.completed_of(site_id@),
{
    match keyed_find(&state.progress, site_id) {
        Some(i) => {
            proof {
                lemma_view_at(state.progress@, i as int);
            }
            state.progress[i].value.len()
        },
        None => 0,
    }
}

/// Returns a broker's saved discovery status or `unchecked` when absent.
pub fn discovery_status(state: &AppState, site_id: &str) -> (r: String)
    requires
        state.wf(),
    ensures
        r@ == state.status_of(site_id@),
{
    match find_record(state, site_id) {
        Some(rec) => rec.status.clone(),
        None => "unchecked".to_owned(),
    }
}

/// Label and CSS class that describe a broker's progress.
pub open spec fn site_status_of(status: Seq<char>, complete: nat, steps: nat) -> (Seq<char>, Seq<char>) {
    if status == "not-found"@ {
        ("Not found"@, "done"@)
    } else if status == "removed"@ {
        ("Removed"@, "done"@)
    } else if status == "recheck"@ {
        ("Recheck"@, "doing"@)
    } else if status != "found"@ {
        ("Unchecked"@, "todo"@)
    } else if complete == steps {
        ("Ready to verify"@, "done"@)
    } else if complete > 0 {
        ("Removing"@, "doing"@)
    } else {
        ("Found"@, "found"@)
    }
}

/// Converts a broker's discovery and checklist state into a label and CSS class.
pub fn site_status(state: &AppState, site: &Site) -> (r: (&'static str, &'static str))
    requires
        state.wf(),
    ensures
        (r.0@, r.1@) == site_status_of(
            state.status_of(site.id@),
            state.completed_of(site.id@),
            site.steps@.len(),
        ),
{
    let discovery = discovery_status(state, site.id);
    if str_eq(discovery.as_str(), "not-found") {
        return ("Not found", "done");
    }
    if str_eq(discovery.as_str(), "removed") {
        return ("Removed", "done");
    }
    if str_eq(discovery.as_str(), "recheck") {
        return ("Recheck", "doing");
    }
    if !str_eq(discovery.as_str(), "found") {
        return ("Unchecked", "todo");
    }
    let complete = completed_steps(state, site.id);
    if complete == site.steps.len() {
        ("Ready to verify", "done")
    } else if complete > 0 {
        ("Removing", "doing")
    } else {
        ("Found", "found")
    }
}

/// Whether a broker in this status shows its removal checklist.
pub open spec fn shows_removal_of(status: Seq<char>) -> bool {
    status == "found"@ || status == "recheck"@
}

/// Whether a broker in this discovery status shows its removal checklist.
pub fn shows_removal_steps(status: &str) -> (r: bool)
    ensures
        r == shows_removal_of(status@),
{
    str_eq(status, "found") || str_eq(status, "recheck")
}

/// Completed and active tasks that one broker contributes to the overall count.
pub open spec fn site_task_counts(state: AppState, site: Site) -> (nat, nat) {
    let d = state.status_of(site.id@);
    let discovery_done: nat = if d != "unchecked"@ { 1 } else { 0 };
    let include_removal = shows_removal_of(d);
    let removal_total: nat = if include_removal { site.steps@.len() } else { 0 };
    let removal_done: nat = if include_removal { state.completed_of(site.id@) } else { 0 };
    (discovery_done + removal_done, 1 + removal_total)
}

/// Completed and active tasks summed over a list of brokers.
pub open spec fn task_totals(state: AppState, sites: Seq<Site>) -> (nat, nat)
    decreases sites.len(),
{
    if sites.len() == 0 {
        (0, 0)
    } else {
        let before = task_totals(state, sites.drop_last());
        let here = site_task_counts(state, sites.last());
        (before.0 + here.0, before.1 + here.1)
    }
}

/// Totals over a prefix never exceed the totals over the whole list.
pub proof fn lemma_task_totals_prefix(state: AppState, sites: Seq<Site>, i: int)
    requires
        0 <= i <= sites.len(),
    ensures
        task_totals(state, sites.take(i)).0 <= task_totals(state, sites).0,
        task_totals(state, sites.take(i)).1 <= task_totals(state, sites).1,
    decreases sites.len(),
{
    if i == sites.len() {
        assert(sites.take(i) =~= sites);
    } else {
        assert(sites.drop_last().take(i) =~= sites.take(i));
        lemma_task_totals_prefix(state, sites.drop_last(), i);
    }
}

/// Counts completed tasks and total active tasks across discovery and removal.
pub fn total_progress(sites: &[Site], state: &AppState) -> (r: (usize, usize))
    requires
        state.wf(),
        task_totals(*state, sites@).0 <= usize::MAX,
        task_totals(*state, sites@).1 <= usize::MAX,
    ensures
        r.0 == task_totals(*state, sites@).0,
        r.1 == task_totals(*state, sites@).1,
{
    let mut done: usize = 0;
    let mut total: usize = 0;
    let mut i: usize = 0;
    while i < sites.len()
        invariant
            state.wf(),
            i <= sites@.len(),
            task_totals(*state, sites@).0 <= usize::MAX,
            task_totals(*state, sites@).1 <= usize::MAX,
            done == task_totals(*state, sites@.take(i as int)).0,
            total == task_totals(*state, sites@.take(i as int)).1,
        decreases sites@.len() - i,
    {
        let site = sites[i];
        proof {
            assert(sites@.take(i + 1).drop_last() =~= sites@.take(i as int));
            assert(sites@.take(i + 1).last() == site);
            lemma_task_totals_prefix(*state, sites@, i + 1);
        }
        let discovery = discovery_status(state, site.id);
        let discovery_done: usize = if !str_eq(discovery.as_str(), "unchecked") { 1 } else { 0 };
        let include_removal = shows_removal_steps(discovery.as_str());
        let removal_total: usize = if include_removal { site.steps.len() } else { 0 };
        let removal_done: usize = if include_removal { completed_steps(state, site.id) } else { 0 };
        done = done + discovery_done + removal_done;
        total = total + 1 + removal_total;
        i = i + 1;
    }
    assert(sites@.take(sites@.len() as int) =~= sites@);
    (done, total)
}

/// Counts completed and active tasks like [`total_progress`], or returns `None`
/// when a count does not fit in `usize`.
pub fn total_progress_checked(sites: &[Site], state: &AppState) -> (r: Option<(usize, usize)>)
    requires
        state.wf(),
    ensures
        r is Some <==> (task_totals(*state, sites@).0 <= usize::MAX && task_totals(*state, sites@).1
            <= usize::MAX),
        r matches Some(c) ==> c.0 == task_totals(*state, sites@).0 && c.1 == task_totals(*state, sites@).1,
{
    let mut done: usize = 0;
    let mut total: usize = 0;
    let mut i: usize = 0;
    while i < sites.len()
        invariant
            state.wf(),
            i <= sites@.len(),
            done == task_totals(*state, sites@.take(i as int)).0,
            total == task_totals(*state, sites@.take(i as int)).1,
        decreases sites@.len() - i,
    {
        let site = sites[i];
        proof {
            assert(sites@.take(i + 1).drop_last() =~= sites@.take(i as int));
            assert(sites@.take(i + 1).last() == site);
            lemma_task_totals_prefix(*state, sites@, i + 1);
        }
        let discovery = discovery_status(state, site.id);
        let discovery_done: usize = if !str_eq(discovery.as_str(), "unchecked") { 1 } else { 0 };
        let include_removal = shows_removal_steps(discovery.as_str());
        let removal_total: usize = if include_removal { site.steps.len() } else { 0 };
        let removal_done: usize = if include_removal { completed_steps(state, site.id) } else { 0 };
        let next_done = match done.checked_add(discovery_done) {
            Some(d) => d.checked_add(removal_done),
            None => None,
        };
        let next_total = match total.checked_add(1) {
            Some(t) => t.checked_add(removal_total),
            None => None,
        };
        match (next_done, next_total) {
            (Some(d), Some(t)) => {
                done = d;
                total = t;
            },
            _ => {
                return None;
            },
        }
        i = i + 1;
    }
    assert(sites@.take(sites@.len() as int) =~= sites@);
    Some((done, total))
}

/// Stores a discovery record for a broker without touching its checklist.
pub fn record_status_choice(state: &mut AppState, site_id: &str, status: String, now: String)
    requires
        old(state).wf(),
    ensures
        final(state).wf(),
        final(state).discovery_map() == old(state).discovery_map().insert(
            site_id@,
            DiscoveryRecordView { status: status@, last_checked: now@ },
        ),
        final(state).progress@ == old(state).progress@,
        final(state).onboarding_complete == old(state).onboarding_complete,
        final(state).active_view == old(state).active_view,
        final(state).active_site == old(state).active_site,
        final(state).profile == old(state).profile,
{
    keyed_insert(
        &mut state.discovery,
        site_id.to_owned(),
        DiscoveryRecord { status, last_checked: now },
    );
}

/// Updates a broker discovery status and records the update time `now`.
/// Marking a broker found checks its first step; marking it not found clears its checklist.
pub fn set_discovery_status(state: &mut AppState, site_id: &str, status: &str, now: String)
    requires
        old(state).wf(),
    ensures
        final(state).wf(),
        final(state).discovery_map() == old(state).discovery_map().insert(
            site_id@,
            DiscoveryRecordView { status: status@, last_checked: now@ },
        ),
        final(state).progress_map() == (if status@ == "found"@ {
            old(state).progress_map().insert(site_id@, old(state).steps_of(site_id@).insert(0))
        } else if status@ == "not-found"@ {
            old(state).progress_map().remove(site_id@)
        } else {
            old(state).progress_map()
        }),
        final(state).onboarding_complete == old(state).onboarding_complete,
        final(state).active_view == old(state).active_view,
        final(state).active_site == old(state).active_site,
        final(state).profile == old(state).profile,
{
    record_status_choice(state, site_id, status.to_owned(), now);
    if str_eq(status, "found") {
        let mut steps: BTreeSet<usize> = match keyed_find(&state.progress, site_id) {
            Some(i) => {
                proof {
                    lemma_view_at(state.progress@, i as int);
                }
                state.progress[i].value.clone()
            },
            None => BTreeSet::new(),
        };
        steps.insert(0);
        keyed_insert(&mut state.progress, site_id.to_owned(), steps);
    } else if str_eq(status, "not-found") {
        keyed_remove(&mut state.progress, site_id);
    }
}

/// Marks checklist step `index` of a broker as done or not done.
pub fn set_step(state: &mut AppState, site_id: &str, index: usize, checked: bool)
    requires
        old(state).wf(),
    ensures
        final(state).wf(),
        final(state).progress_map() == old(state).progress_map().insert(
            site_id@,
            if checked {
                old(state).steps_of(site_id@).insert(index)
            } else {
                old(state).steps_of(site_id@).remove(index)
            },
        ),
        final(state).discovery@ == old(state).discovery@,
        final(state).onboarding_complete == old(state).onboarding_complete,
        final(state).active_view == old(state).active_view,
        final(state).active_site == old(state).active_site,
        final(state).profile == old(state).profile,
{
    let mut steps: BTreeSet<usize> = match keyed_find(&state.progress, site_id) {
        Some(i) => {
            proof {
                lemma_view_at(state.progress@, i as int);
            }
            state.progress[i].value.clone()
        },
        None => BTreeSet::new(),
    };
    if checked {
        steps.insert(index);
    } else {
        steps.remove(&index);
    }
    keyed_insert(&mut state.progress, site_id.to_owned(), steps);
}

/// Label and CSS class of the overall progress indicator.
pub open spec fn overall_status_of(done: int, total: int) -> (Seq<char>, Seq<char>) {
    if done == total && total > 0 {
        ("All complete"@, "done"@)
    } else if done > 0 {
        ("In progress"@, "doing"@)
    } else {
        ("Not started"@, "todo"@)
    }
}

/// Label and CSS class of the overall progress indicator.
pub fn overall_status(done: usize, total: usize) -> (r: (&'static str, &'static str))
    ensures
        (r.0@, r.1@) == overall_status_of(done as int, total as int),
{
    if done == total && total > 0 {
        ("All complete", "done")
    } else if done > 0 {
        ("In progress", "doing")
    } else {
        ("Not started", "todo")
    }
}

} // verus!
