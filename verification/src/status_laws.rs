//! Properties of broker status labels and task counts, stated directly over
//! the saved status and step counts.

use vstd::prelude::*;
use crate::model::{AppState, Site};
use crate::routes::selected_site_of;
use crate::status::{overall_status_of, site_status_of, site_task_counts, task_totals};

verus! {

proof fn lemma_status_words_differ()
    ensures
        "found"@ != "not-found"@,
        "found"@ != "removed"@,
        "found"@ != "recheck"@,
        "found"@ != "unchecked"@,
        "recheck"@ != "not-found"@,
        "recheck"@ != "removed"@,
        "recheck"@ != "unchecked"@,
        "removed"@ != "not-found"@,
        "unchecked"@ != "not-found"@,
        "unchecked"@ != "removed"@,
        "Ready to verify"@ != "Removing"@,
        "Ready to verify"@ != "Found"@,
{
    reveal_strlit("found");
    reveal_strlit("not-found");
    reveal_strlit("removed");
    reveal_strlit("recheck");
    reveal_strlit("unchecked");
    reveal_strlit("Ready to verify");
    reveal_strlit("Removing");
    reveal_strlit("Found");
    assert("found"@[0] != "not-found"@[0]);
    assert("found"@[0] != "removed"@[0]);
    assert("found"@[0] != "recheck"@[0]);
    assert("found"@[0] != "unchecked"@[0]);
    assert("recheck"@[0] != "not-found"@[0]);
    assert("recheck"@[2] != "removed"@[2]);
    assert("recheck"@[0] != "unchecked"@[0]);
    assert("removed"@[0] != "not-found"@[0]);
    assert("unchecked"@[0] != "not-found"@[0]);
    assert("unchecked"@[0] != "removed"@[0]);
    assert("Ready to verify"@[2] != "Removing"@[2]);
    assert("Ready to verify"@[0] != "Found"@[0]);
}

/// A found broker is "Ready to verify" exactly when every checklist step is
/// done; with some but not all steps done it is "Removing"; with none, "Found".
pub proof fn law_found_broker_labels(complete: nat, steps: nat)
    ensures
        (site_status_of("found"@, complete, steps).0 == "Ready to verify"@) == (complete == steps),
        complete == steps ==> site_status_of("found"@, complete, steps) == ("Ready to verify"@, "done"@),
        0 < complete && complete != steps ==> site_status_of("found"@, complete, steps) == ("Removing"@, "doing"@),
        complete == 0 && steps > 0 ==> site_status_of("found"@, complete, steps) == ("Found"@, "found"@),
{
    lemma_status_words_differ();
}

/// A broker that is not found has a label set by its status alone, whatever its
/// checklist holds: not found, removed, recheck, and unchecked for anything else.
pub proof fn law_other_broker_labels(status: Seq<char>, complete: nat, steps: nat)
    requires
        status != "found"@,
    ensures
        status == "not-found"@ ==> site_status_of(status, complete, steps) == ("Not found"@, "done"@),
        status == "removed"@ ==> site_status_of(status, complete, steps) == ("Removed"@, "done"@),
        status == "recheck"@ ==> site_status_of(status, complete, steps) == ("Recheck"@, "doing"@),
        status != "not-found"@ && status != "removed"@ && status != "recheck"@
            ==> site_status_of(status, complete, steps) == ("Unchecked"@, "todo"@),
{
    lemma_status_words_differ();
}

/// A found or recheck broker adds one discovery task plus its checklist steps
/// to the total, and one plus its completed steps to what is done.
pub proof fn law_removal_broker_counts(state: AppState, site: Site)
    requires
        state.status_of(site.id@) == "found"@ || state.status_of(site.id@) == "recheck"@,
    ensures
        site_task_counts(state, site) == (1 + state.completed_of(site.id@), 1 + site.steps@.len()),
{
    lemma_status_words_differ();
}

/// An unchecked broker is one task, not done; a broker with any other status
/// that is neither found nor recheck is one task, done.
pub proof fn law_discovery_only_counts(state: AppState, site: Site)
    ensures
        state.status_of(site.id@) == "unchecked"@ ==> site_task_counts(state, site) == (0nat, 1nat),
        state.status_of(site.id@) != "unchecked"@ && state.status_of(site.id@) != "found"@
            && state.status_of(site.id@) != "recheck"@ ==> site_task_counts(state, site) == (1nat, 1nat),
{
    lemma_status_words_differ();
}

/// The totals of one broker are its own counts.
pub proof fn law_totals_single(state: AppState, site: Site)
    ensures
        task_totals(state, seq![site]) == site_task_counts(state, site),
{
    assert(seq![site].drop_last() =~= Seq::<Site>::empty());
    assert(task_totals(state, Seq::<Site>::empty()) == (0nat, 0nat));
    assert(seq![site].last() == site);
}

/// The totals of two lists put together are the sums of their totals.
pub proof fn law_totals_add(state: AppState, a: Seq<Site>, b: Seq<Site>)
    ensures
        task_totals(state, a + b).0 == task_totals(state, a).0 + task_totals(state, b).0,
        task_totals(state, a + b).1 == task_totals(state, a).1 + task_totals(state, b).1,
    decreases b.len(),
{
    if b.len() == 0 {
        assert(a + b =~= a);
    } else {
        assert((a + b).drop_last() =~= a + b.drop_last());
        assert((a + b).last() == b.last());
        law_totals_add(state, a, b.drop_last());
    }
}


/// The overall indicator reads "All complete" exactly when there are tasks and
/// all are done, "Not started" when none is done.
pub proof fn law_overall_status(done: int, total: int)
    requires
        0 <= done,
    ensures
        (overall_status_of(done, total).0 == "All complete"@) == (done == total && total > 0),
        done == 0 ==> overall_status_of(done, total) == ("Not started"@, "todo"@),
        0 < done && done != total ==> overall_status_of(done, total) == ("In progress"@, "doing"@),
{
    reveal_strlit("All complete");
    reveal_strlit("In progress");
    reveal_strlit("Not started");
    assert("All complete"@[0] != "In progress"@[0]);
    assert("All complete"@[0] != "Not started"@[0]);
}

/// A workflow route that names a listed broker selects that broker; a route
/// without a known broker keeps the broker selected before.
pub proof fn law_route_selects_listed_broker(id: Seq<char>, sites: Seq<Site>, active: Seq<char>, i: int)
    ensures
        0 <= i < sites.len() && sites[i].id@ == id ==> selected_site_of(Some(id), sites, active) == id,
        (forall|j: int| 0 <= j < sites.len() ==> #[trigger] sites[j].id@ != id) ==> selected_site_of(Some(id), sites, active) == active,
        selected_site_of(None, sites, active) == active,
{
}

} // verus!
