//! Route links and broker selection for the workflow pages.

use vstd::prelude::*;
use vstd::string::*;
use crate::model::Site;
use crate::text::str_eq;

verus! {

/// The link for an app route below the `/opt-out` base path.
pub open spec fn route_href_of(path: Seq<char>) -> Seq<char> {
    if path == "/"@ {
        "/opt-out/"@
    } else {
        "/opt-out"@ + path
    }
}

/// Builds the link for an app route below the `/opt-out` base path.
pub fn route_href(path: &str) -> (r: String)
    ensures
        r@ == route_href_of(path@),
{
    if str_eq(path, "/") {
        "/opt-out/".to_owned()
    } else {
        "/opt-out".to_owned().concat(path)
    }
}

/// Some broker of the list has id `id`.
pub open spec fn has_site_id(sites: Seq<Site>, id: Seq<char>) -> bool {
    exists|i: int| 0 <= i < sites.len() && #[trigger] sites[i].id@ == id
}

/// The broker selected on a workflow page: the route's id when it names a
/// known broker, otherwise the broker selected before.
pub open spec fn selected_site_of(param: Option<Seq<char>>, sites: Seq<Site>, active: Seq<char>) -> Seq<char> {
    match param {
        Some(id) => if has_site_id(sites, id) {
            id
        } else {
            active
        },
        None => active,
    }
}

/// The characters of an optional string.
pub open spec fn opt_view(param: Option<&str>) -> Option<Seq<char>> {
    match param {
        Some(p) => Some(p@),
        None => None,
    }
}

/// Picks the broker selected on a workflow page from the route's `site_id` parameter.
pub fn selected_site_id(param: Option<&str>, sites: &[Site], active_site: &str) -> (r: String)
    ensures
        r@ == selected_site_of(opt_view(param), sites@, active_site@),
{
    match param {
        Some(id) => {
            let mut i: usize = 0;
            while i < sites.len()
                invariant
                    param == Some(id),
                    i <= sites@.len(),
                    forall|k: int| 0 <= k < i ==> #[trigger] sites@[k].id@ != id@,
                decreases sites@.len() - i,
            {
                if str_eq(sites[i].id, id) {
                    assert(has_site_id(sites@, id@)) by {
                        assert(sites@[i as int].id@ == id@);
                    }
                    return id.to_owned();
                }
                i = i + 1;
            }
            assert(!has_site_id(sites@, id@));
            active_site.to_owned()
        },
        None => active_site.to_owned(),
    }
}

/// CSS class of a broker's difficulty chip: highlighted for `Hard`.
pub fn difficulty_class(difficulty: &str) -> (r: &'static str)
    ensures
        r@ == (if difficulty@ == "Hard"@ {
            "pill doing"@
        } else {
            "pill todo"@
        }),
{
    if str_eq(difficulty, "Hard") {
        "pill doing"
    } else {
        "pill todo"
    }
}

} // verus!
