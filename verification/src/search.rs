//! Search URL generation, discovery queries, and support-template helpers.

use vstd::prelude::*;
use vstd::string::*;
use crate::encoding::{encode, url_encoded};
use crate::model::{Profile, ProfileView, SearchKind, Site};
use crate::text::{join_nonblank, join_nonblank_strs};

verus! {

/// First and last name joined by a space, blank parts left out.
pub open spec fn full_name_of(p: ProfileView) -> Seq<char> {
    join_nonblank(seq![p.first_name, p.last_name], " "@)
}

/// City and state joined by a comma and a space, blank parts left out.
pub open spec fn location_of(p: ProfileView) -> Seq<char> {
    join_nonblank(seq![p.city, p.state], ", "@)
}

/// `placeholder` when `value` is empty, otherwise `value`.
pub open spec fn placeholder_of(value: Seq<char>, placeholder: Seq<char>) -> Seq<char> {
    if value.len() == 0 {
        placeholder
    } else {
        value
    }
}

/// A Google search URL for `query`.
pub open spec fn google_url(query: Seq<char>) -> Seq<char> {
    "https://www.google.com/search?q="@ + url_encoded(query)
}

/// A Bing search URL for `query`.
pub open spec fn bing_url(query: Seq<char>) -> Seq<char> {
    "https://www.bing.com/search?q="@ + url_encoded(query)
}

/// The home page of a broker domain.
pub open spec fn home_url(domain: Seq<char>) -> Seq<char> {
    "https://www."@ + domain + "/"@
}

/// The search link for a broker of the given kind and domain.
pub open spec fn search_url_of(kind: SearchKind, domain: Seq<char>, p: ProfileView) -> Seq<char> {
    match kind {
        SearchKind::Direct(prefix) => {
            let query = join_nonblank(seq![p.first_name, p.last_name, p.city, p.state], " "@);
            if query.len() == 0 {
                home_url(domain)
            } else {
                prefix@ + url_encoded(query)
            }
        },
        SearchKind::GoogleSite => google_url(
            full_name_of(p) + " "@ + location_of(p) + " site:"@ + domain,
        ),
        SearchKind::GooglePhoneOrName => {
            let needle = if p.phone.len() == 0 {
                full_name_of(p)
            } else {
                p.phone
            };
            google_url(needle + " site:"@ + domain)
        },
        SearchKind::GoogleNameAddress => google_url(
            full_name_of(p) + " "@ + p.address + " site:"@ + domain,
        ),
        SearchKind::PhonePath(prefix) => {
            if p.phone.len() == 0 {
                home_url(domain)
            } else {
                prefix@ + url_encoded(p.phone)
            }
        },
    }
}

/// Joins first and last name while omitting blank parts.
pub fn full_name(profile: &Profile) -> (r: String)
    ensures
        r@ == full_name_of(profile@),
{
    let parts = [profile.first_name.as_str(), profile.last_name.as_str()];
    let r = join_nonblank_strs(&parts, " ");
    assert(parts@.map_values(|s: &str| s@) =~= seq![profile.first_name@, profile.last_name@]);
    r
}

/// Joins city and state while omitting blank parts.
pub fn location(profile: &Profile) -> (r: String)
    ensures
        r@ == location_of(profile@),
{
    let parts = [profile.city.as_str(), profile.state.as_str()];
    let r = join_nonblank_strs(&parts, ", ");
    assert(parts@.map_values(|s: &str| s@) =~= seq![profile.city@, profile.state@]);
    r
}

/// Returns a placeholder when a template field has no user-provided value.
pub fn empty_placeholder(value: &str, placeholder: &str) -> (r: String)
    ensures
        r@ == placeholder_of(value@, placeholder@),
{
    if value.is_empty() {
        placeholder.to_owned()
    } else {
        value.to_owned()
    }
}

/// Builds a Google search URL for an arbitrary query.
pub fn google_search(query: &str) -> (r: String)
    ensures
        r@ == google_url(query@),
{
    let encoded = encode(query);
    "https://www.google.com/search?q=".to_owned().concat(encoded.as_str())
}

/// Builds a Bing search URL for an arbitrary query.
pub fn bing_search(query: &str) -> (r: String)
    ensures
        r@ == bing_url(query@),
{
    let encoded = encode(query);
    "https://www.bing.com/search?q=".to_owned().concat(encoded.as_str())
}

fn home_page(domain: &str) -> (r: String)
    ensures
        r@ == home_url(domain@),
{
    "https://www.".to_owned().concat(domain).concat("/")
}

/// Builds the best available broker search URL from site metadata and profile data.
pub fn search_url(site: &Site, profile: &Profile) -> (r: String)
    ensures
        r@ == search_url_of(site.search_kind, site.domain@, profile@),
{
    match site.search_kind {
        SearchKind::Direct(prefix) => {
            let parts = [
                profile.first_name.as_str(),
                profile.last_name.as_str(),
                profile.city.as_str(),
                profile.state.as_str(),
            ];
            let query = join_nonblank_strs(&parts, " ");
            assert(parts@.map_values(|s: &str| s@) =~= seq![
                profile.first_name@,
                profile.last_name@,
                profile.city@,
                profile.state@,
            ]);
            if query.as_str().is_empty() {
                home_page(site.domain)
            } else {
                let encoded = encode(query.as_str());
                prefix.to_owned().concat(encoded.as_str())
            }
        },
        SearchKind::GoogleSite => {
            let q = full_name(profile).concat(" ").concat(location(profile).as_str()).concat(
                " site:",
            ).concat(site.domain);
            google_search(q.as_str())
        },
        SearchKind::GooglePhoneOrName => {
            let needle = if profile.phone.as_str().is_empty() {
                full_name(profile)
            } else {
                profile.phone.clone()
            };
            let q = needle.concat(" site:").concat(site.domain);
            google_search(q.as_str())
        },
        SearchKind::GoogleNameAddress => {
            let q = full_name(profile).concat(" ").concat(profile.address.as_str()).concat(
                " site:",
            ).concat(site.domain);
            google_search(q.as_str())
        },
        SearchKind::PhonePath(prefix) => {
            if profile.phone.as_str().is_empty() {
                home_page(site.domain)
            } else {
                let encoded = encode(profile.phone.as_str());
                prefix.to_owned().concat(encoded.as_str())
            }
        },
    }
}

/// Percentage shown by the progress bar: `done * 100 / total`, where the product
/// saturates at `usize::MAX`; zero when `total` is zero or the quotient exceeds `i32::MAX`.
pub open spec fn progress_percent_of(done: int, total: int) -> int {
    if total == 0 {
        0
    } else {
        let scaled = if done * 100 > usize::MAX {
            usize::MAX as int
        } else {
            done * 100
        };
        let p = scaled / total;
        if p <= i32::MAX {
            p
        } else {
            0
        }
    }
}

/// Converts completed and total counts into a progress-bar percentage.
pub fn progress_percent(done: usize, total: usize) -> (r: i32)
    ensures
        r as int == progress_percent_of(done as int, total as int),
{
    if total == 0 {
        return 0;
    }
    let scaled: usize = if done <= usize::MAX / 100 {
        assert(done * 100 <= usize::MAX) by (nonlinear_arith)
            requires
                done <= usize::MAX / 100,
        ;
        done * 100
    } else {
        assert(done * 100 > usize::MAX) by (nonlinear_arith)
            requires
                done > usize::MAX / 100,
        ;
        usize::MAX
    };
    let p = scaled / total;
    if p <= 2147483647 {
        p as i32
    } else {
        0
    }
}

/// `text` in double quotes.
pub open spec fn quoted(text: Seq<char>) -> Seq<char> {
    "\""@ + text + "\""@
}

/// A one-element list when `cond` holds, otherwise empty.
pub open spec fn one_if(cond: bool, item: (Seq<char>, Seq<char>)) -> Seq<(Seq<char>, Seq<char>)> {
    if cond {
        seq![item]
    } else {
        Seq::empty()
    }
}

/// The labelled search-engine queries built from a profile.
pub open spec fn discovery_queries_of(p: ProfileView) -> Seq<(Seq<char>, Seq<char>)> {
    let name = full_name_of(p);
    let place = location_of(p);
    let has_phone = p.phone.len() > 0;
    let has_address = p.address.len() > 0;
    let has_name = name.len() > 0;
    let has_both = has_name && place.len() > 0;
    let built = one_if(has_phone, ("Exact phone"@, quoted(p.phone)))
        + one_if(has_address, ("Exact address"@, quoted(p.address)))
        + one_if(has_both, ("Name and city"@, quoted(name) + " "@ + quoted(place)))
        + one_if(has_name, ("People-search language"@, quoted(name) + " \"possible relatives\""@))
        + one_if(has_name, ("Background-check language"@, quoted(name) + " \"background check\""@))
        + one_if(has_phone, ("Reverse lookup"@, quoted(p.phone) + " \"reverse phone\""@))
        + one_if(has_address, ("Public records"@, quoted(p.address) + " \"public records\""@))
        + one_if(has_both, ("Broker clones"@, quoted(name) + " "@ + quoted(place) + " \"age\""@));
    if built.len() == 0 {
        seq![
            ("Phone in quotes"@, "\"555-123-4567\""@),
            ("Name and city"@, "\"Jane Doe\" \"Rockville, MD\""@),
            ("People-search language"@, "\"Jane Doe\" \"possible relatives\""@),
        ]
    } else {
        built
    }
}

/// The characters of each label and query.
pub open spec fn pair_views(v: Seq<(String, String)>) -> Seq<(Seq<char>, Seq<char>)> {
    v.map_values(|q: (String, String)| (q.0@, q.1@))
}

fn quote(text: &str) -> (r: String)
    ensures
        r@ == quoted(text@),
{
    "\"".to_owned().concat(text).concat("\"")
}

fn push_if(out: &mut Vec<(String, String)>, cond: bool, label: &str, query: String)
    ensures
        pair_views(final(out)@) == pair_views(old(out)@) + one_if(cond, (label@, query@)),
{
    let ghost before = out@;
    if cond {
        out.push((label.to_owned(), query));
        assert(pair_views(out@) =~= pair_views(before) + seq![(label@, query@)]);
    } else {
        assert(pair_views(out@) =~= pair_views(before) + Seq::<(Seq<char>, Seq<char>)>::empty());
    }
}

/// Creates broad search-engine discovery queries from the local profile.
pub fn discovery_queries(profile: &Profile) -> (r: Vec<(String, String)>)
    ensures
        pair_views(r@) == discovery_queries_of(profile@),
        r@.len() > 0,
{
    let mut queries: Vec<(String, String)> = Vec::new();
    let name = full_name(profile);
    let place = location(profile);
    let has_phone = !profile.phone.as_str().is_empty();
    let has_address = !profile.address.as_str().is_empty();
    let has_name = !name.as_str().is_empty();
    let has_both = has_name && !place.as_str().is_empty();
    assert(pair_views(queries@) =~= Seq::<(Seq<char>, Seq<char>)>::empty());
    push_if(&mut queries, has_phone, "Exact phone", quote(profile.phone.as_str()));
    push_if(&mut queries, has_address, "Exact address", quote(profile.address.as_str()));
    push_if(
        &mut queries,
        has_both,
        "Name and city",
        quote(name.as_str()).concat(" ").concat(quote(place.as_str()).as_str()),
    );
    push_if(
        &mut queries,
        has_name,
        "People-search language",
        quote(name.as_str()).concat(" \"possible relatives\""),
    );
    push_if(
        &mut queries,
        has_name,
        "Background-check language",
        quote(name.as_str()).concat(" \"background check\""),
    );
    push_if(
        &mut queries,
        has_phone,
        "Reverse lookup",
        quote(profile.phone.as_str()).concat(" \"reverse phone\""),
    );
    push_if(
        &mut queries,
        has_address,
        "Public records",
        quote(profile.address.as_str()).concat(" \"public records\""),
    );
    push_if(
        &mut queries,
        has_both,
        "Broker clones",
        quote(name.as_str()).concat(" ").concat(quote(place.as_str()).as_str()).concat(" \"age\""),
    );
    if queries.len() == 0 {
        let ghost before = queries@;
        queries.push(("Phone in quotes".to_owned(), "\"555-123-4567\"".to_owned()));
        queries.push(("Name and city".to_owned(), "\"Jane Doe\" \"Rockville, MD\"".to_owned()));
        queries.push(
            (
                "People-search language".to_owned(),
                "\"Jane Doe\" \"possible relatives\"".to_owned(),
            ),
        );
        assert(pair_views(queries@) =~= seq![
            ("Phone in quotes"@, "\"555-123-4567\""@),
            ("Name and city"@, "\"Jane Doe\" \"Rockville, MD\""@),
            ("People-search language"@, "\"Jane Doe\" \"possible relatives\""@),
        ]);
    }
    queries
}

/// The text of the reusable broker support request.
pub open spec fn support_template_of(p: ProfileView) -> Seq<char> {
    "Hello,\n\nI am requesting removal or suppression of my personal information from your site. Please remove records matching:\n\nName: "@
        + placeholder_of(full_name_of(p), "[your full name]"@) + "\nLocation: "@
        + placeholder_of(location_of(p), "[city, state]"@) + "\nPhone: "@
        + placeholder_of(p.phone, "[phone number, if relevant]"@) + "\nAddress: "@
        + placeholder_of(p.address, "[street address, if relevant]"@) + "\nProfile URL(s): "@
        + placeholder_of(p.notes, "[paste profile URLs here]"@)
        + "\n\nI am the subject of this request. Please confirm once the records have been removed or tell me what additional information is required to identify the listing.\n\nThank you."@
}

/// Generates a reusable broker support request from profile fields.
pub fn support_template(profile: &Profile) -> (r: String)
    ensures
        r@ == support_template_of(profile@),
{
    let name = full_name(profile);
    let place = location(profile);
    "Hello,\n\nI am requesting removal or suppression of my personal information from your site. Please remove records matching:\n\nName: ".to_owned()
        .concat(empty_placeholder(name.as_str(), "[your full name]").as_str())
        .concat("\nLocation: ")
        .concat(empty_placeholder(place.as_str(), "[city, state]").as_str())
        .concat("\nPhone: ")
        .concat(empty_placeholder(profile.phone.as_str(), "[phone number, if relevant]").as_str())
        .concat("\nAddress: ")
        .concat(empty_placeholder(profile.address.as_str(), "[street address, if relevant]").as_str())
        .concat("\nProfile URL(s): ")
        .concat(empty_placeholder(profile.notes.as_str(), "[paste profile URLs here]").as_str())
        .concat("\n\nI am the subject of this request. Please confirm once the records have been removed or tell me what additional information is required to identify the listing.\n\nThank you.")
}

} // verus!
