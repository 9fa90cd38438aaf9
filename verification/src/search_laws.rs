//! Properties of broker search links, discovery queries, and progress labels,
//! stated directly over the profile fields.

use vstd::prelude::*;
use crate::encoding::url_encoded;
use crate::model::{ProfileView, SearchKind};
use crate::search::{discovery_queries_of, full_name_of, location_of, progress_percent_of, search_url_of, support_template_of};
use crate::text::join_nonblank;

verus! {

proof fn lemma_join_two(a: Seq<char>, b: Seq<char>, sep: Seq<char>)
    ensures
        join_nonblank(seq![a, b], sep) == (if a.len() == 0 {
            b
        } else if b.len() == 0 {
            a
        } else {
            a + sep + b
        }),
{
    let e = Seq::<Seq<char>>::empty();
    assert(seq![a].drop_last() =~= e);
    assert(join_nonblank(e, sep) == Seq::<char>::empty());
    assert(seq![a].last() == a);
    assert(join_nonblank(seq![a], sep) == (if a.len() == 0 { Seq::<char>::empty() } else { a }));
    assert(seq![a, b].drop_last() =~= seq![a]);
    assert(seq![a, b].last() == b);
}

proof fn lemma_join_four(a: Seq<char>, b: Seq<char>, c: Seq<char>, d: Seq<char>, sep: Seq<char>)
    ensures
        join_nonblank(seq![a, b, c, d], sep) == {
            let ab = join_nonblank(seq![a, b], sep);
            let abc = if c.len() == 0 {
                ab
            } else if ab.len() == 0 {
                c
            } else {
                ab + sep + c
            };
            if d.len() == 0 {
                abc
            } else if abc.len() == 0 {
                d
            } else {
                abc + sep + d
            }
        },
{
    assert(seq![a, b, c, d].drop_last() =~= seq![a, b, c]);
    assert(seq![a, b, c, d].last() == d);
    assert(seq![a, b, c].drop_last() =~= seq![a, b]);
    assert(seq![a, b, c].last() == c);
    let ab = join_nonblank(seq![a, b], sep);
    let abc = if c.len() == 0 {
        ab
    } else if ab.len() == 0 {
        c
    } else {
        ab + sep + c
    };
    assert(join_nonblank(seq![a, b, c], sep) == abc);
}

/// A broker with a direct search URL gets its prefix followed by the encoded
/// first name, last name, city and state, separated by single spaces, when all
/// four are filled in.
pub proof fn law_direct_search_uses_all_fields(prefix: &'static str, domain: Seq<char>, p: ProfileView)
    requires
        p.first_name.len() > 0,
        p.last_name.len() > 0,
        p.city.len() > 0,
        p.state.len() > 0,
    ensures
        search_url_of(SearchKind::Direct(prefix), domain, p) == prefix@ + url_encoded(
            p.first_name + " "@ + p.last_name + " "@ + p.city + " "@ + p.state,
        ),
{
    lemma_join_four(p.first_name, p.last_name, p.city, p.state, " "@);
    lemma_join_two(p.first_name, p.last_name, " "@);
}

/// Blank name and location fields are left out of a direct search: with only a
/// city, the query is the city; with nothing, the link is the broker's home page.
pub proof fn law_direct_search_skips_blank_fields(prefix: &'static str, domain: Seq<char>, p: ProfileView)
    ensures
        p.first_name.len() == 0 && p.last_name.len() == 0 && p.city.len() > 0 && p.state.len() == 0
            ==> search_url_of(SearchKind::Direct(prefix), domain, p) == prefix@ + url_encoded(p.city),
        p.first_name.len() == 0 && p.last_name.len() > 0 && p.city.len() > 0 && p.state.len() == 0
            ==> search_url_of(SearchKind::Direct(prefix), domain, p) == prefix@ + url_encoded(
            p.last_name + " "@ + p.city,
        ),
        p.first_name.len() == 0 && p.last_name.len() == 0 && p.city.len() == 0 && p.state.len() == 0
            ==> search_url_of(SearchKind::Direct(prefix), domain, p) == "https://www."@ + domain + "/"@,
{
    lemma_join_four(p.first_name, p.last_name, p.city, p.state, " "@);
    lemma_join_two(p.first_name, p.last_name, " "@);
}


proof fn lemma_concat_contains<T>(a: Seq<T>, b: Seq<T>, e: T)
    ensures
        a.contains(e) ==> (a + b).contains(e),
        b.contains(e) ==> (a + b).contains(e),
{
    if a.contains(e) {
        let i = choose|i: int| 0 <= i < a.len() && a[i] == e;
        assert((a + b)[i] == e);
    }
    if b.contains(e) {
        let i = choose|i: int| 0 <= i < b.len() && b[i] == e;
        assert((a + b)[a.len() + i] == e);
    }
}

/// `e` is one of the eight parts' items, so it is in their concatenation.
proof fn lemma_in_parts<T>(
    q1: Seq<T>, q2: Seq<T>, q3: Seq<T>, q4: Seq<T>,
    q5: Seq<T>, q6: Seq<T>, q7: Seq<T>, q8: Seq<T>,
    e: T,
)
    requires
        q1.contains(e) || q2.contains(e) || q3.contains(e) || q4.contains(e) || q5.contains(e)
            || q6.contains(e) || q7.contains(e) || q8.contains(e),
    ensures
        (q1 + q2 + q3 + q4 + q5 + q6 + q7 + q8).contains(e),
{
    lemma_concat_contains(q1, q2, e);
    lemma_concat_contains(q1 + q2, q3, e);
    lemma_concat_contains(q1 + q2 + q3, q4, e);
    lemma_concat_contains(q1 + q2 + q3 + q4, q5, e);
    lemma_concat_contains(q1 + q2 + q3 + q4 + q5, q6, e);
    lemma_concat_contains(q1 + q2 + q3 + q4 + q5 + q6, q7, e);
    lemma_concat_contains(q1 + q2 + q3 + q4 + q5 + q6 + q7, q8, e);
}

/// The eight query groups of a profile, in order; each holds its query exactly
/// when its fields are filled in.
proof fn lemma_query_parts(p: ProfileView) -> (parts: (
    Seq<(Seq<char>, Seq<char>)>, Seq<(Seq<char>, Seq<char>)>, Seq<(Seq<char>, Seq<char>)>,
    Seq<(Seq<char>, Seq<char>)>, Seq<(Seq<char>, Seq<char>)>, Seq<(Seq<char>, Seq<char>)>,
    Seq<(Seq<char>, Seq<char>)>, Seq<(Seq<char>, Seq<char>)>,
))
    ensures
        ({
            let (q1, q2, q3, q4, q5, q6, q7, q8) = parts;
            let name = full_name_of(p);
            let place = location_of(p);
            let built = q1 + q2 + q3 + q4 + q5 + q6 + q7 + q8;
            &&& discovery_queries_of(p) == (if built.len() == 0 {
                seq![
                    ("Phone in quotes"@, "\"555-123-4567\""@),
                    ("Name and city"@, "\"Jane Doe\" \"Rockville, MD\""@),
                    ("People-search language"@, "\"Jane Doe\" \"possible relatives\""@),
                ]
            } else {
                built
            })
            &&& q1 == (if p.phone.len() > 0 { seq![("Exact phone"@, "\""@ + p.phone + "\""@)] } else { Seq::empty() })
            &&& q2 == (if p.address.len() > 0 { seq![("Exact address"@, "\""@ + p.address + "\""@)] } else { Seq::empty() })
            &&& q3 == (if name.len() > 0 && place.len() > 0 {
                seq![("Name and city"@, "\""@ + name + "\""@ + " "@ + ("\""@ + place + "\""@))]
            } else {
                Seq::empty()
            })
            &&& q4 == (if name.len() > 0 {
                seq![("People-search language"@, "\""@ + name + "\""@ + " \"possible relatives\""@)]
            } else {
                Seq::empty()
            })
            &&& q5 == (if name.len() > 0 {
                seq![("Background-check language"@, "\""@ + name + "\""@ + " \"background check\""@)]
            } else {
                Seq::empty()
            })
            &&& q6 == (if p.phone.len() > 0 {
                seq![("Reverse lookup"@, "\""@ + p.phone + "\""@ + " \"reverse phone\""@)]
            } else {
                Seq::empty()
            })
            &&& q7 == (if p.address.len() > 0 {
                seq![("Public records"@, "\""@ + p.address + "\""@ + " \"public records\""@)]
            } else {
                Seq::empty()
            })
            &&& q8 == (if name.len() > 0 && place.len() > 0 {
                seq![("Broker clones"@, "\""@ + name + "\""@ + " "@ + ("\""@ + place + "\""@) + " \"age\""@)]
            } else {
                Seq::empty()
            })
        }),
{
    let name = full_name_of(p);
    let place = location_of(p);
    let has_phone = p.phone.len() > 0;
    let has_address = p.address.len() > 0;
    let has_name = name.len() > 0;
    let has_both = has_name && place.len() > 0;
    (
        crate::search::one_if(has_phone, ("Exact phone"@, crate::search::quoted(p.phone))),
        crate::search::one_if(has_address, ("Exact address"@, crate::search::quoted(p.address))),
        crate::search::one_if(has_both, ("Name and city"@, crate::search::quoted(name) + " "@ + crate::search::quoted(place))),
        crate::search::one_if(has_name, ("People-search language"@, crate::search::quoted(name) + " \"possible relatives\""@)),
        crate::search::one_if(has_name, ("Background-check language"@, crate::search::quoted(name) + " \"background check\""@)),
        crate::search::one_if(has_phone, ("Reverse lookup"@, crate::search::quoted(p.phone) + " \"reverse phone\""@)),
        crate::search::one_if(has_address, ("Public records"@, crate::search::quoted(p.address) + " \"public records\""@)),
        crate::search::one_if(has_both, ("Broker clones"@, crate::search::quoted(name) + " "@ + crate::search::quoted(place) + " \"age\""@)),
    )
}

/// A filled-in phone number always yields the exact-phone and reverse-lookup
/// queries, whatever else the profile holds.
pub proof fn law_phone_queries(p: ProfileView)
    requires
        p.phone.len() > 0,
    ensures
        discovery_queries_of(p).contains(("Exact phone"@, "\""@ + p.phone + "\""@)),
        discovery_queries_of(p).contains(("Reverse lookup"@, "\""@ + p.phone + "\""@ + " \"reverse phone\""@)),
{
    let (q1, q2, q3, q4, q5, q6, q7, q8) = lemma_query_parts(p);
    let e1 = ("Exact phone"@, "\""@ + p.phone + "\""@);
    let e6 = ("Reverse lookup"@, "\""@ + p.phone + "\""@ + " \"reverse phone\""@);
    assert(q1[0] == e1);
    assert(q6[0] == e6);
    lemma_in_parts(q1, q2, q3, q4, q5, q6, q7, q8, e1);
    lemma_in_parts(q1, q2, q3, q4, q5, q6, q7, q8, e6);
}

/// A filled-in street address always yields the exact-address and public-records queries.
pub proof fn law_address_queries(p: ProfileView)
    requires
        p.address.len() > 0,
    ensures
        discovery_queries_of(p).contains(("Exact address"@, "\""@ + p.address + "\""@)),
        discovery_queries_of(p).contains(("Public records"@, "\""@ + p.address + "\""@ + " \"public records\""@)),
{
    let (q1, q2, q3, q4, q5, q6, q7, q8) = lemma_query_parts(p);
    let e2 = ("Exact address"@, "\""@ + p.address + "\""@);
    let e7 = ("Public records"@, "\""@ + p.address + "\""@ + " \"public records\""@);
    assert(q2[0] == e2);
    assert(q7[0] == e7);
    lemma_in_parts(q1, q2, q3, q4, q5, q6, q7, q8, e2);
    lemma_in_parts(q1, q2, q3, q4, q5, q6, q7, q8, e7);
}

/// A filled-in name always yields the people-search and background-check
/// queries; with a location too, the name-and-city and broker-clone queries.
pub proof fn law_name_queries(p: ProfileView)
    requires
        full_name_of(p).len() > 0,
    ensures
        discovery_queries_of(p).contains(
            ("People-search language"@, "\""@ + full_name_of(p) + "\""@ + " \"possible relatives\""@),
        ),
        discovery_queries_of(p).contains(
            ("Background-check language"@, "\""@ + full_name_of(p) + "\""@ + " \"background check\""@),
        ),
        location_of(p).len() > 0 ==> discovery_queries_of(p).contains(
            ("Name and city"@, "\""@ + full_name_of(p) + "\""@ + " "@ + ("\""@ + location_of(p) + "\""@)),
        ),
        location_of(p).len() > 0 ==> discovery_queries_of(p).contains(
            ("Broker clones"@, "\""@ + full_name_of(p) + "\""@ + " "@ + ("\""@ + location_of(p) + "\""@) + " \"age\""@),
        ),
{
    let (q1, q2, q3, q4, q5, q6, q7, q8) = lemma_query_parts(p);
    let name = full_name_of(p);
    let place = location_of(p);
    let e4 = ("People-search language"@, "\""@ + name + "\""@ + " \"possible relatives\""@);
    let e5 = ("Background-check language"@, "\""@ + name + "\""@ + " \"background check\""@);
    assert(q4[0] == e4);
    assert(q5[0] == e5);
    lemma_in_parts(q1, q2, q3, q4, q5, q6, q7, q8, e4);
    lemma_in_parts(q1, q2, q3, q4, q5, q6, q7, q8, e5);
    if place.len() > 0 {
        let e3 = ("Name and city"@, "\""@ + name + "\""@ + " "@ + ("\""@ + place + "\""@));
        let e8 = ("Broker clones"@, "\""@ + name + "\""@ + " "@ + ("\""@ + place + "\""@) + " \"age\""@);
        assert(q3[0] == e3);
        assert(q8[0] == e8);
        lemma_in_parts(q1, q2, q3, q4, q5, q6, q7, q8, e3);
        lemma_in_parts(q1, q2, q3, q4, q5, q6, q7, q8, e8);
    }
}

/// The number of queries: two for a phone, two for an address, two for a name
/// and two more for a name with a location; three examples when that is zero.
pub proof fn law_query_count(p: ProfileView)
    ensures
        ({
            let n = (if p.phone.len() > 0 { 2int } else { 0int })
                + (if p.address.len() > 0 { 2int } else { 0int })
                + (if full_name_of(p).len() > 0 { 2int } else { 0int })
                + (if full_name_of(p).len() > 0 && location_of(p).len() > 0 { 2int } else { 0int });
            discovery_queries_of(p).len() == (if n == 0 { 3 } else { n })
        }),
{
    let (q1, q2, q3, q4, q5, q6, q7, q8) = lemma_query_parts(p);
}

/// Without phone, address and name, the queries are the three worked examples.
pub proof fn law_query_examples(p: ProfileView)
    requires
        p.phone.len() == 0,
        p.address.len() == 0,
        p.first_name.len() == 0,
        p.last_name.len() == 0,
    ensures
        discovery_queries_of(p) == seq![
            ("Phone in quotes"@, "\"555-123-4567\""@),
            ("Name and city"@, "\"Jane Doe\" \"Rockville, MD\""@),
            ("People-search language"@, "\"Jane Doe\" \"possible relatives\""@),
        ],
{
    lemma_join_two(p.first_name, p.last_name, " "@);
    let (q1, q2, q3, q4, q5, q6, q7, q8) = lemma_query_parts(p);
}

/// The full name is the first and last name separated by one space, or the one
/// that is filled in.
pub proof fn law_full_name(p: ProfileView)
    ensures
        p.first_name.len() > 0 && p.last_name.len() > 0 ==> full_name_of(p) == p.first_name + " "@ + p.last_name,
        p.first_name.len() > 0 && p.last_name.len() == 0 ==> full_name_of(p) == p.first_name,
        p.first_name.len() == 0 ==> full_name_of(p) == p.last_name,
{
    lemma_join_two(p.first_name, p.last_name, " "@);
}

/// The location is the city and state separated by a comma and a space, or the
/// one that is filled in.
pub proof fn law_location(p: ProfileView)
    ensures
        p.city.len() > 0 && p.state.len() > 0 ==> location_of(p) == p.city + ", "@ + p.state,
        p.city.len() > 0 && p.state.len() == 0 ==> location_of(p) == p.city,
        p.city.len() == 0 ==> location_of(p) == p.state,
{
    lemma_join_two(p.city, p.state, ", "@);
}


/// Google `site:` searches for a fully filled-in profile: name and location,
/// phone (or the name when there is no phone), or name and street address,
/// each followed by ` site:` and the broker's domain.
pub proof fn law_google_searches(domain: Seq<char>, p: ProfileView)
    requires
        p.first_name.len() > 0,
        p.last_name.len() > 0,
    ensures
        p.city.len() > 0 && p.state.len() > 0 ==> search_url_of(SearchKind::GoogleSite, domain, p)
            == "https://www.google.com/search?q="@ + url_encoded(
            p.first_name + " "@ + p.last_name + " "@ + (p.city + ", "@ + p.state) + " site:"@ + domain,
        ),
        p.phone.len() > 0 ==> search_url_of(SearchKind::GooglePhoneOrName, domain, p)
            == "https://www.google.com/search?q="@ + url_encoded(p.phone + " site:"@ + domain),
        p.phone.len() == 0 ==> search_url_of(SearchKind::GooglePhoneOrName, domain, p)
            == "https://www.google.com/search?q="@ + url_encoded(p.first_name + " "@ + p.last_name + " site:"@ + domain),
        search_url_of(SearchKind::GoogleNameAddress, domain, p) == "https://www.google.com/search?q="@
            + url_encoded(p.first_name + " "@ + p.last_name + " "@ + p.address + " site:"@ + domain),
{
    lemma_join_two(p.first_name, p.last_name, " "@);
    lemma_join_two(p.city, p.state, ", "@);
}

/// A phone-path broker gets its prefix followed by the encoded phone number, or
/// its home page when no phone number is filled in.
pub proof fn law_phone_path_search(prefix: &'static str, domain: Seq<char>, p: ProfileView)
    ensures
        p.phone.len() > 0 ==> search_url_of(SearchKind::PhonePath(prefix), domain, p) == prefix@ + url_encoded(p.phone),
        p.phone.len() == 0 ==> search_url_of(SearchKind::PhonePath(prefix), domain, p) == "https://www."@ + domain + "/"@,
{
}


/// With every field filled in, the queries come in this order: exact phone,
/// exact address, name and city, people-search, background-check, reverse
/// lookup, public records, broker clones.
pub proof fn law_full_profile_query_order(p: ProfileView)
    requires
        p.first_name.len() > 0,
        p.last_name.len() > 0,
        p.city.len() > 0,
        p.state.len() > 0,
        p.phone.len() > 0,
        p.address.len() > 0,
    ensures
        ({
            let name = p.first_name + " "@ + p.last_name;
            let place = p.city + ", "@ + p.state;
            discovery_queries_of(p) == seq![
                ("Exact phone"@, "\""@ + p.phone + "\""@),
                ("Exact address"@, "\""@ + p.address + "\""@),
                ("Name and city"@, "\""@ + name + "\""@ + " "@ + ("\""@ + place + "\""@)),
                ("People-search language"@, "\""@ + name + "\""@ + " \"possible relatives\""@),
                ("Background-check language"@, "\""@ + name + "\""@ + " \"background check\""@),
                ("Reverse lookup"@, "\""@ + p.phone + "\""@ + " \"reverse phone\""@),
                ("Public records"@, "\""@ + p.address + "\""@ + " \"public records\""@),
                ("Broker clones"@, "\""@ + name + "\""@ + " "@ + ("\""@ + place + "\""@) + " \"age\""@),
            ]
        }),
{
    lemma_join_two(p.first_name, p.last_name, " "@);
    lemma_join_two(p.city, p.state, ", "@);
    let (q1, q2, q3, q4, q5, q6, q7, q8) = lemma_query_parts(p);
    let name = p.first_name + " "@ + p.last_name;
    let place = p.city + ", "@ + p.state;
    assert(discovery_queries_of(p) =~= seq![
        ("Exact phone"@, "\""@ + p.phone + "\""@),
        ("Exact address"@, "\""@ + p.address + "\""@),
        ("Name and city"@, "\""@ + name + "\""@ + " "@ + ("\""@ + place + "\""@)),
        ("People-search language"@, "\""@ + name + "\""@ + " \"possible relatives\""@),
        ("Background-check language"@, "\""@ + name + "\""@ + " \"background check\""@),
        ("Reverse lookup"@, "\""@ + p.phone + "\""@ + " \"reverse phone\""@),
        ("Public records"@, "\""@ + p.address + "\""@ + " \"public records\""@),
        ("Broker clones"@, "\""@ + name + "\""@ + " "@ + ("\""@ + place + "\""@) + " \"age\""@),
    ]);
}

/// The support request names each field, or its placeholder when the field is blank.
pub proof fn law_support_template_fields(p: ProfileView)
    ensures
        ({
            let name = if p.first_name.len() == 0 && p.last_name.len() == 0 {
                "[your full name]"@
            } else {
                full_name_of(p)
            };
            let place = if p.city.len() == 0 && p.state.len() == 0 {
                "[city, state]"@
            } else {
                location_of(p)
            };
            let phone = if p.phone.len() == 0 { "[phone number, if relevant]"@ } else { p.phone };
            let address = if p.address.len() == 0 { "[street address, if relevant]"@ } else { p.address };
            let notes = if p.notes.len() == 0 { "[paste profile URLs here]"@ } else { p.notes };
            support_template_of(p) == "Hello,\n\nI am requesting removal or suppression of my personal information from your site. Please remove records matching:\n\nName: "@
                + name + "\nLocation: "@ + place + "\nPhone: "@ + phone + "\nAddress: "@ + address
                + "\nProfile URL(s): "@ + notes
                + "\n\nI am the subject of this request. Please confirm once the records have been removed or tell me what additional information is required to identify the listing.\n\nThank you."@
        }),
{
    lemma_join_two(p.first_name, p.last_name, " "@);
    lemma_join_two(p.city, p.state, ", "@);
}

/// With no tasks the progress bar is empty, and it never goes down as more tasks
/// are done out of the same total.
pub proof fn law_percent_monotone(d1: int, d2: int, total: int)
    requires
        0 <= d1 <= d2 <= total,
        d2 * 100 <= usize::MAX,
    ensures
        progress_percent_of(d1, 0) == 0,
        progress_percent_of(d1, total) <= progress_percent_of(d2, total),
{
    if total > 0 {
        assert(d1 * 100 <= d2 * 100) by (nonlinear_arith)
            requires
                0 <= d1 <= d2,
        ;
        assert(d1 * 100 / total <= d2 * 100 / total) by (nonlinear_arith)
            requires
                0 <= d1 * 100 <= d2 * 100,
                total > 0,
        ;
        assert(d2 * 100 / total <= 100) by (nonlinear_arith)
            requires
                0 <= d2 <= total,
                total > 0,
        ;
    }
}

} // verus!
