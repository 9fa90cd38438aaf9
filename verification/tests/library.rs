use opt_out_desk::keyed::KeyedEntry;
use opt_out_desk::model::{AppState, DiscoveryRecord, Profile, SearchKind, Site, Step};
use opt_out_desk::order::{categories, filtered_sites, ordered_sites};
use opt_out_desk::routes::{difficulty_class, route_href, selected_site_id};
use opt_out_desk::search::{
    bing_search, discovery_queries, empty_placeholder, full_name, google_search, location,
    progress_percent, search_url, support_template,
};
use opt_out_desk::status::{
    completed_steps, discovery_status, overall_status, record_status_choice, set_discovery_status,
    set_step, shows_removal_steps, site_status, total_progress,
};
use opt_out_desk::storage::{broker_element_id, export_href};
use std::collections::BTreeSet;

static TWO_STEPS: [Step; 2] = [
    Step { title: "Find listing", body: "Search the broker." },
    Step { title: "Submit form", body: "Send the opt-out form." },
];
static ONE_STEP: [Step; 1] = [Step { title: "Email", body: "Email support." }];
static NO_SIGNALS: [&str; 0] = [];

fn site(id: &'static str, category: &'static str, kind: SearchKind) -> Site {
    Site {
        id,
        name: id,
        domain: "example.com",
        category,
        difficulty: "Easy",
        signals: &NO_SIGNALS,
        summary: "",
        caution: "",
        opt_out_url: "https://example.com/optout",
        search_kind: kind,
        steps: &TWO_STEPS,
    }
}

fn profile(first: &str, last: &str, city: &str, state: &str, phone: &str, address: &str) -> Profile {
    Profile {
        first_name: first.to_string(),
        last_name: last.to_string(),
        city: city.to_string(),
        state: state.to_string(),
        phone: phone.to_string(),
        address: address.to_string(),
        email: String::new(),
        notes: String::new(),
    }
}

fn record(id: &str, status: &str, at: &str) -> KeyedEntry<DiscoveryRecord> {
    KeyedEntry {
        key: id.to_string(),
        value: DiscoveryRecord { status: status.to_string(), last_checked: at.to_string() },
    }
}

fn ids(sites: &[Site]) -> Vec<&'static str> {
    sites.iter().map(|s| s.id).collect()
}

#[test]
fn name_and_location_skip_blank_parts() {
    let p = profile("Jane", "", "", "MD", "", "");
    assert_eq!(full_name(&p), "Jane");
    assert_eq!(location(&p), "MD");
    let p = profile("Jane", "Doe", "Rockville", "MD", "", "");
    assert_eq!(full_name(&p), "Jane Doe");
    assert_eq!(location(&p), "Rockville, MD");
    let p = Profile::default();
    assert_eq!(full_name(&p), "");
    assert_eq!(location(&p), "");
}

#[test]
fn placeholder_replaces_only_blank_values() {
    assert_eq!(empty_placeholder("", "[x]"), "[x]");
    assert_eq!(empty_placeholder("value", "[x]"), "value");
}

#[test]
fn google_and_bing_links_encode_the_query() {
    assert_eq!(google_search("a b"), "https://www.google.com/search?q=a%20b");
    assert_eq!(bing_search("\"Jane\""), "https://www.bing.com/search?q=%22Jane%22");
    assert_eq!(google_search("café"), "https://www.google.com/search?q=caf%C3%A9");
    assert_eq!(google_search("A-z_0.9~"), "https://www.google.com/search?q=A-z_0.9~");
}

#[test]
fn direct_search_uses_prefix_or_home_page() {
    let s = site("direct", "People search", SearchKind::Direct("https://example.com/name/"));
    let p = profile("Jane", "Doe", "", "MD", "", "");
    assert_eq!(search_url(&s, &p), "https://example.com/name/Jane%20Doe%20MD");
    assert_eq!(search_url(&s, &Profile::default()), "https://www.example.com/");
}

#[test]
fn google_site_searches() {
    let p = profile("Jane", "Doe", "Rockville", "MD", "555-123-4567", "1 Main St");
    let s = site("g", "c", SearchKind::GoogleSite);
    assert_eq!(
        search_url(&s, &p),
        "https://www.google.com/search?q=Jane%20Doe%20Rockville%2C%20MD%20site%3Aexample.com"
    );
    let s = site("g", "c", SearchKind::GooglePhoneOrName);
    assert_eq!(search_url(&s, &p), "https://www.google.com/search?q=555-123-4567%20site%3Aexample.com");
    let no_phone = profile("Jane", "Doe", "", "", "", "");
    assert_eq!(search_url(&s, &no_phone), "https://www.google.com/search?q=Jane%20Doe%20site%3Aexample.com");
    let s = site("g", "c", SearchKind::GoogleNameAddress);
    assert_eq!(
        search_url(&s, &p),
        "https://www.google.com/search?q=Jane%20Doe%201%20Main%20St%20site%3Aexample.com"
    );
}

#[test]
fn phone_path_search() {
    let s = site("p", "c", SearchKind::PhonePath("https://example.com/phone/"));
    let p = profile("", "", "", "", "(555) 123", "");
    assert_eq!(search_url(&s, &p), "https://example.com/phone/%28555%29%20123");
    assert_eq!(search_url(&s, &Profile::default()), "https://www.example.com/");
}

#[test]
fn discovery_queries_fall_back_to_examples() {
    let q = discovery_queries(&Profile::default());
    assert_eq!(
        q,
        vec![
            ("Phone in quotes".to_string(), "\"555-123-4567\"".to_string()),
            ("Name and city".to_string(), "\"Jane Doe\" \"Rockville, MD\"".to_string()),
            ("People-search language".to_string(), "\"Jane Doe\" \"possible relatives\"".to_string()),
        ]
    );
}

#[test]
fn discovery_queries_from_full_profile() {
    let p = profile("Jane", "Doe", "Rockville", "MD", "555", "1 Main St");
    let q = discovery_queries(&p);
    let expected: Vec<(String, String)> = vec![
        ("Exact phone", "\"555\""),
        ("Exact address", "\"1 Main St\""),
        ("Name and city", "\"Jane Doe\" \"Rockville, MD\""),
        ("People-search language", "\"Jane Doe\" \"possible relatives\""),
        ("Background-check language", "\"Jane Doe\" \"background check\""),
        ("Reverse lookup", "\"555\" \"reverse phone\""),
        ("Public records", "\"1 Main St\" \"public records\""),
        ("Broker clones", "\"Jane Doe\" \"Rockville, MD\" \"age\""),
    ]
    .into_iter()
    .map(|(a, b)| (a.to_string(), b.to_string()))
    .collect();
    assert_eq!(q, expected);
}

#[test]
fn discovery_queries_name_only() {
    let p = profile("Jane", "", "", "", "", "");
    let q = discovery_queries(&p);
    assert_eq!(q.len(), 2);
    assert_eq!(q[0].0, "People-search language");
    assert_eq!(q[1].1, "\"Jane\" \"background check\"");
}

#[test]
fn support_template_fills_placeholders() {
    let t = support_template(&Profile::default());
    assert_eq!(
        t,
        "Hello,\n\nI am requesting removal or suppression of my personal information from your site. Please remove records matching:\n\nName: [your full name]\nLocation: [city, state]\nPhone: [phone number, if relevant]\nAddress: [street address, if relevant]\nProfile URL(s): [paste profile URLs here]\n\nI am the subject of this request. Please confirm once the records have been removed or tell me what additional information is required to identify the listing.\n\nThank you."
    );
    let mut p = profile("Jane", "Doe", "Rockville", "MD", "555", "1 Main St");
    p.notes = "https://x".to_string();
    let t = support_template(&p);
    assert!(t.contains("Name: Jane Doe\nLocation: Rockville, MD\nPhone: 555\nAddress: 1 Main St\nProfile URL(s): https://x\n"));
}

#[test]
fn progress_percent_values() {
    assert_eq!(progress_percent(1, 3), 33);
    assert_eq!(progress_percent(0, 0), 0);
    assert_eq!(progress_percent(5, 5), 100);
    assert_eq!(progress_percent(0, 7), 0);
    assert_eq!(progress_percent(usize::MAX, 1), 0);
}

#[test]
fn defaults_match_first_run() {
    let s = AppState::default();
    assert!(!s.onboarding_complete);
    assert_eq!(s.active_view, "setup");
    assert_eq!(s.active_site, "fastbackgroundcheck");
    assert!(s.progress.is_empty() && s.discovery.is_empty());
    let r = DiscoveryRecord::default();
    assert_eq!(r.status, "unchecked");
    assert_eq!(r.last_checked, "");
    assert!(s.is_well_formed());
}

#[test]
fn well_formedness_detects_duplicate_ids() {
    let mut s = AppState::default();
    s.discovery.push(record("a", "found", ""));
    assert!(s.is_well_formed());
    s.discovery.push(record("a", "removed", ""));
    assert!(!s.is_well_formed());
}

#[test]
fn status_defaults_to_unchecked() {
    let s = AppState::default();
    assert_eq!(discovery_status(&s, "x"), "unchecked");
}

#[test]
fn set_status_reads_back() {
    let mut s = AppState::default();
    set_discovery_status(&mut s, "a", "removed", "2026-01-01".to_string());
    assert_eq!(discovery_status(&s, "a"), "removed");
    assert_eq!(s.discovery[0].value.last_checked, "2026-01-01");
    assert_eq!(discovery_status(&s, "b"), "unchecked");
    set_discovery_status(&mut s, "a", "recheck", "2026-02-01".to_string());
    assert_eq!(discovery_status(&s, "a"), "recheck");
    assert_eq!(s.discovery.len(), 1);
}

#[test]
fn found_checks_first_step_and_not_found_clears() {
    let mut s = AppState::default();
    set_discovery_status(&mut s, "a", "found", String::new());
    assert_eq!(completed_steps(&s, "a"), 1);
    assert!(s.progress[0].value.contains(&0));
    set_step(&mut s, "a", 1, true);
    assert_eq!(completed_steps(&s, "a"), 2);
    set_discovery_status(&mut s, "a", "found", String::new());
    assert_eq!(completed_steps(&s, "a"), 2);
    set_discovery_status(&mut s, "a", "not-found", String::new());
    assert_eq!(completed_steps(&s, "a"), 0);
    assert!(s.progress.is_empty());
}

#[test]
fn set_step_toggles_and_creates_entry() {
    let mut s = AppState::default();
    set_step(&mut s, "b", 3, false);
    assert_eq!(s.progress.len(), 1);
    assert_eq!(completed_steps(&s, "b"), 0);
    set_step(&mut s, "b", 3, true);
    assert!(s.progress[0].value.contains(&3));
    set_step(&mut s, "b", 3, false);
    assert!(!s.progress[0].value.contains(&3));
}

#[test]
fn record_choice_keeps_checklist() {
    let mut s = AppState::default();
    set_discovery_status(&mut s, "a", "found", String::new());
    record_status_choice(&mut s, "a", "not-found".to_string(), "t".to_string());
    assert_eq!(discovery_status(&s, "a"), "not-found");
    assert_eq!(completed_steps(&s, "a"), 1);
}

#[test]
fn site_status_labels() {
    let s1 = site("a", "c", SearchKind::GoogleSite);
    let mut s = AppState::default();
    assert_eq!(site_status(&s, &s1), ("Unchecked", "todo"));
    set_discovery_status(&mut s, "a", "found", String::new());
    assert_eq!(site_status(&s, &s1), ("Removing", "doing"));
    set_step(&mut s, "a", 0, false);
    assert_eq!(site_status(&s, &s1), ("Found", "found"));
    set_step(&mut s, "a", 0, true);
    set_step(&mut s, "a", 1, true);
    assert_eq!(site_status(&s, &s1), ("Ready to verify", "done"));
    set_discovery_status(&mut s, "a", "recheck", String::new());
    assert_eq!(site_status(&s, &s1), ("Recheck", "doing"));
    set_discovery_status(&mut s, "a", "removed", String::new());
    assert_eq!(site_status(&s, &s1), ("Removed", "done"));
    set_discovery_status(&mut s, "a", "not-found", String::new());
    assert_eq!(site_status(&s, &s1), ("Not found", "done"));
    set_discovery_status(&mut s, "a", "other", String::new());
    assert_eq!(site_status(&s, &s1), ("Unchecked", "todo"));
}

#[test]
fn total_progress_counts_tasks() {
    let mut b = site("b", "c", SearchKind::GoogleSite);
    b.steps = &ONE_STEP;
    let sites = [site("a", "c", SearchKind::GoogleSite), b, site("c", "c", SearchKind::GoogleSite)];
    let mut s = AppState::default();
    assert_eq!(total_progress(&sites, &s), (0, 3));
    set_discovery_status(&mut s, "a", "found", String::new());
    assert_eq!(total_progress(&sites, &s), (2, 5));
    set_discovery_status(&mut s, "b", "recheck", String::new());
    assert_eq!(total_progress(&sites, &s), (3, 6));
    set_discovery_status(&mut s, "c", "not-found", String::new());
    assert_eq!(total_progress(&sites, &s), (4, 6));
    set_discovery_status(&mut s, "a", "removed", String::new());
    assert_eq!(total_progress(&sites, &s), (3, 4));
}

#[test]
fn ordered_sites_puts_not_found_last() {
    let sites = [
        site("a", "c", SearchKind::GoogleSite),
        site("b", "c", SearchKind::GoogleSite),
        site("c", "c", SearchKind::GoogleSite),
        site("d", "c", SearchKind::GoogleSite),
    ];
    let mut s = AppState::default();
    assert_eq!(ids(&ordered_sites(&sites, &s)), vec!["a", "b", "c", "d"]);
    s.discovery.push(record("a", "not-found", "2026-01-01"));
    s.discovery.push(record("b", "found", "2026-03-01"));
    s.discovery.push(record("c", "found", "2026-02-01"));
    assert_eq!(ids(&ordered_sites(&sites, &s)), vec!["d", "c", "b", "a"]);
}

#[test]
fn ordered_sites_breaks_ties_by_position() {
    let sites = [
        site("a", "c", SearchKind::GoogleSite),
        site("b", "c", SearchKind::GoogleSite),
        site("c", "c", SearchKind::GoogleSite),
    ];
    let mut s = AppState::default();
    s.discovery.push(record("c", "not-found", "x"));
    s.discovery.push(record("a", "not-found", "x"));
    assert_eq!(ids(&ordered_sites(&sites, &s)), vec!["b", "a", "c"]);
}

#[test]
fn filtered_sites_by_category_and_status() {
    let sites = [
        site("a", "People search", SearchKind::GoogleSite),
        site("b", "Background", SearchKind::GoogleSite),
        site("c", "People search", SearchKind::GoogleSite),
    ];
    let mut s = AppState::default();
    s.discovery.push(record("a", "not-found", "1"));
    assert_eq!(ids(&filtered_sites("all", "all", &sites, &s)), vec!["b", "c", "a"]);
    assert_eq!(ids(&filtered_sites("People search", "all", &sites, &s)), vec!["c", "a"]);
    assert_eq!(ids(&filtered_sites("all", "unchecked", &sites, &s)), vec!["b", "c"]);
    assert_eq!(ids(&filtered_sites("People search", "not-found", &sites, &s)), vec!["a"]);
    assert!(filtered_sites("Nope", "all", &sites, &s).is_empty());
}

#[test]
fn categories_sorted_and_unique() {
    let sites = [
        site("a", "People search", SearchKind::GoogleSite),
        site("b", "Background", SearchKind::GoogleSite),
        site("c", "People search", SearchKind::GoogleSite),
        site("d", "Marketing", SearchKind::GoogleSite),
    ];
    assert_eq!(categories(&sites), vec!["Background", "Marketing", "People search"]);
    assert!(categories(&[]).is_empty());
}

#[test]
fn routes_and_selection() {
    assert_eq!(route_href("/"), "/opt-out/");
    assert_eq!(route_href("/workflow"), "/opt-out/workflow");
    let sites = [site("a", "c", SearchKind::GoogleSite), site("b", "c", SearchKind::GoogleSite)];
    assert_eq!(selected_site_id(Some("b"), &sites, "a"), "b");
    assert_eq!(selected_site_id(Some("zzz"), &sites, "a"), "a");
    assert_eq!(selected_site_id(None, &sites, "a"), "a");
    assert_eq!(difficulty_class("Hard"), "pill doing");
    assert_eq!(difficulty_class("Easy"), "pill todo");
}

#[test]
fn storage_ids_and_export_link() {
    assert_eq!(broker_element_id("spokeo"), "broker-spokeo");
    assert_eq!(export_href("{\"a\": 1}"), "data:application/json;charset=utf-8,%7B%22a%22%3A%201%7D");
}

#[test]
fn overall_status_and_removal_visibility() {
    assert_eq!(overall_status(3, 3), ("All complete", "done"));
    assert_eq!(overall_status(1, 3), ("In progress", "doing"));
    assert_eq!(overall_status(0, 3), ("Not started", "todo"));
    assert_eq!(overall_status(0, 0), ("Not started", "todo"));
    assert!(shows_removal_steps("found"));
    assert!(shows_removal_steps("recheck"));
    assert!(!shows_removal_steps("removed"));
}

#[test]
fn done_never_exceeds_total_when_steps_are_real() {
    let sites = [site("a", "c", SearchKind::GoogleSite)];
    let mut s = AppState::default();
    set_discovery_status(&mut s, "a", "found", String::new());
    set_step(&mut s, "a", 1, true);
    let (done, total) = total_progress(&sites, &s);
    assert!(done <= total);
    assert_eq!(progress_percent(done, total), 100);
    let _ = BTreeSet::<usize>::new();
}

#[test]
fn unfiltered_list_equals_ordered_list() {
    let sites = [
        site("a", "x", SearchKind::GoogleSite),
        site("b", "y", SearchKind::GoogleSite),
        site("c", "x", SearchKind::GoogleSite),
    ];
    let mut s = AppState::default();
    s.discovery.push(record("b", "not-found", "2026"));
    s.discovery.push(record("c", "found", "2025"));
    let full = ids(&ordered_sites(&sites, &s));
    assert_eq!(full, vec!["a", "c", "b"]);
    assert_eq!(ids(&filtered_sites("all", "all", &sites, &s)), full);
    assert_eq!(ids(&filtered_sites("x", "all", &sites, &s)), vec!["a", "c"]);
}
