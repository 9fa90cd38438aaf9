//! Application state and broker catalog types.

use vstd::prelude::*;
use std::collections::BTreeSet;
use crate::keyed::{KeyedEntry, keyed_view, keys_unique};

verus! {

/// Optional personal details used to generate broker searches and templates.
#[derive(Clone)]
pub struct Profile {
    /// Given name used in broker name searches.
    pub first_name: String,
    /// Family name used in broker name searches.
    pub last_name: String,
    /// City used for location-scoped searches.
    pub city: String,
    /// State or region used for location-scoped searches.
    pub state: String,
    /// Phone number used for reverse lookup and phone-indexed brokers.
    pub phone: String,
    /// Street address used for address-indexed broker discovery.
    pub address: String,
    /// Email address the user may provide to broker opt-out forms.
    pub email: String,
    /// Free-form local notes, commonly profile URLs and confirmation dates.
    pub notes: String,
}

/// The characters held by each profile field.
pub struct ProfileView {
    pub first_name: Seq<char>,
    pub last_name: Seq<char>,
    pub city: Seq<char>,
    pub state: Seq<char>,
    pub phone: Seq<char>,
    pub address: Seq<char>,
    pub email: Seq<char>,
    pub notes: Seq<char>,
}

impl View for Profile {
    type V = ProfileView;

    open spec fn view(&self) -> ProfileView {
        ProfileView {
            first_name: self.first_name@,
            last_name: self.last_name@,
            city: self.city@,
            state: self.state@,
            phone: self.phone@,
            address: self.address@,
            email: self.email@,
            notes: self.notes@,
        }
    }
}

impl Default for Profile {
    /// A profile with every field blank.
    fn default() -> (r: Self)
        ensures
            r@ == Profile::default_view(),
    {
        Profile {
            first_name: String::new(),
            last_name: String::new(),
            city: String::new(),
            state: String::new(),
            phone: String::new(),
            address: String::new(),
            email: String::new(),
            notes: String::new(),
        }
    }
}

/// Per-broker discovery status and the last time that status was changed.
#[derive(Clone)]
pub struct DiscoveryRecord {
    /// Current broker status, such as `unchecked`, `found`, or `removed`.
    pub status: String,
    /// ISO timestamp captured when the status was last updated.
    pub last_checked: String,
}

/// The characters held by a discovery record.
pub struct DiscoveryRecordView {
    pub status: Seq<char>,
    pub last_checked: Seq<char>,
}

impl View for DiscoveryRecord {
    type V = DiscoveryRecordView;

    open spec fn view(&self) -> DiscoveryRecordView {
        DiscoveryRecordView { status: self.status@, last_checked: self.last_checked@ }
    }
}

impl Default for DiscoveryRecord {
    /// Creates an unchecked discovery record with no timestamp.
    fn default() -> (r: Self)
        ensures
            r@.status == "unchecked"@,
            r@.last_checked.len() == 0,
    {
        DiscoveryRecord { status: "unchecked".to_owned(), last_checked: String::new() }
    }
}

/// Complete persisted application state.
#[derive(Clone)]
pub struct AppState {
    /// Whether the setup screen has been completed or skipped.
    pub onboarding_complete: bool,
    /// Current top-level view: setup, workflow, or discovery.
    pub active_view: String,
    /// Broker id selected in the workflow area.
    pub active_site: String,
    /// User profile fields used by local helpers.
    pub profile: Profile,
    /// Completed removal checklist step indexes keyed by broker id.
    pub progress: Vec<KeyedEntry<BTreeSet<usize>>>,
    /// Discovery records keyed by broker id.
    pub discovery: Vec<KeyedEntry<DiscoveryRecord>>,
}

impl AppState {
    /// Each broker id occurs at most once in each keyed table.
    pub open spec fn wf(&self) -> bool {
        keys_unique(self.progress@) && keys_unique(self.discovery@)
    }

    /// Discovery records by broker id.
    pub open spec fn discovery_map(&self) -> Map<Seq<char>, DiscoveryRecordView> {
        keyed_view(self.discovery@)
    }

    /// Completed step indexes by broker id.
    pub open spec fn progress_map(&self) -> Map<Seq<char>, Set<usize>> {
        keyed_view(self.progress@)
    }

    /// The saved discovery status of a broker, `unchecked` when none is saved.
    pub open spec fn status_of(&self, id: Seq<char>) -> Seq<char> {
        if self.discovery_map().contains_key(id) {
            self.discovery_map()[id].status
        } else {
            "unchecked"@
        }
    }

    /// The saved last-update time of a broker, empty when none is saved.
    pub open spec fn checked_at(&self, id: Seq<char>) -> Seq<char> {
        if self.discovery_map().contains_key(id) {
            self.discovery_map()[id].last_checked
        } else {
            Seq::empty()
        }
    }

    /// Number of completed checklist steps saved for a broker.
    pub open spec fn completed_of(&self, id: Seq<char>) -> nat {
        if self.progress_map().contains_key(id) {
            self.progress_map()[id].len()
        } else {
            0
        }
    }
}

impl Default for AppState {
    /// Creates the first-run state shown when no saved state exists.
    fn default() -> (r: Self)
        ensures
            r.wf(),
            !r.onboarding_complete,
            r.active_view@ == "setup"@,
            r.active_site@ == "fastbackgroundcheck"@,
            r.profile@ == Profile::default_view(),
            r.progress@.len() == 0,
            r.discovery@.len() == 0,
            r.discovery_map() == Map::<Seq<char>, DiscoveryRecordView>::empty(),
            r.progress_map() == Map::<Seq<char>, Set<usize>>::empty(),
    {
        let r = AppState {
            onboarding_complete: false,
            active_view: "setup".to_owned(),
            active_site: "fastbackgroundcheck".to_owned(),
            profile: Profile::default(),
            progress: Vec::new(),
            discovery: Vec::new(),
        };
        assert(r.discovery_map() =~= Map::<Seq<char>, DiscoveryRecordView>::empty());
        assert(r.progress_map() =~= Map::<Seq<char>, Set<usize>>::empty());
        r
    }
}

impl Profile {
    /// The view of a profile whose fields are all blank.
    pub open spec fn default_view() -> ProfileView {
        ProfileView {
            first_name: Seq::empty(),
            last_name: Seq::empty(),
            city: Seq::empty(),
            state: Seq::empty(),
            phone: Seq::empty(),
            address: Seq::empty(),
            email: Seq::empty(),
            notes: Seq::empty(),
        }
    }
}

/// A single human-readable removal step for a broker workflow.
#[derive(Clone, Copy)]
pub struct Step {
    /// Short step title displayed beside the checkbox.
    pub title: &'static str,
    /// Supporting instruction text for the step.
    pub body: &'static str,
}

/// Search-link generation strategy for a broker.
#[derive(Clone, Copy)]
pub enum SearchKind {
    /// Append an encoded name/location query to a broker URL prefix.
    Direct(&'static str),
    /// Generate a Google `site:` search using name and location fields.
    GoogleSite,
    /// Generate a Google `site:` search using phone when present, otherwise name.
    GooglePhoneOrName,
    /// Generate a Google `site:` search using name and street address.
    GoogleNameAddress,
    /// Append an encoded phone number to a broker URL prefix.
    PhonePath(&'static str),
}

/// Static broker metadata and workflow configuration.
#[derive(Clone, Copy)]
pub struct Site {
    /// Stable id used as the state-map key.
    pub id: &'static str,
    /// Display name shown in navigation and lists.
    pub name: &'static str,
    /// Broker domain used for generated site-scoped searches.
    pub domain: &'static str,
    /// Grouping label used by the discovery filter.
    pub category: &'static str,
    /// Human-readable difficulty label.
    pub difficulty: &'static str,
    /// Important form or workflow requirements shown as chips.
    pub signals: &'static [&'static str],
    /// Brief broker description.
    pub summary: &'static str,
    /// Broker-specific warning shown before removal steps.
    pub caution: &'static str,
    /// Current known opt-out or suppression URL.
    pub opt_out_url: &'static str,
    /// Strategy for generating the broker search link.
    pub search_kind: SearchKind,
    /// Checklist steps shown when a matching listing is found.
    pub steps: &'static [Step],
}

} // verus!
