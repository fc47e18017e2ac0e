//! Where the private key of an API key id is looked for.
//!
//! A key that is known by its id alone is expected in a file named after the
//! id, in one of a few conventional directories. This module decides which
//! files those are and in which order they are tried. It touches no file
//! system: each location is a starting directory and the path components
//! below it, and the search advances on what the caller reports.

use crate::error::AppleCodesignError;
use vstd::prelude::*;

verus! {

/// The directory that a location starts from.
#[derive(Clone, Copy, Debug, PartialEq, Eq, Structural)]
pub enum KeySearchRoot {
    /// The current working directory.
    CurrentDir,
    /// The home directory of the user.
    HomeDir,
}

/// One file that may hold the key: the directory to start from, and the path
/// components below it, the last of which is the file name.
#[derive(Clone, Debug)]
pub struct KeyLocation {
    pub root: KeySearchRoot,
    pub components: Vec<String>,
}

/// A location as a mathematical value.
pub struct KeyLocationView {
    pub root: KeySearchRoot,
    pub components: Seq<Seq<char>>,
}

impl DeepView for KeyLocation {
    type V = KeyLocationView;

    open spec fn deep_view(&self) -> KeyLocationView {
        KeyLocationView { root: self.root, components: self.components.deep_view() }
    }
}

impl View for KeyLocation {
    type V = KeyLocationView;

    open spec fn view(&self) -> KeyLocationView {
        self.deep_view()
    }
}

/// The name of the file that holds the key of a key id.
pub open spec fn spec_key_file_name(key_id: Seq<char>) -> Seq<char> {
    "AuthKey_"@ + key_id + ".p8"@
}

/// The locations to try for a key id, in the order in which they are tried:
/// `private_keys` below the current directory, then, where the user has a
/// home directory, `private_keys`, `.private_keys` and
/// `.appstoreconnect/private_keys` below it.
pub open spec fn spec_key_locations(key_id: Seq<char>, have_home: bool) -> Seq<KeyLocationView> {
    let file_name = spec_key_file_name(key_id);
    let in_current_dir = seq![
        KeyLocationView {
            root: KeySearchRoot::CurrentDir,
            components: seq!["private_keys"@, file_name],
        },
    ];
    if have_home {
        in_current_dir + seq![
            KeyLocationView {
                root: KeySearchRoot::HomeDir,
                components: seq!["private_keys"@, file_name],
            },
            KeyLocationView {
                root: KeySearchRoot::HomeDir,
                components: seq![".private_keys"@, file_name],
            },
            KeyLocationView {
                root: KeySearchRoot::HomeDir,
                components: seq![".appstoreconnect"@, "private_keys"@, file_name],
            },
        ]
    } else {
        in_current_dir
    }
}

/// The name of the file that holds the key of a key id.
pub fn key_file_name(key_id: &str) -> (name: String)
    ensures
        name@ == spec_key_file_name(key_id@),
{
    let mut name = String::from_str("AuthKey_");
    name.append(key_id);
    name.append(".p8");
    name
}

/// Appends a component to a path.
fn push_component(components: &mut Vec<String>, component: &str)
    ensures
        final(components).deep_view() == old(components).deep_view().push(component@),
{
    components.push(String::from_str(component));
}

/// The location of a file in a directory right below a root.
fn location_below(root: KeySearchRoot, directory: &str, file_name: &str) -> (location: KeyLocation)
    ensures
        location@ == (KeyLocationView { root, components: seq![directory@, file_name@] }),
{
    let mut components: Vec<String> = Vec::new();
    push_component(&mut components, directory);
    push_component(&mut components, file_name);
    assert(components.deep_view() =~= seq![directory@, file_name@]);
    KeyLocation { root, components }
}

/// The locations to try for a key id, in the order in which they are tried.
pub fn key_locations(key_id: &str, have_home: bool) -> (locations: Vec<KeyLocation>)
    ensures
        locations.deep_view() == spec_key_locations(key_id@, have_home),
{
    let file_name = key_file_name(key_id);
    let mut locations: Vec<KeyLocation> = Vec::new();
    locations.push(location_below(KeySearchRoot::CurrentDir, "private_keys", file_name.as_str()));
    if have_home {
        locations.push(location_below(KeySearchRoot::HomeDir, "private_keys", file_name.as_str()));
        locations.push(location_below(KeySearchRoot::HomeDir, ".private_keys", file_name.as_str()));
        let mut components: Vec<String> = Vec::new();
        push_component(&mut components, ".appstoreconnect");
        push_component(&mut components, "private_keys");
        push_component(&mut components, file_name.as_str());
        assert(components.deep_view() =~= seq![
            ".appstoreconnect"@,
            "private_keys"@,
            file_name@,
        ]);
        locations.push(KeyLocation { root: KeySearchRoot::HomeDir, components });
    }
    locations
}

/// A search as a mathematical value: the locations to try, in order, and how
/// many of them, from the first, were reported to hold no file.
pub struct ApiKeySearchView {
    pub locations: Seq<KeyLocationView>,
    pub checked: nat,
}

impl ApiKeySearchView {
    /// The search for a key id before any location was tried.
    pub open spec fn start(key_id: Seq<char>, have_home: bool) -> Self {
        ApiKeySearchView { locations: spec_key_locations(key_id, have_home), checked: 0 }
    }

    /// The location to try next; `None` once every location was reported
    /// absent, which is when the search has failed.
    pub open spec fn next(self) -> Option<KeyLocationView> {
        if self.checked < self.locations.len() {
            Some(self.locations[self.checked as int])
        } else {
            None
        }
    }

    /// The search after the location to try next was reported absent.
    pub open spec fn absent(self) -> Self {
        if self.checked < self.locations.len() {
            ApiKeySearchView { locations: self.locations, checked: self.checked + 1 }
        } else {
            self
        }
    }

    /// The search after `times` reports of absence in a row.
    pub open spec fn absent_times(self, times: nat) -> Self
        decreases times,
    {
        if times == 0 {
            self
        } else {
            self.absent_times((times - 1) as nat).absent()
        }
    }
}

/// The search for the private key of an API key id.
///
/// The search names one location at a time. The caller looks there: where it
/// finds the file, the search is over and the file holds the key; where it
/// does not, it reports so with [`ApiKeySearch::absent`] and asks again.
#[derive(Debug)]
pub struct ApiKeySearch {
    locations: Vec<KeyLocation>,
    checked: usize,
}

impl View for ApiKeySearch {
    type V = ApiKeySearchView;

    closed spec fn view(&self) -> ApiKeySearchView {
        ApiKeySearchView { locations: self.locations.deep_view(), checked: self.checked as nat }
    }
}

impl ApiKeySearch {
    #[verifier::type_invariant]
    spec fn checked_within(self) -> bool {
        self.checked <= self.locations.len()
    }

    /// Starts the search for a key id. `have_home` says whether the user has
    /// a home directory.
    pub fn new(key_id: &str, have_home: bool) -> (search: Self)
        ensures
            search@ == ApiKeySearchView::start(key_id@, have_home),
    {
        ApiKeySearch { locations: key_locations(key_id, have_home), checked: 0 }
    }

    /// The location to try next, or `AppStoreConnectApiKeyNotFound` once
    /// every location was reported absent.
    pub fn next_location(&self) -> (r: Result<&KeyLocation, AppleCodesignError>)
        ensures
            match self@.next() {
                Some(location) => r matches Ok(found) && found@ == location,
                None => r == Err::<&KeyLocation, AppleCodesignError>(
                    AppleCodesignError::AppStoreConnectApiKeyNotFound,
                ),
            },
    {
        if self.checked < self.locations.len() {
            Ok(&self.locations[self.checked])
        } else {
            Err(AppleCodesignError::AppStoreConnectApiKeyNotFound)
        }
    }

    /// Takes note that the location to try next holds no file.
    pub fn absent(&mut self)
        ensures
            final(self)@ == old(self)@.absent(),
    {
        proof {
            use_type_invariant(&*self);
        }
        if self.checked < self.locations.len() {
            self.checked = self.checked + 1;
        }
    }
}

/// The locations of a key id are tried in their fixed order, one for each
/// report of absence, and the search fails only when all of them were
/// reported absent: four where the user has a home directory, one otherwise.
pub proof fn law_not_found_after_every_location(key_id: Seq<char>, have_home: bool, reports: nat)
    ensures
        spec_key_locations(key_id, have_home).len() == if have_home {
            4nat
        } else {
            1nat
        },
        ApiKeySearchView::start(key_id, have_home).absent_times(reports).next() == if reports
            < spec_key_locations(key_id, have_home).len() {
            Some(spec_key_locations(key_id, have_home)[reports as int])
        } else {
            None
        },
{
    lemma_absent_times(ApiKeySearchView::start(key_id, have_home), reports);
}

/// Reports of absence add up until every location was tried.
proof fn lemma_absent_times(search: ApiKeySearchView, times: nat)
    requires
        search.checked <= search.locations.len(),
    ensures
        search.absent_times(times).locations == search.locations,
        search.absent_times(times).checked == if search.checked + times
            <= search.locations.len() {
            search.checked + times
        } else {
            search.locations.len()
        },
    decreases times,
{
    if times > 0 {
        lemma_absent_times(search, (times - 1) as nat);
    }
}

} // verus!
