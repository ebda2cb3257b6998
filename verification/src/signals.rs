//! Derived signals and the conditional-unwrap guard: pure projections of a
//! cache entry (or a mutation handle) into the simplified values the
//! navigation and the login form render from, recomputed whenever their
//! inputs change.
//!
//! The guard comes in two pieces. `unpack` renders content only once an
//! entry is `Ready`. For a `Ready` payload that itself holds an `Option`,
//! an ancestor guard decides whether to descend, and the child receives a
//! `Present` witness instead of re-checking absence: the guard and the
//! witness are derived from the same snapshot, never from two
//! independently timed fetches.

use vstd::prelude::*;

use crate::mutation::{MutationResult, MutationStatus};
use crate::resource::{Phase, Resource};
use crate::site::{SiteState, UserSummary};

verus! {

/// What a conditional render shows: nothing yet, or the ready content.
pub enum Render<T> {
    /// The entry is idle, loading, or failed: show the pending branch
    /// (by default, nothing). Callers wanting error UI branch on the
    /// entry's cause with a separate read.
    Pending,
    /// The entry is ready: show the content.
    Content(T),
}

/// The conditional-unwrap primitive: content exactly when the entry is
/// `Ready`, the pending branch on `Idle`, `Loading` and `Error` alike.
pub fn unpack<'a, T>(res: &'a Resource<T>) -> (r: Render<&'a T>)
    requires
        res.wf(),
    ensures
        match r {
            Render::Content(v) => res.phase is Ready && res.value == Some(*v),
            Render::Pending => !(res.phase is Ready),
        },
{
    match res.ready_value() {
        Some(v) => Render::Content(v),
        None => Render::Pending,
    }
}

/// A witness that an optional value was present when an ancestor guard
/// checked: children take the witness and never re-derive absence.
pub struct Present<T> {
    value: T,
}

impl<T> Present<T> {
    /// Wrap a value the caller has already checked for presence. The
    /// precondition is the guard: constructing a witness without it does
    /// not verify.
    pub fn new(opt: Option<T>) -> (p: Present<T>)
        requires
            opt is Some,
        ensures
            opt == Some(p.value()),
    {
        match opt {
            Some(v) => Present { value: v },
            None => vstd::pervasive::unreached(),
        }
    }

    pub fn get(&self) -> (r: &T)
        ensures
            *r == self.value(),
    {
        &self.value
    }

    /// The witnessed value.
    pub closed spec fn value(self) -> T {
        self.value
    }
}

/// The guard the navigation descends on: whether the current snapshot is
/// ready and reports a signed-in viewer. While the first fetch is pending
/// (or failed) the guard is closed.
pub fn user_is_logged_in(site: &Resource<SiteState>) -> (r: bool)
    requires
        site.wf(),
    ensures
        r == spec_user_is_logged_in(*site),
{
    match site.ready_value() {
        Some(snapshot) => snapshot.viewer.is_some(),
        None => false,
    }
}

pub open spec fn spec_user_is_logged_in(site: Resource<SiteState>) -> bool {
    site.phase is Ready && site.value.unwrap().spec_logged_in()
}

/// The names the user menu shows, projected from the same snapshot the
/// guard reads: `None` until the snapshot is ready, then the viewer's
/// account and display names, or an inner `None` for a signed-out viewer.
pub fn viewer_names(site: &Resource<SiteState>) -> (r: Option<Option<(String, Option<String>)>>)
    requires
        site.wf(),
    ensures
        match r {
            None => !(site.phase is Ready),
            Some(names) => site.phase is Ready && (match names {
                None => !site.value.unwrap().spec_logged_in(),
                Some(pair) => site.value.unwrap().spec_logged_in() && site.value.unwrap().viewer.unwrap().view_names() == (
                    pair.0@,
                    match pair.1 {
                        Some(d) => Some(d@),
                        None => None,
                    },
                ),
            }),
        },
{
    match site.ready_value() {
        Some(snapshot) => match &snapshot.viewer {
            Some(user) => Some(
                Some(
                    (
                        user.username.clone(),
                        match &user.display_name {
                            Some(d) => Some(d.clone()),
                            None => None,
                        },
                    ),
                ),
            ),
            None => Some(None),
        },
        None => None,
    }
}

/// The guard and the unwrap beneath it agree because both are derived from
/// the one snapshot: the guard is open exactly when the names projection of
/// the same entry carries a present inner value, so a descent the guard
/// allowed never meets an absent viewer.
pub proof fn lemma_guard_matches_unwrap(site: Resource<SiteState>)
    ensures
        spec_user_is_logged_in(site) <==> (site.phase is Ready
            && site.value.unwrap().viewer is Some),
{
}

/// What the account corner of the navigation shows.
pub enum NavAccount {
    /// No signed-in viewer (or no snapshot yet): the login and signup
    /// links.
    LoginSignup,
    /// A signed-in viewer: the user menu, labelled with the viewer's shown
    /// name.
    UserMenu(String),
}

/// The account corner's whole decision: the user menu with the viewer's
/// shown name exactly when the guard is open, the login and signup links
/// otherwise. The menu label comes from the same snapshot the guard read.
pub fn nav_account_view(site: &Resource<SiteState>) -> (r: NavAccount)
    requires
        site.wf(),
    ensures
        match r {
            NavAccount::UserMenu(label) => spec_user_is_logged_in(*site) && label@
                == site.value.unwrap().viewer.unwrap().spec_shown_name(),
            NavAccount::LoginSignup => !spec_user_is_logged_in(*site),
        },
{
    match site.ready_value() {
        Some(snapshot) => match &snapshot.viewer {
            Some(user) => NavAccount::UserMenu(user.shown_name().clone()),
            None => NavAccount::LoginSignup,
        },
        None => NavAccount::LoginSignup,
    }
}

/// The viewer's profile link: `/u/` followed by the account name.
pub fn profile_href(user: &UserSummary) -> (r: String)
    ensures
        r@ == "/u/"@ + user.username@,
{
    String::from_str("/u/").concat(user.username.as_str())
}

/// The instance name the header shows: the site name of the current
/// snapshot, once one is ready.
pub fn instance_name(site: &Resource<SiteState>) -> (r: Option<String>)
    requires
        site.wf(),
    ensures
        match r {
            Some(name) => site.phase is Ready && name@ == site.value.unwrap().site_name@,
            None => !(site.phase is Ready),
        },
{
    match site.ready_value() {
        Some(snapshot) => Some(snapshot.site_name.clone()),
        None => None,
    }
}

/// The backend-version line the footer shows: `BE: ` followed by the
/// backend's version string, once a snapshot is ready.
pub fn backend_version_label(site: &Resource<SiteState>) -> (r: Option<String>)
    requires
        site.wf(),
    ensures
        match r {
            Some(label) => site.phase is Ready && label@ == "BE: "@
                + site.value.unwrap().backend_version@,
            None => !(site.phase is Ready),
        },
{
    match site.ready_value() {
        Some(snapshot) => Some(String::from_str("BE: ").concat(snapshot.backend_version.as_str())),
        None => None,
    }
}

/// Whether the login form's submit button is disabled: it is while either
/// input is still empty.
pub fn button_is_disabled(username_or_email: &str, password: &str) -> (r: bool)
    ensures
        r == (username_or_email@.len() == 0 || password@.len() == 0),
{
    username_or_email.is_empty() || password.is_empty()
}

/// Whether the login action's last settled invocation succeeded: the form
/// redirects home exactly when this turns true.
pub fn login_is_success(m: &MutationResult) -> (r: bool)
    ensures
        r == (m.status is Success),
{
    match m.status {
        MutationStatus::Success => true,
        _ => false,
    }
}

/// Where the login form naviguards once its action settles: home, replacing
/// the login page in the history, exactly on success. On failure there is
/// no navigation — the form stays interactive with its inputs intact, so
/// the user can resubmit at once.
pub fn redirect_after_login(m: &MutationResult) -> (r: Option<(String, bool)>)
    ensures
        match r {
            Some(nav) => m.status is Success && nav.0@ == "/"@ && nav.1,
            None => !(m.status is Success),
        },
{
    if login_is_success(m) {
        Some((String::from_str("/"), true))
    } else {
        None
    }
}

} // verus!
