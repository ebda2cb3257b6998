//! The application context: the two cache entries (site state and theme
//! preference), the three mutation handles, and the invalidation effects
//! that tie them together. Constructed once at the application root and
//! passed by reference into whatever needs it; never a mutable global.
//!
//! Each public operation performs one reactive step atomically, in the
//! order the scheduler guarantees: the mutation settles, its version
//! counter increases, the watching effect fires, and the refetch it
//! demands is issued — all before anything else observes the state. A
//! fetch's response arrives later, as a separate `*_fetch_done` step, and
//! commits only if no newer fetch has been issued meanwhile.

use vstd::prelude::*;

use crate::effect::{spec_notify, InvalidationEffect};
use crate::errors::ErrorInfo;
use crate::mutation::{
    login, logout, spec_login, spec_logout, spec_settle, view_session, LoginEvent, LogoutEvent,
    MutationResult,
};
use crate::resource::{spec_complete_err, spec_complete_ok, spec_refetch, Resource};
use crate::site::SiteState;
use crate::theme::{change_theme, read_theme, spec_read_theme, store_cookie, Theme};

verus! {

/// Everything the reactive layer owns, in one place.
pub struct App {
    /// The server-side session: the stored authentication token, if any.
    pub session: Option<String>,
    /// The persisted theme cookie, if one was ever written.
    pub theme_cookie: Option<Theme>,
    /// Whether this is a local development build (theme cookies then skip
    /// the `Secure` attribute).
    pub dev_build: bool,
    /// The cached site snapshot: the single live entry per tab, and the
    /// single source of truth for "is a user logged in".
    pub site: Resource<SiteState>,
    /// The cached theme preference.
    pub theme: Resource<Theme>,
    pub login_action: MutationResult,
    pub logout_action: MutationResult,
    pub theme_action: MutationResult,
    /// Fires `site.refetch()` once per settled login.
    pub login_watch: InvalidationEffect,
    /// Fires `site.refetch()` once per settled logout.
    pub logout_watch: InvalidationEffect,
    /// Fires `theme.refetch()` once per settled theme change.
    pub theme_watch: InvalidationEffect,
}

impl App {
    /// A freshly mounted application: both entries idle, every counter at
    /// zero, every effect subscribed at the version it observes at mount,
    /// so nothing fires before a mutation actually settles.
    pub open spec fn spec_init(dev_build: bool) -> App {
        App {
            session: None,
            theme_cookie: None,
            dev_build,
            site: Resource::spec_init(),
            theme: Resource::spec_init(),
            login_action: MutationResult::spec_init(),
            logout_action: MutationResult::spec_init(),
            theme_action: MutationResult::spec_init(),
            login_watch: InvalidationEffect { last_seen: 0 },
            logout_watch: InvalidationEffect { last_seen: 0 },
            theme_watch: InvalidationEffect { last_seen: 0 },
        }
    }

    /// The context's invariant: every part well formed, and every effect
    /// caught up with the counter it watches — between steps there is never
    /// a settled mutation whose invalidation has not run.
    pub open spec fn wf(self) -> bool {
        &&& self.site.wf()
        &&& self.theme.wf()
        &&& self.login_action.wf()
        &&& self.logout_action.wf()
        &&& self.theme_action.wf()
        &&& self.login_watch.last_seen == self.login_action.version
        &&& self.logout_watch.last_seen == self.logout_action.version
        &&& self.theme_watch.last_seen == self.theme_action.version
    }

    pub fn new(dev_build: bool) -> (a: App)
        ensures
            a == Self::spec_init(dev_build),
            a.wf(),
    {
        App {
            session: None,
            theme_cookie: None,
            dev_build,
            site: Resource::new(),
            theme: Resource::new(),
            login_action: MutationResult::new(),
            logout_action: MutationResult::new(),
            theme_action: MutationResult::new(),
            login_watch: InvalidationEffect::subscribe(0),
            logout_watch: InvalidationEffect::subscribe(0),
            theme_watch: InvalidationEffect::subscribe(0),
        }
    }

    /// Run one login invocation to completion: the flow decides on the
    /// event, the handle settles, and the watching effect issues the site
    /// refetch its rule demands. Returns the issued fetch id.
    pub fn submit_login(&mut self, ev: LoginEvent) -> (fetch: Option<u64>)
        requires
            old(self).wf(),
            old(self).login_action.version < u64::MAX,
            old(self).site.issued < u64::MAX,
        ensures
            (*final(self), fetch) == spec_submit_login(*old(self), ev),
            final(self).wf(),
            fetch is Some,
    {
        let out = login(&mut self.session, ev);
        self.login_action.settle(out);
        let fired = self.login_watch.notify(self.login_action.version);
        if fired {
            Some(self.site.refetch())
        } else {
            None
        }
    }

    /// Run one logout invocation to completion, like `submit_login`.
    pub fn submit_logout(&mut self, ev: LogoutEvent) -> (fetch: Option<u64>)
        requires
            old(self).wf(),
            old(self).logout_action.version < u64::MAX,
            old(self).site.issued < u64::MAX,
        ensures
            (*final(self), fetch) == spec_submit_logout(*old(self), ev),
            final(self).wf(),
            fetch is Some,
    {
        let out = logout(&mut self.session, ev);
        self.logout_action.settle(out);
        let fired = self.logout_watch.notify(self.logout_action.version);
        if fired {
            Some(self.site.refetch())
        } else {
            None
        }
    }

    /// Run one theme change to completion: the cookie is written at once —
    /// before any refetch — so the persisted value is already the new one
    /// while the cache still shows the old; the handle settles, and the
    /// watching effect issues the theme refetch.
    pub fn submit_change_theme(&mut self, theme: Theme) -> (fetch: Option<u64>)
        requires
            old(self).wf(),
            old(self).theme_action.version < u64::MAX,
            old(self).theme.issued < u64::MAX,
        ensures
            (*final(self), fetch) == spec_submit_change_theme(*old(self), theme),
            final(self).wf(),
            fetch is Some,
            final(self).theme_cookie == Some(theme),
    {
        let cookie = change_theme(theme, self.dev_build);
        store_cookie(&mut self.theme_cookie, &cookie);
        self.theme_action.settle(Ok(()));
        let fired = self.theme_watch.notify(self.theme_action.version);
        if fired {
            Some(self.theme.refetch())
        } else {
            None
        }
    }

    /// Deliver the response of the site fetch with id `id`. Returns whether
    /// it was committed; a response superseded by a newer fetch is
    /// discarded.
    pub fn site_fetch_done(&mut self, id: u64, outcome: Result<SiteState, ErrorInfo>) -> (committed:
        bool)
        requires
            old(self).wf(),
            1 <= id <= old(self).site.issued,
        ensures
            (*final(self), committed) == spec_site_fetch_done(*old(self), id, outcome),
            final(self).wf(),
            committed == old(self).site.spec_commits(id),
    {
        match outcome {
            Ok(snapshot) => self.site.complete_ok(id, snapshot),
            Err(cause) => self.site.complete_err(id, cause),
        }
    }

    /// Deliver the response of the theme fetch with id `id`, like
    /// `site_fetch_done`.
    pub fn theme_fetch_done(&mut self, id: u64, outcome: Result<Theme, ErrorInfo>) -> (committed:
        bool)
        requires
            old(self).wf(),
            1 <= id <= old(self).theme.issued,
        ensures
            (*final(self), committed) == spec_theme_fetch_done(*old(self), id, outcome),
            final(self).wf(),
            committed == old(self).theme.spec_commits(id),
    {
        match outcome {
            Ok(theme) => self.theme.complete_ok(id, theme),
            Err(cause) => self.theme.complete_err(id, cause),
        }
    }

    /// What the theme query's handler answers right now: the recorded
    /// cookie, or the default theme while none is set.
    pub fn serve_theme(&self) -> (t: Theme)
        ensures
            t == spec_read_theme(self.theme_cookie),
    {
        read_theme(&self.theme_cookie)
    }
}

/// The context after one whole login step, with the id of the refetch the
/// step issued (`None` only if the effect did not fire, which a well-formed
/// context never exhibits).
pub open spec fn spec_submit_login(a: App, ev: LoginEvent) -> (App, Option<u64>) {
    let (session2, out) = spec_login(a.session, ev);
    let action2 = spec_settle(a.login_action, out);
    let (watch2, fired) = spec_notify(a.login_watch, action2.version);
    if fired {
        let site2 = spec_refetch(a.site);
        (
            App { session: session2, login_action: action2, login_watch: watch2, site: site2, ..a },
            Some(site2.issued),
        )
    } else {
        (App { session: session2, login_action: action2, login_watch: watch2, ..a }, None)
    }
}

/// The context after one whole logout step.
pub open spec fn spec_submit_logout(a: App, ev: LogoutEvent) -> (App, Option<u64>) {
    let (session2, out) = spec_logout(a.session, ev);
    let action2 = spec_settle(a.logout_action, out);
    let (watch2, fired) = spec_notify(a.logout_watch, action2.version);
    if fired {
        let site2 = spec_refetch(a.site);
        (
            App {
                session: session2,
                logout_action: action2,
                logout_watch: watch2,
                site: site2,
                ..a
            },
            Some(site2.issued),
        )
    } else {
        (App { session: session2, logout_action: action2, logout_watch: watch2, ..a }, None)
    }
}

/// The context after one whole theme-change step.
pub open spec fn spec_submit_change_theme(a: App, theme: Theme) -> (App, Option<u64>) {
    let action2 = spec_settle(a.theme_action, Ok(()));
    let (watch2, fired) = spec_notify(a.theme_watch, action2.version);
    if fired {
        let theme2 = spec_refetch(a.theme);
        (
            App {
                theme_cookie: Some(theme),
                theme_action: action2,
                theme_watch: watch2,
                theme: theme2,
                ..a
            },
            Some(theme2.issued),
        )
    } else {
        (App { theme_cookie: Some(theme), theme_action: action2, theme_watch: watch2, ..a }, None)
    }
}

/// The context after a site fetch's response arrives.
pub open spec fn spec_site_fetch_done(a: App, id: u64, outcome: Result<SiteState, ErrorInfo>) -> (
    App,
    bool,
) {
    let committed = a.site.spec_commits(id);
    let site2 = match outcome {
        Ok(snapshot) => spec_complete_ok(a.site, id, snapshot),
        Err(cause) => spec_complete_err(a.site, id, cause),
    };
    (App { site: site2, ..a }, committed)
}

/// The context after a theme fetch's response arrives.
pub open spec fn spec_theme_fetch_done(a: App, id: u64, outcome: Result<Theme, ErrorInfo>) -> (
    App,
    bool,
) {
    let committed = a.theme.spec_commits(id);
    let theme2 = match outcome {
        Ok(theme) => spec_complete_ok(a.theme, id, theme),
        Err(cause) => spec_complete_err(a.theme, id, cause),
    };
    (App { theme: theme2, ..a }, committed)
}

/// After a successful login the session holds the granted token, the
/// invalidation refetch is issued, and the next committed snapshot — any
/// response of that refetch that reflects the session it ran under — is
/// `Ready` and reports a viewer. Dually, after a successful logout the
/// session is purged and the next committed snapshot reports none.
pub proof fn lemma_login_logout_next_ready_viewer(
    a: App,
    token: String,
    snap: SiteState,
    snap2: SiteState,
)
    requires
        a.wf(),
        a.login_action.version < u64::MAX,
        a.logout_action.version < u64::MAX,
        a.site.issued < u64::MAX,
    ensures
        ({
            let (a1, fetch) = spec_submit_login(a, LoginEvent::Granted { jwt: Some(token) });
            &&& a1.session == Some(token)
            &&& a1.login_action.status is Success
            &&& fetch == Some((a.site.issued + 1) as u64)
            &&& (snap.reflects(view_session(a1.session)) ==> {
                let (a2, committed) = spec_site_fetch_done(a1, fetch.unwrap(), Ok(snap));
                &&& committed
                &&& a2.site.phase is Ready
                &&& a2.site.value == Some(snap)
                &&& snap.spec_logged_in()
            })
        }),
        ({
            let (a1, fetch) = spec_submit_logout(a, LogoutEvent::RemoteOk);
            &&& a1.session is None
            &&& a1.logout_action.status is Success
            &&& fetch == Some((a.site.issued + 1) as u64)
            &&& (snap2.reflects(view_session(a1.session)) ==> {
                let (a2, committed) = spec_site_fetch_done(a1, fetch.unwrap(), Ok(snap2));
                &&& committed
                &&& a2.site.phase is Ready
                &&& a2.site.value == Some(snap2)
                &&& !snap2.spec_logged_in()
            })
        }),
{
}

/// A theme change writes the cookie before any refetch completes, and the
/// refetch it triggers — whose response reads that cookie — commits the
/// very theme that was chosen: the cache converges on the cookie.
pub proof fn lemma_change_theme_then_refetch(a: App, theme: Theme)
    requires
        a.wf(),
        a.theme_action.version < u64::MAX,
        a.theme.issued < u64::MAX,
    ensures
        ({
            let (a1, fetch) = spec_submit_change_theme(a, theme);
            &&& a1.theme_cookie == Some(theme)
            &&& spec_read_theme(a1.theme_cookie) == theme
            &&& fetch == Some((a.theme.issued + 1) as u64)
            &&& {
                let (a2, committed) = spec_theme_fetch_done(
                    a1,
                    fetch.unwrap(),
                    Ok(spec_read_theme(a1.theme_cookie)),
                );
                &&& committed
                &&& a2.theme.phase is Ready
                &&& a2.theme.value == Some(theme)
            }
        }),
{
}

/// Two rapid theme changes: the committed preference is the second choice,
/// never the first, whichever order the two responses arrive in — the
/// first fetch's response can no longer commit once the second fetch was
/// issued.
pub proof fn lemma_rapid_theme_changes_last_wins(a: App, first: Theme, second: Theme)
    requires
        a.wf(),
        a.theme_action.version + 2 <= u64::MAX,
        a.theme.issued + 2 <= u64::MAX,
    ensures
        ({
            let (a1, fetch1) = spec_submit_change_theme(a, first);
            let (a2, fetch2) = spec_submit_change_theme(a1, second);
            let id1 = fetch1.unwrap();
            let id2 = fetch2.unwrap();
            // The second response arrives first; the first fetch's response
            // trails in afterwards and is discarded.
            let (b1, won) = spec_theme_fetch_done(a2, id2, Ok(second));
            let (b2, stale) = spec_theme_fetch_done(b1, id1, Ok(first));
            // Or the responses arrive in issuance order; the first fetch's
            // response is already superseded when it arrives.
            let (c1, early) = spec_theme_fetch_done(a2, id1, Ok(first));
            let (c2, final_commit) = spec_theme_fetch_done(c1, id2, Ok(second));
            &&& a2.theme_cookie == Some(second)
            &&& won && !stale
            &&& b2.theme.phase is Ready && b2.theme.value == Some(second)
            &&& !early && final_commit
            &&& c1.theme.value == a2.theme.value
            &&& c2.theme.phase is Ready && c2.theme.value == Some(second)
        }),
{
}

} // verus!
