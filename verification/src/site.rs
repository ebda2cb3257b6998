//! The site snapshot: what one fetch against the remote API reports about
//! the instance and about the signed-in person. A snapshot is immutable per
//! fetch and replaced wholesale on refetch; it is the single source of truth
//! for "is a user logged in".

use vstd::prelude::*;

verus! {

/// A read-only view of the signed-in person, as one site snapshot reports
/// it.
pub struct UserSummary {
    pub username: String,
    pub display_name: Option<String>,
}

impl UserSummary {
    pub open spec fn view_names(self) -> (Seq<char>, Option<Seq<char>>) {
        (self.username@, match self.display_name {
            Some(d) => Some(d@),
            None => None,
        })
    }

    /// The name shown for this person: the chosen display name when one is
    /// set, the account name otherwise.
    pub fn shown_name(&self) -> (r: &String)
        ensures
            r@ == self.spec_shown_name(),
    {
        match &self.display_name {
            Some(d) => d,
            None => &self.username,
        }
    }

    pub open spec fn spec_shown_name(self) -> Seq<char> {
        match self.display_name {
            Some(d) => d@,
            None => self.username@,
        }
    }
}

/// One immutable snapshot of the remote site's state. `viewer` is `None`
/// exactly when the session that the fetch ran under held no valid token.
pub struct SiteState {
    pub site_name: String,
    pub backend_version: String,
    pub viewer: Option<UserSummary>,
}

impl SiteState {
    /// Whether this snapshot reports a signed-in viewer.
    pub open spec fn spec_logged_in(self) -> bool {
        self.viewer is Some
    }

    /// Whether this snapshot is what a fetch run under `session` reports
    /// about the viewer: a snapshot fetched while the session held a (still
    /// valid) token reports the viewer, one fetched with no session reports
    /// none. Token validity is the server's side of the bargain; a token the
    /// server just granted, or still stores, is valid.
    pub open spec fn reflects(self, session: Option<Seq<char>>) -> bool {
        self.spec_logged_in() <==> session is Some
    }
}

} // verus!
