//! Remote mutations and their observable state.
//!
//! A mutation handle carries a version counter that strictly increases on
//! every settled invocation, successful or not: the counter, not the result
//! value, is what invalidation effects watch, so repeated identical failures
//! still invalidate. The login and logout flows are written against a plain
//! model of the server-side session (the stored token, if any); what the
//! external collaborators did during one invocation arrives as an event
//! value, and the flow's contract states the session and the result for
//! every such event.

use vstd::prelude::*;

use crate::errors::ErrorInfo;

verus! {

/// Where a mutation invocation stands.
#[derive(Clone, Copy, Debug, PartialEq, Eq, Structural)]
pub enum MutationStatus {
    /// Never settled (version 0) or in flight.
    Pending,
    /// The last settled invocation succeeded.
    Success,
    /// The last settled invocation failed; `error` names the cause.
    Failure,
}

/// The observable state of one mutation handle: its status, the version
/// counter that invalidation effects watch, and the cause of the last
/// failure, if the last invocation failed.
pub struct MutationResult {
    pub status: MutationStatus,
    pub version: u64,
    pub error: Option<ErrorInfo>,
}

impl MutationResult {
    /// A freshly created handle: pending, version 0, no error. Version 0 is
    /// the value effects observe at subscription; it never fires them.
    pub open spec fn spec_init() -> MutationResult {
        MutationResult { status: MutationStatus::Pending, version: 0, error: None }
    }

    pub open spec fn wf(self) -> bool {
        &&& (self.status is Failure <==> self.error is Some)
        &&& (self.version == 0 ==> self.status is Pending)
        &&& (self.status is Success || self.status is Failure ==> 1 <= self.version)
    }

    pub fn new() -> (m: MutationResult)
        ensures
            m == Self::spec_init(),
            m.wf(),
    {
        MutationResult { status: MutationStatus::Pending, version: 0, error: None }
    }

    /// Record the outcome of one finished invocation. The version strictly
    /// increases whatever the outcome, including a failure identical to the
    /// previous one: completion is observable only through the counter.
    pub fn settle(&mut self, outcome: Result<(), ErrorInfo>)
        requires
            old(self).wf(),
            old(self).version < u64::MAX,
        ensures
            *final(self) == spec_settle(*old(self), outcome),
            final(self).version == old(self).version + 1,
            final(self).wf(),
    {
        self.version = self.version + 1;
        match outcome {
            Ok(()) => {
                self.status = MutationStatus::Success;
                self.error = None;
            },
            Err(cause) => {
                self.status = MutationStatus::Failure;
                self.error = Some(cause);
            },
        }
    }
}

/// The handle after one invocation settles with `outcome`.
pub open spec fn spec_settle(m: MutationResult, outcome: Result<(), ErrorInfo>) -> MutationResult {
    match outcome {
        Ok(()) => MutationResult {
            status: MutationStatus::Success,
            version: (m.version + 1) as u64,
            error: None,
        },
        Err(cause) => MutationResult {
            status: MutationStatus::Failure,
            version: (m.version + 1) as u64,
            error: Some(cause),
        },
    }
}

/// What the remote API and the session store did during one login
/// invocation, summarized for the flow's decision.
pub enum LoginEvent {
    /// The remote login succeeded and granted `jwt` (a login without a
    /// token, as with some second-factor flows, grants none).
    Granted { jwt: Option<String> },
    /// The remote end could not be reached.
    TransportFailed,
    /// The remote API rejected the credentials.
    Rejected,
    /// The remote login granted a token but the session store failed to
    /// record it.
    StoreFailed,
}

/// The login flow's effect on the session for each event.
pub open spec fn spec_login(session: Option<String>, ev: LoginEvent) -> (Option<String>, Result<
    (),
    ErrorInfo,
>) {
    match ev {
        LoginEvent::Granted { jwt: Some(token) } => (Some(token), Ok(())),
        LoginEvent::Granted { jwt: None } => (session, Ok(())),
        LoginEvent::TransportFailed => (session, Err(ErrorInfo::TransportError)),
        LoginEvent::Rejected => (session, Err(ErrorInfo::RemoteRejection)),
        LoginEvent::StoreFailed => (session, Err(ErrorInfo::SessionError)),
    }
}

/// The login mutation: on success with a token present the token is written
/// into the session; on any failure the session is left untouched and the
/// cause is returned. No retry happens here — a second submission is a new,
/// independent invocation.
pub fn login(session: &mut Option<String>, ev: LoginEvent) -> (out: Result<(), ErrorInfo>)
    ensures
        (*final(session), out) == spec_login(*old(session), ev),
{
    match ev {
        LoginEvent::Granted { jwt: Some(token) } => {
            *session = Some(token);
            Ok(())
        },
        LoginEvent::Granted { jwt: None } => Ok(()),
        LoginEvent::TransportFailed => Err(ErrorInfo::TransportError),
        LoginEvent::Rejected => Err(ErrorInfo::RemoteRejection),
        LoginEvent::StoreFailed => Err(ErrorInfo::SessionError),
    }
}

/// What the session store and the remote API did during one logout
/// invocation.
#[derive(Clone, Copy, Debug, PartialEq, Eq, Structural)]
pub enum LogoutEvent {
    /// The remote logout call completed.
    RemoteOk,
    /// The remote logout call failed.
    RemoteFailed,
    /// The stored token could not be read back from the session.
    ReadFailed,
}

/// The logout flow's effect on the session for each event.
pub open spec fn spec_logout(session: Option<String>, ev: LogoutEvent) -> (Option<String>, Result<
    (),
    ErrorInfo,
>) {
    match ev {
        LogoutEvent::RemoteOk => (None, Ok(())),
        LogoutEvent::RemoteFailed => (session, Err(ErrorInfo::TransportError)),
        LogoutEvent::ReadFailed => (session, Err(ErrorInfo::SessionError)),
    }
}

/// The logout mutation: the stored token (if any — a missing token is not an
/// error, the remote call is then a no-op) is read, the remote logout is
/// called, and the session is purged. Note the purge happens only after the
/// remote call succeeds: a transport failure leaves the local session
/// intact even though the user asked to be logged out.
pub fn logout(session: &mut Option<String>, ev: LogoutEvent) -> (out: Result<(), ErrorInfo>)
    ensures
        (*final(session), out) == spec_logout(*old(session), ev),
{
    match ev {
        LogoutEvent::RemoteOk => {
            *session = None;
            Ok(())
        },
        LogoutEvent::RemoteFailed => Err(ErrorInfo::TransportError),
        LogoutEvent::ReadFailed => Err(ErrorInfo::SessionError),
    }
}

/// The session's mathematical view: the stored token's characters, if one is
/// stored.
pub open spec fn view_session(session: Option<String>) -> Option<Seq<char>> {
    match session {
        Some(token) => Some(token@),
        None => None,
    }
}

} // verus!
