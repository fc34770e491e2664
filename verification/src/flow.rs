//! The run's state machine: discover, log in, list shares, resolve the
//! target share, upload, log out — fully sequential, one step at a time.
//!
//! The machine owns the error policy. A discovery or login failure aborts
//! the run before any session exists, so no logout is owed. Once login has
//! succeeded, every later failure (listing, resolution, upload) is carried
//! to the single terminal logout step: logout is requested exactly once per
//! successful login, on every exit path. The caller performs each requested
//! step outside and feeds the outcome back in as an event.

use vstd::prelude::*;

use crate::api::Directory;
use crate::error::ClientError;
use crate::share::SharedFolder;
use crate::share::spec_find_share;

verus! {

/// Where the run stands. The terminal states: `Finished` (the session was
/// opened and closed again) and `Aborted` (the run died before a session
/// ever existed).
pub enum Phase {
    /// Awaiting the capability discovery outcome.
    Discovering,
    /// Awaiting the login outcome.
    LoggingIn { dir: Directory },
    /// Logged in; awaiting the share listing.
    Listing { dir: Directory },
    /// Share resolved; awaiting the upload outcome.
    Uploading { dir: Directory, share_path: String },
    /// Awaiting the logout outcome; `run_err` is what went wrong after
    /// login, if anything, carried through so logout still runs.
    LoggingOut { dir: Directory, run_err: Option<ClientError> },
    /// The session was closed; both outcomes are reported.
    Finished { run_err: Option<ClientError>, logout_err: Option<ClientError> },
    /// The run died before a session existed; logout is not owed.
    Aborted { err: ClientError },
}

/// The outcome of the step a phase was awaiting.
pub enum Event {
    Discovered(Result<Directory, ClientError>),
    LoginDone(Result<(), ClientError>),
    SharesListed(Result<Vec<SharedFolder>, ClientError>),
    UploadDone(Result<(), ClientError>),
    LogoutDone(Result<(), ClientError>),
}

/// The step a phase asks its caller to perform next, if any.
#[derive(Clone, Copy, PartialEq, Eq, Structural, Debug)]
pub enum Step {
    Discover,
    Login,
    ListShares,
    Upload,
    Logout,
}

pub open spec fn spec_step_of(phase: Phase) -> Option<Step> {
    match phase {
        Phase::Discovering => Some(Step::Discover),
        Phase::LoggingIn { .. } => Some(Step::Login),
        Phase::Listing { .. } => Some(Step::ListShares),
        Phase::Uploading { .. } => Some(Step::Upload),
        Phase::LoggingOut { .. } => Some(Step::Logout),
        Phase::Finished { .. } => None,
        Phase::Aborted { .. } => None,
    }
}

/// What the run must do next: one step per live phase, nothing in a
/// terminal phase. Logout is requested in the `LoggingOut` phase alone.
pub fn step_of(phase: &Phase) -> (r: Option<Step>)
    ensures
        r == spec_step_of(*phase),
{
    match phase {
        Phase::Discovering => Some(Step::Discover),
        Phase::LoggingIn { .. } => Some(Step::Login),
        Phase::Listing { .. } => Some(Step::ListShares),
        Phase::Uploading { .. } => Some(Step::Upload),
        Phase::LoggingOut { .. } => Some(Step::Logout),
        Phase::Finished { .. } => None,
        Phase::Aborted { .. } => None,
    }
}

/// Whether an event is the outcome of the step the phase was awaiting.
/// Terminal phases await nothing.
pub open spec fn event_fits(phase: Phase, event: Event) -> bool {
    match (phase, event) {
        (Phase::Discovering, Event::Discovered(_)) => true,
        (Phase::LoggingIn { .. }, Event::LoginDone(_)) => true,
        (Phase::Listing { .. }, Event::SharesListed(_)) => true,
        (Phase::Uploading { .. }, Event::UploadDone(_)) => true,
        (Phase::LoggingOut { .. }, Event::LogoutDone(_)) => true,
        _ => false,
    }
}

/// The transition function, in full:
/// - a discovery or login failure aborts (no session, no logout);
/// - a successful login opens the session;
/// - a listing failure, an unresolved share name, or an upload failure is
///   carried into the logout phase as the run's error;
/// - the logout outcome closes the run.
pub open spec fn spec_advance(phase: Phase, share_name: Seq<char>, event: Event) -> Phase {
    match (phase, event) {
        (Phase::Discovering, Event::Discovered(Ok(dir))) => Phase::LoggingIn { dir },
        (Phase::Discovering, Event::Discovered(Err(e))) => Phase::Aborted { err: e },
        (Phase::LoggingIn { dir }, Event::LoginDone(Ok(_))) => Phase::Listing { dir },
        (Phase::LoggingIn { .. }, Event::LoginDone(Err(e))) => Phase::Aborted { err: e },
        (Phase::Listing { dir }, Event::SharesListed(Ok(shares))) => match spec_find_share(
            shares@,
            share_name,
        ) {
            Some(i) => Phase::Uploading { dir, share_path: shares@[i].path },
            None => Phase::LoggingOut { dir, run_err: Some(ClientError::ShareNotFound) },
        },
        (Phase::Listing { dir }, Event::SharesListed(Err(e))) => Phase::LoggingOut {
            dir,
            run_err: Some(e),
        },
        (Phase::Uploading { dir, .. }, Event::UploadDone(res)) => Phase::LoggingOut {
            dir,
            run_err: match res {
                Ok(_) => None,
                Err(e) => Some(e),
            },
        },
        (Phase::LoggingOut { run_err, .. }, Event::LogoutDone(res)) => Phase::Finished {
            run_err,
            logout_err: match res {
                Ok(_) => None,
                Err(e) => Some(e),
            },
        },
        (p, _) => p,
    }
}

/// Advances the run by one step outcome.
pub fn advance(phase: Phase, share_name: &String, event: Event) -> (r: Phase)
    requires
        event_fits(phase, event),
    ensures
        r == spec_advance(phase, share_name@, event),
{
    match (phase, event) {
        (Phase::Discovering, Event::Discovered(Ok(dir))) => Phase::LoggingIn { dir },
        (Phase::Discovering, Event::Discovered(Err(e))) => Phase::Aborted { err: e },
        (Phase::LoggingIn { dir }, Event::LoginDone(Ok(_))) => Phase::Listing { dir },
        (Phase::LoggingIn { .. }, Event::LoginDone(Err(e))) => Phase::Aborted { err: e },
        (Phase::Listing { dir }, Event::SharesListed(Ok(mut shares))) => {
            match crate::share::find_share(&shares, share_name) {
                Some(i) => {
                    let share = shares.remove(i);
                    Phase::Uploading { dir, share_path: share.path }
                },
                None => Phase::LoggingOut { dir, run_err: Some(ClientError::ShareNotFound) },
            }
        },
        (Phase::Listing { dir }, Event::SharesListed(Err(e))) => Phase::LoggingOut {
            dir,
            run_err: Some(e),
        },
        (Phase::Uploading { dir, .. }, Event::UploadDone(res)) => Phase::LoggingOut {
            dir,
            run_err: match res {
                Ok(_) => None,
                Err(e) => Some(e),
            },
        },
        (Phase::LoggingOut { run_err, .. }, Event::LogoutDone(res)) => Phase::Finished {
            run_err,
            logout_err: match res {
                Ok(_) => None,
                Err(e) => Some(e),
            },
        },
        (p, _) => p,
    }
}

/// Law (happy path): when discovery, login, listing, upload and logout all
/// succeed and the target share is among those listed, the run walks
/// through every phase in order, requests logout exactly once, and
/// finishes with no error anywhere — it never aborts.
pub proof fn lemma_happy_path(dir: Directory, shares: Vec<SharedFolder>, share_name: Seq<char>)
    requires
        spec_find_share(shares@, share_name) is Some,
    ensures
        ({
            let i = spec_find_share(shares@, share_name)->Some_0;
            let p1 = spec_advance(Phase::Discovering, share_name, Event::Discovered(Ok(dir)));
            let p2 = spec_advance(p1, share_name, Event::LoginDone(Ok(())));
            let p3 = spec_advance(p2, share_name, Event::SharesListed(Ok(shares)));
            let p4 = spec_advance(p3, share_name, Event::UploadDone(Ok(())));
            let p5 = spec_advance(p4, share_name, Event::LogoutDone(Ok(())));
            &&& p1 == (Phase::LoggingIn { dir })
            &&& p2 == (Phase::Listing { dir })
            &&& p3 == (Phase::Uploading { dir, share_path: shares@[i].path })
            &&& spec_step_of(p3) == Some(Step::Upload)
            &&& p4 == (Phase::LoggingOut { dir, run_err: None::<ClientError> })
            &&& spec_step_of(p4) == Some(Step::Logout)
            &&& p5 == (Phase::Finished {
                run_err: None::<ClientError>,
                logout_err: None::<ClientError>,
            })
            &&& spec_step_of(p5) is None
        }),
{
}

/// Law (failure path): when login fails with a domain error, the run
/// aborts at once — share listing and upload are never requested, and
/// since no session was ever established, logout is never requested
/// either: no event fits the aborted phase, which is final.
pub proof fn lemma_login_failure_aborts(dir: Directory, share_name: Seq<char>, err: ClientError)
    ensures
        ({
            let p = spec_advance(
                Phase::LoggingIn { dir },
                share_name,
                Event::LoginDone(Err(err)),
            );
            &&& p == (Phase::Aborted { err })
            &&& spec_step_of(p) is None
            &&& forall|e: Event| !event_fits(p, e)
            &&& forall|e: Event| spec_advance(p, share_name, e) == p
        }),
{
}

/// Law (release discipline): the only phase that requests logout is
/// `LoggingOut`, and the only transitions into it start from a phase in
/// which login has already succeeded — a run that never passes the login
/// step never has logout requested.
pub proof fn lemma_logout_needs_login(phase: Phase, share_name: Seq<char>, event: Event)
    ensures
        spec_step_of(spec_advance(phase, share_name, event)) == Some(Step::Logout)
            ==> (phase is Listing || phase is Uploading || (phase is LoggingOut
            && spec_advance(phase, share_name, event) == phase)),
{
}

} // verus!
