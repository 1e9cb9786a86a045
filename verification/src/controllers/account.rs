//! The login state and the login form's outcome.

use vstd::prelude::*;
use crate::models::Account;
use super::{Reply, RequestUrl, redirect, origin, login_path};

verus! {

/// Whether the session holds an account.
pub fn check_login(session_account: &Option<Account>) -> (r: bool)
    ensures
        r == session_account is Some,
{
    session_account.is_some()
}

/// What the login form leads to.
pub enum LoginOutcome {
    /// The credentials matched this account: keep it in the session and
    /// send the visitor to the start page.
    SignedIn(Account, Reply),
    /// No account matched: show the login page again, flagged with an error.
    Rejected,
}

/// The outcome of a login attempt, given the account that the credentials
/// matched, if any.
pub fn login_outcome(url: &RequestUrl, matched: Option<Account>) -> (r: LoginOutcome)
    ensures
        matched is None ==> r is Rejected,
        matched matches Some(a) ==> {
            &&& r matches LoginOutcome::SignedIn(b, reply)
            &&& r->SignedIn_0 == a
            &&& r->SignedIn_1.status == 302
            &&& r->SignedIn_1.body is None
            &&& r->SignedIn_1.content_type is None
            &&& r->SignedIn_1.location matches Some(l) && l@ == origin(*url) + "/"@
        },
{
    match matched {
        Some(a) => LoginOutcome::SignedIn(a, redirect(url, "/")),
        None => LoginOutcome::Rejected,
    }
}

/// Logging out ends on the login page.
pub fn logout_reply(url: &RequestUrl) -> (r: Reply)
    ensures
        r.status == 302,
        r.body is None,
        r.content_type is None,
        r.location matches Some(l) && l@ == origin(*url) + login_path(),
{
    redirect(url, "/account/login/")
}

} // verus!
