//! The decision of the redirect flow once the check for a returning
//! redirect has settled.
use vstd::prelude::*;
use crate::account::{AuthenticationResult, RawAuthenticationResult};
use crate::claims::MismatchPolicy;

verus! {

/// How the check for a returning redirect settled when the page loaded.
pub enum RedirectCheck {
    /// The check failed inside the authentication library.
    Failed,
    /// The page was not reached by a returning redirect.
    NotReturning,
    /// The page was reached by a returning redirect, with this result.
    Returned(RawAuthenticationResult),
}

/// What the redirect flow does next.
pub enum RedirectStep {
    /// Nothing: the check failed.
    Stop,
    /// Navigate away to sign in.
    StartLogin,
    /// Hand the result of the returning redirect to the application.
    Deliver(AuthenticationResult),
}

/// The step that follows a settled check: a fresh sign-in only when the page
/// was not reached by a returning redirect.
pub open spec fn redirect_step_is(check: RedirectCheck, policy: MismatchPolicy, step: RedirectStep) -> bool {
    match check {
        RedirectCheck::Failed => step is Stop,
        RedirectCheck::NotReturning => step is StartLogin,
        RedirectCheck::Returned(raw) => step matches RedirectStep::Deliver(result)
            && result@ == AuthenticationResult::from_raw_view(raw, policy),
    }
}

/// Decides the step that follows the check for a returning redirect; the
/// check must have settled before a new sign-in may start.
pub fn after_redirect_check(check: RedirectCheck, policy: MismatchPolicy) -> (r: RedirectStep)
    ensures
        redirect_step_is(check, policy, r),
{
    match check {
        RedirectCheck::Failed => RedirectStep::Stop,
        RedirectCheck::NotReturning => RedirectStep::StartLogin,
        RedirectCheck::Returned(raw) => RedirectStep::Deliver(AuthenticationResult::from_raw(raw, policy)),
    }
}

} // verus!
