//! Confirming a subscription with the token of a confirmation link.

use vstd::prelude::*;
use crate::routes::HttpOutcome;
use crate::store::{confirm_subscriber, StoreError, SubscriptionStore};

verus! {

/// The query parameters of a confirmation link.
#[derive(Debug)]
pub struct Parameters {
    pub subscription_token: String,
}

/// The answer to a confirmation, given what the store reported: an unknown
/// token is not authorized, any other failure is a failure of the service.
pub open spec fn confirm_outcome(reported: Result<(), StoreError>) -> HttpOutcome {
    match reported {
        Ok(()) => HttpOutcome::Confirmed,
        Err(StoreError::UnknownToken) => HttpOutcome::Unauthorized,
        Err(_) => HttpOutcome::InternalError,
    }
}

/// Answers a confirmation for which the store reported `reported`.
pub fn confirmation_outcome(reported: Result<(), StoreError>) -> (outcome: HttpOutcome)
    ensures
        outcome == confirm_outcome(reported),
{
    match reported {
        Ok(()) => HttpOutcome::Confirmed,
        Err(StoreError::UnknownToken) => HttpOutcome::Unauthorized,
        Err(_) => HttpOutcome::InternalError,
    }
}

/// Redeems the token of a confirmation link. A known token confirms the
/// subscriber it was issued to, however often it is redeemed; an unknown one
/// changes nothing and is not authorized.
pub fn confirm(store: &mut SubscriptionStore, parameters: &Parameters) -> (outcome: HttpOutcome)
    ensures
        final(store)@ == old(store)@.after_confirm(parameters.subscription_token@),
        outcome == confirm_outcome(old(store)@.confirm_result(parameters.subscription_token@)),
        old(store)@.wf() ==> final(store)@.wf(),
{
    confirmation_outcome(confirm_subscriber(store, parameters.subscription_token.as_str()))
}

} // verus!
