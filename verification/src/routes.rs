//! The two request handlers, as functions on the store: subscribing and
//! confirming. They decide; carrying requests and mail is left to the caller.

use vstd::prelude::*;

pub mod subscriptions;
pub mod subscriptions_confirm;

verus! {

/// What a request is answered with.
#[derive(Clone, Copy, Debug, PartialEq, Eq, Structural)]
pub enum HttpOutcome {
    /// A subscription was taken and its confirmation email sent.
    Accepted,
    /// A subscriber was confirmed.
    Confirmed,
    /// The form does not hold a valid name and a valid address.
    BadRequest,
    /// The confirmation token is not known.
    Unauthorized,
    /// The store or the mail transport failed.
    InternalError,
}

impl HttpOutcome {
    /// The status code of the outcome.
    pub open spec fn code(self) -> u16 {
        match self {
            HttpOutcome::Accepted => 200,
            HttpOutcome::Confirmed => 200,
            HttpOutcome::BadRequest => 400,
            HttpOutcome::Unauthorized => 401,
            HttpOutcome::InternalError => 500,
        }
    }

    /// The status code to answer with.
    pub fn status_code(&self) -> (code: u16)
        ensures
            code == self.code(),
    {
        match self {
            HttpOutcome::Accepted => 200,
            HttpOutcome::Confirmed => 200,
            HttpOutcome::BadRequest => 400,
            HttpOutcome::Unauthorized => 401,
            HttpOutcome::InternalError => 500,
        }
    }
}

} // verus!
