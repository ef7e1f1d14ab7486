//! Subscribing: from a submitted form to a pending subscriber, a stored
//! token and a confirmation email that waits to be sent.
//!
//! The workflow stops where the email has to leave: [`subscribe`] hands the
//! message out, the caller sends it, and [`delivery_outcome`] turns what the
//! transport reported into the answer.

use vstd::prelude::*;
use crate::domain::{
    name_defect, valid_email, valid_name, NewSubscriber, SubscriberEmail, SubscriberName,
    ValidationError,
};
use crate::email::{confirmation_email, confirmation_email_view, ConfirmationEmail};
use crate::routes::HttpOutcome;
use crate::store::{
    insert_subscriber, insert_subscriber_with, is_random_uuid, store_token, StoreView,
    SubscriberId, SubscriberRow, SubscriptionStatus, SubscriptionStore,
};
use crate::token::{generate_subscription_token, is_token};

verus! {

/// The fields of the subscription form, as they were submitted.
#[derive(Debug)]
pub struct FormData {
    pub email: String,
    pub name: String,
}

/// A form is valid when its name and its address both are.
pub open spec fn form_is_valid(name: Seq<char>, email: Seq<char>) -> bool {
    valid_name(name) && valid_email(email)
}

/// What is wrong with a form, if anything: the defect of the name, and for a
/// valid name that of the address.
pub open spec fn form_defect(name: Seq<char>, email: Seq<char>) -> Option<ValidationError> {
    match name_defect(name) {
        Some(e) => Some(e),
        None => if valid_email(email) {
            None
        } else {
            Some(ValidationError::MalformedEmail)
        },
    }
}

impl NewSubscriber {
    /// Validates a form: first the name, then the address.
    pub fn try_from(value: FormData) -> (r: Result<NewSubscriber, ValidationError>)
        ensures
            r is Ok <==> form_is_valid(value.name@, value.email@),
            match r {
                Ok(subscriber) => subscriber.name@ == value.name@ && subscriber.email@
                    == value.email@,
                Err(e) => form_defect(value.name@, value.email@) == Some(e),
            },
    {
        let name = match SubscriberName::parse(value.name) {
            Ok(name) => name,
            Err(e) => {
                return Err(e);
            },
        };
        let email = match SubscriberEmail::parse(value.email) {
            Ok(email) => email,
            Err(e) => {
                return Err(e);
            },
        };
        Ok(NewSubscriber { email, name })
    }
}

/// The mail transport failed to take a message.
#[derive(Clone, Copy, Debug, PartialEq, Eq, Structural)]
pub struct TransportError;

/// A subscription whose writes are done and whose email is still to be sent.
#[derive(Debug)]
pub struct PendingConfirmation {
    pub subscriber_id: SubscriberId,
    pub subscription_token: String,
    pub email: ConfirmationEmail,
}

/// How far a subscription got.
#[derive(Debug)]
pub enum SubscribeStep {
    /// The request is answered: nothing is left to do.
    Respond(HttpOutcome),
    /// The subscriber and the token are stored. The email is to be sent, and
    /// [`delivery_outcome`] gives the answer.
    Deliver(PendingConfirmation),
}

/// The row that is written for a valid form.
pub open spec fn form_row(
    name: Seq<char>,
    email: Seq<char>,
    id: SubscriberId,
    subscribed_at: i64,
) -> SubscriberRow {
    SubscriberRow { id, email, name, subscribed_at, status: SubscriptionStatus::PendingConfirmation }
}

/// The answer that ends a subscription before any email is due, if there is
/// one: a bad request for an invalid form, an internal error where the store
/// refuses the subscriber (the address or the identifier is taken) or the
/// token (it is taken).
pub open spec fn subscribe_refusal(
    s: StoreView,
    name: Seq<char>,
    email: Seq<char>,
    id: SubscriberId,
    token: Seq<char>,
) -> Option<HttpOutcome> {
    if !form_is_valid(name, email) {
        Some(HttpOutcome::BadRequest)
    } else if s.insert_result(id, email) is Err {
        Some(HttpOutcome::InternalError)
    } else if s.has_token(token) {
        Some(HttpOutcome::InternalError)
    } else {
        None
    }
}

/// The store after a subscription: untouched for an invalid form and for a
/// subscriber that the store refuses; else with the pending subscriber and,
/// unless the token is taken, the token bound to it. Nothing is rolled back:
/// a subscriber whose token was refused stays.
pub open spec fn after_subscribe(
    s: StoreView,
    name: Seq<char>,
    email: Seq<char>,
    id: SubscriberId,
    subscribed_at: i64,
    token: Seq<char>,
) -> StoreView {
    if !form_is_valid(name, email) || s.insert_result(id, email) is Err {
        s
    } else {
        s.after_insert(form_row(name, email, id, subscribed_at)).after_store_token(id, token)
    }
}

/// Subscribes with an identifier, a time and a token that the caller
/// chooses. Validates the form, writes the pending subscriber, binds the
/// token to it and builds the confirmation email; the first step that fails
/// ends the request.
pub fn subscribe_with(
    store: &mut SubscriptionStore,
    form: FormData,
    base_url: &str,
    id: SubscriberId,
    subscribed_at: i64,
    subscription_token: &str,
) -> (step: SubscribeStep)
    ensures
        final(store)@ == after_subscribe(
            old(store)@,
            form.name@,
            form.email@,
            id,
            subscribed_at,
            subscription_token@,
        ),
        old(store)@.wf() ==> final(store)@.wf(),
        match step {
            SubscribeStep::Respond(outcome) => subscribe_refusal(
                old(store)@,
                form.name@,
                form.email@,
                id,
                subscription_token@,
            ) == Some(outcome),
            SubscribeStep::Deliver(pending) => {
                &&& subscribe_refusal(
                    old(store)@,
                    form.name@,
                    form.email@,
                    id,
                    subscription_token@,
                ) is None
                &&& pending.subscriber_id == id
                &&& pending.subscription_token@ == subscription_token@
                &&& pending.email@ == confirmation_email_view(
                    form.email@,
                    base_url@,
                    subscription_token@,
                )
            },
        },
{
    let new_subscriber = match NewSubscriber::try_from(form) {
        Ok(new_subscriber) => new_subscriber,
        Err(_) => {
            return SubscribeStep::Respond(HttpOutcome::BadRequest);
        },
    };
    if insert_subscriber_with(store, &new_subscriber, id, subscribed_at).is_err() {
        return SubscribeStep::Respond(HttpOutcome::InternalError);
    }
    issue_confirmation(store, new_subscriber, id, base_url, subscription_token)
}

/// The second half of a subscription, for a subscriber that was just
/// written: binds the token to it and builds the confirmation email.
fn issue_confirmation(
    store: &mut SubscriptionStore,
    new_subscriber: NewSubscriber,
    subscriber_id: SubscriberId,
    base_url: &str,
    subscription_token: &str,
) -> (step: SubscribeStep)
    requires
        old(store)@.subscribers.len() > 0,
        old(store)@.subscribers.last().id == subscriber_id,
    ensures
        final(store)@ == old(store)@.after_store_token(subscriber_id, subscription_token@),
        old(store)@.wf() ==> final(store)@.wf(),
        match step {
            SubscribeStep::Respond(outcome) => old(store)@.has_token(subscription_token@)
                && outcome == HttpOutcome::InternalError,
            SubscribeStep::Deliver(pending) => {
                &&& !old(store)@.has_token(subscription_token@)
                &&& pending.subscriber_id == subscriber_id
                &&& pending.subscription_token@ == subscription_token@
                &&& pending.email@ == confirmation_email_view(
                    new_subscriber.email@,
                    base_url@,
                    subscription_token@,
                )
            },
        },
{
    assert(store@.has_id(subscriber_id)) by {
        assert(store@.subscribers[store@.subscribers.len() - 1].id == subscriber_id);
    }
    if store_token(store, subscriber_id, subscription_token).is_err() {
        return SubscribeStep::Respond(HttpOutcome::InternalError);
    }
    let email = confirmation_email(new_subscriber.email, base_url, subscription_token);
    SubscribeStep::Deliver(
        PendingConfirmation {
            subscriber_id,
            subscription_token: subscription_token.to_owned(),
            email,
        },
    )
}

/// Subscribes under a freshly drawn identifier and token, at the current
/// time. An invalid form is a bad request and writes nothing. An address
/// that is taken is an internal error and writes nothing. Otherwise the
/// subscriber and the token are written and the email is handed out, unless
/// one of the values drawn is, by an unlikely chance, taken already; on an
/// empty store nothing is taken.
pub fn subscribe(store: &mut SubscriptionStore, form: FormData, base_url: &str) -> (step:
    SubscribeStep)
    ensures
        old(store)@.wf() ==> final(store)@.wf(),
        !form_is_valid(form.name@, form.email@) ==> final(store)@ == old(store)@,
        old(store)@.has_email(form.email@) ==> final(store)@ == old(store)@,
        form_is_valid(form.name@, form.email@) && old(store)@.has_email(form.email@) ==> step
            matches SubscribeStep::Respond(HttpOutcome::InternalError),
        form_is_valid(form.name@, form.email@) && old(store)@.subscribers.len() == 0 && old(
            store,
        )@.tokens.len() == 0 ==> step is Deliver,
        match step {
            SubscribeStep::Respond(outcome) => {
                &&& outcome == HttpOutcome::BadRequest <==> !form_is_valid(form.name@, form.email@)
                &&& outcome == HttpOutcome::InternalError <==> form_is_valid(
                    form.name@,
                    form.email@,
                )
                &&& {
                    ||| final(store)@ == old(store)@
                    ||| final(store)@ == old(store)@.after_insert(
                        form_row(
                            form.name@,
                            form.email@,
                            final(store)@.subscribers.last().id,
                            final(store)@.subscribers.last().subscribed_at,
                        ),
                    )
                }
            },
            SubscribeStep::Deliver(pending) => {
                &&& is_random_uuid(pending.subscriber_id.0)
                &&& is_token(pending.subscription_token@)
                &&& subscribe_refusal(
                    old(store)@,
                    form.name@,
                    form.email@,
                    pending.subscriber_id,
                    pending.subscription_token@,
                ) is None
                &&& final(store)@ == after_subscribe(
                    old(store)@,
                    form.name@,
                    form.email@,
                    pending.subscriber_id,
                    final(store)@.subscribers.last().subscribed_at,
                    pending.subscription_token@,
                )
                &&& pending.email@ == confirmation_email_view(
                    form.email@,
                    base_url@,
                    pending.subscription_token@,
                )
            },
        },
{
    let new_subscriber = match NewSubscriber::try_from(form) {
        Ok(new_subscriber) => new_subscriber,
        Err(_) => {
            return SubscribeStep::Respond(HttpOutcome::BadRequest);
        },
    };
    let subscriber_id = match insert_subscriber(store, &new_subscriber) {
        Ok(subscriber_id) => subscriber_id,
        Err(_) => {
            return SubscribeStep::Respond(HttpOutcome::InternalError);
        },
    };
    let subscription_token = generate_subscription_token();
    issue_confirmation(
        store,
        new_subscriber,
        subscriber_id,
        base_url,
        subscription_token.as_str(),
    )
}

/// The answer to a subscription whose email the transport has taken or
/// refused.
pub fn delivery_outcome(sent: Result<(), TransportError>) -> (outcome: HttpOutcome)
    ensures
        outcome == if sent is Ok {
            HttpOutcome::Accepted
        } else {
            HttpOutcome::InternalError
        },
{
    match sent {
        Ok(()) => HttpOutcome::Accepted,
        Err(_) => HttpOutcome::InternalError,
    }
}

} // verus!
