//! What holds of the store and of the two workflows, whatever the requests
//! and in whatever order they come.
//!
//! Every statement here is about the functions on [`StoreView`] in which the
//! operations state their effect, so it holds of the operations themselves.

use vstd::prelude::*;
use crate::routes::subscriptions::{after_subscribe, form_is_valid, form_row, subscribe_refusal};
use crate::routes::HttpOutcome;
use crate::store::{
    confirm_rows, lemma_confirm_keeps_wf, lemma_insert_keeps_wf, lemma_owner_is_unique,
    lemma_store_token_keeps_wf, lemma_subscriber_is_unique, StoreError, StoreView, SubscriberId,
    SubscriberRow, SubscriptionStatus, TokenRow,
};

verus! {

/// `t` may come after `s`: every subscriber of `s` is still there, in its
/// place and with its identifier, address, name and time of subscription,
/// and is confirmed if it was; every token of `s` is still there and still
/// belongs to the same subscriber.
pub open spec fn follows(s: StoreView, t: StoreView) -> bool {
    &&& s.subscribers.len() <= t.subscribers.len()
    &&& s.tokens.len() <= t.tokens.len()
    &&& forall|i: int|
        0 <= i < s.subscribers.len() ==> {
            let before = #[trigger] s.subscribers[i];
            let after = t.subscribers[i];
            &&& after.id == before.id
            &&& after.email == before.email
            &&& after.name == before.name
            &&& after.subscribed_at == before.subscribed_at
            &&& before.status == SubscriptionStatus::Confirmed ==> after.status
                == SubscriptionStatus::Confirmed
        }
    &&& forall|i: int| 0 <= i < s.tokens.len() ==> t.tokens[i] == #[trigger] s.tokens[i]
}

/// A store may come after itself.
pub proof fn lemma_follows_is_reflexive(s: StoreView)
    ensures
        follows(s, s),
{
}

/// What may come after a store that may come after `s` may come after `s`:
/// so the guarantees of single operations hold of any run of them.
pub proof fn lemma_follows_is_transitive(s: StoreView, t: StoreView, u: StoreView)
    requires
        follows(s, t),
        follows(t, u),
    ensures
        follows(s, u),
{
    assert forall|i: int| 0 <= i < s.subscribers.len() implies {
        let before = #[trigger] s.subscribers[i];
        let after = u.subscribers[i];
        &&& after.id == before.id
        &&& after.email == before.email
        &&& after.name == before.name
        &&& after.subscribed_at == before.subscribed_at
        &&& before.status == SubscriptionStatus::Confirmed ==> after.status
            == SubscriptionStatus::Confirmed
    } by {
        let middle = t.subscribers[i];
    }
    assert forall|i: int| 0 <= i < s.tokens.len() implies u.tokens[i] == #[trigger] s.tokens[i] by {
        assert(t.tokens[i] == s.tokens[i]);
    }
}

/// A token keeps its owner: in whatever consistent store comes after, a
/// token of `s` resolves to the subscriber it resolves to in `s`.
pub proof fn lemma_token_keeps_its_owner(s: StoreView, t: StoreView, token: Seq<char>)
    requires
        follows(s, t),
        t.wf(),
        s.has_token(token),
    ensures
        t.has_token(token),
        t.owner(token) == s.owner(token),
{
    let k = choose|k: int| 0 <= k < s.tokens.len() && (#[trigger] s.tokens[k]).token == token;
    lemma_first_token_row(s, token, k);
    let first = choose|i: int| s.is_first_with_token(i, token);
    assert(t.tokens[first] == s.tokens[first]);
    lemma_owner_is_unique(t, first);
}

/// A confirmed subscriber stays confirmed: in whatever consistent store
/// comes after, a subscriber that is confirmed in `s` is confirmed.
pub proof fn lemma_confirmed_stays_confirmed(s: StoreView, t: StoreView, id: SubscriberId)
    requires
        follows(s, t),
        s.wf(),
        t.wf(),
        s.status_of(id) == Some(SubscriptionStatus::Confirmed),
    ensures
        t.status_of(id) == Some(SubscriptionStatus::Confirmed),
{
    let k = choose|k: int|
        0 <= k < s.subscribers.len() && (#[trigger] s.subscribers[k]).id == id;
    lemma_subscriber_is_unique(s, k);
    assert(t.subscribers[k].id == s.subscribers[k].id);
    lemma_subscriber_is_unique(t, k);
}

/// No insertion deletes anything, reverts a confirmation or moves a token.
pub proof fn lemma_insert_follows(s: StoreView, row: SubscriberRow)
    ensures
        follows(s, s.after_insert(row)),
{
}

/// No binding of a token deletes anything, reverts a confirmation or moves
/// a token.
pub proof fn lemma_store_token_follows(s: StoreView, id: SubscriberId, token: Seq<char>)
    ensures
        follows(s, s.after_store_token(id, token)),
{
}

/// No confirmation deletes anything, reverts a confirmation or moves a
/// token: a confirmed subscriber stays confirmed.
pub proof fn lemma_confirm_follows(s: StoreView, token: Seq<char>)
    ensures
        follows(s, s.after_confirm(token)),
{
}

/// No subscription deletes anything, reverts a confirmation or moves a
/// token.
pub proof fn lemma_subscribe_follows(
    s: StoreView,
    name: Seq<char>,
    email: Seq<char>,
    id: SubscriberId,
    subscribed_at: i64,
    token: Seq<char>,
)
    ensures
        follows(s, after_subscribe(s, name, email, id, subscribed_at, token)),
{
    let row = form_row(name, email, id, subscribed_at);
    lemma_insert_follows(s, row);
    lemma_store_token_follows(s.after_insert(row), id, token);
    lemma_follows_is_transitive(
        s,
        s.after_insert(row),
        s.after_insert(row).after_store_token(id, token),
    );
}

/// A subscription keeps the store consistent, whether it succeeds or not:
/// identifiers, addresses and tokens stay unique and every token belongs to
/// a subscriber.
pub proof fn lemma_subscribe_keeps_wf(
    s: StoreView,
    name: Seq<char>,
    email: Seq<char>,
    id: SubscriberId,
    subscribed_at: i64,
    token: Seq<char>,
)
    requires
        s.wf(),
    ensures
        after_subscribe(s, name, email, id, subscribed_at, token).wf(),
{
    if form_is_valid(name, email) {
        let row = form_row(name, email, id, subscribed_at);
        lemma_insert_keeps_wf(s, row);
        lemma_store_token_keeps_wf(s.after_insert(row), id, token);
    }
}

/// A valid form whose address, identifier and token are all new is not
/// refused, and the subscription writes exactly one subscriber, pending
/// confirmation, and exactly one token, bound to that subscriber.
pub proof fn lemma_subscribe_writes_one_subscriber_and_one_token(
    s: StoreView,
    name: Seq<char>,
    email: Seq<char>,
    id: SubscriberId,
    subscribed_at: i64,
    token: Seq<char>,
)
    requires
        form_is_valid(name, email),
        !s.has_email(email),
        !s.has_id(id),
        !s.has_token(token),
    ensures
        subscribe_refusal(s, name, email, id, token) is None,
        after_subscribe(s, name, email, id, subscribed_at, token).subscribers == s.subscribers.push(
            SubscriberRow {
                id,
                email,
                name,
                subscribed_at,
                status: SubscriptionStatus::PendingConfirmation,
            },
        ),
        after_subscribe(s, name, email, id, subscribed_at, token).tokens == s.tokens.push(
            TokenRow { token, subscriber_id: id },
        ),
{
    let row = form_row(name, email, id, subscribed_at);
    let inserted = s.after_insert(row);
    assert(inserted.subscribers[s.subscribers.len() as int].id == id);
    assert(inserted.has_id(id));
    assert(inserted.tokens == s.tokens);
}

/// An invalid form is a bad request, and the subscription writes nothing.
pub proof fn lemma_invalid_form_writes_nothing(
    s: StoreView,
    name: Seq<char>,
    email: Seq<char>,
    id: SubscriberId,
    subscribed_at: i64,
    token: Seq<char>,
)
    requires
        !form_is_valid(name, email),
    ensures
        subscribe_refusal(s, name, email, id, token) == Some(HttpOutcome::BadRequest),
        after_subscribe(s, name, email, id, subscribed_at, token) == s,
{
}

/// An address is taken once. After a subscription that wrote a subscriber
/// with the address `email`, another with the same address is refused,
/// whatever its name, identifier and token, and writes nothing; and in a
/// consistent store no two subscribers share an address, before and after.
pub proof fn lemma_same_address_is_refused(
    s: StoreView,
    name: Seq<char>,
    email: Seq<char>,
    id: SubscriberId,
    subscribed_at: i64,
    token: Seq<char>,
    second_name: Seq<char>,
    second_id: SubscriberId,
    second_time: i64,
    second_token: Seq<char>,
)
    requires
        s.wf(),
        form_is_valid(name, email),
        s.insert_result(id, email) is Ok,
    ensures
        ({
            let first = after_subscribe(s, name, email, id, subscribed_at, token);
            let second = after_subscribe(
                first,
                second_name,
                email,
                second_id,
                second_time,
                second_token,
            );
            &&& first.has_email(email)
            &&& first.insert_result(second_id, email) == Err::<(), StoreError>(
                StoreError::UniquenessViolation,
            )
            &&& subscribe_refusal(first, second_name, email, second_id, second_token) is Some
            &&& second == first
            &&& second.wf()
            &&& forall|i: int, j: int|
                0 <= i < j < second.subscribers.len() ==> (#[trigger] second.subscribers[i]).email
                    != (#[trigger] second.subscribers[j]).email
        }),
{
    let row = form_row(name, email, id, subscribed_at);
    let inserted = s.after_insert(row);
    let first = after_subscribe(s, name, email, id, subscribed_at, token);
    assert(inserted.subscribers[s.subscribers.len() as int].email == email);
    assert(first.subscribers[s.subscribers.len() as int].email == email);
    lemma_subscribe_keeps_wf(s, name, email, id, subscribed_at, token);
}

/// Redeeming a token a subscription has just issued confirms exactly the
/// subscriber of that subscription: its row changes its status and nothing
/// else, no other row changes, and no token does. Redeeming it again
/// succeeds again and changes nothing more.
pub proof fn lemma_confirm_issued_token(
    s: StoreView,
    name: Seq<char>,
    email: Seq<char>,
    id: SubscriberId,
    subscribed_at: i64,
    token: Seq<char>,
)
    requires
        s.wf(),
        subscribe_refusal(s, name, email, id, token) is None,
    ensures
        ({
            let issued = after_subscribe(s, name, email, id, subscribed_at, token);
            let confirmed = issued.after_confirm(token);
            let at = s.subscribers.len() as int;
            &&& issued.status_of(id) == Some(SubscriptionStatus::PendingConfirmation)
            &&& issued.confirm_result(token) is Ok
            &&& confirmed.status_of(id) == Some(SubscriptionStatus::Confirmed)
            &&& confirmed.subscribers == issued.subscribers.update(
                at,
                issued.subscribers[at].confirmed(),
            )
            &&& confirmed.tokens == issued.tokens
            &&& confirmed.confirm_result(token) is Ok
            &&& confirmed.after_confirm(token) == confirmed
        }),
{
    let issued = after_subscribe(s, name, email, id, subscribed_at, token);
    let confirmed = issued.after_confirm(token);
    let at = s.subscribers.len() as int;
    let bound = s.tokens.len() as int;
    lemma_subscribe_writes_one_subscriber_and_one_token(s, name, email, id, subscribed_at, token);
    lemma_subscribe_keeps_wf(s, name, email, id, subscribed_at, token);
    assert(issued.subscribers[at].id == id);
    assert(issued.tokens[bound].token == token);
    lemma_subscriber_is_unique(issued, at);
    lemma_owner_is_unique(issued, bound);
    assert(issued.owner(token) == id);
    assert forall|i: int| 0 <= i < issued.subscribers.len() && i != at implies (
    #[trigger] issued.subscribers[i]).id != id by {
        if i < at {
            assert(issued.subscribers[i].id != issued.subscribers[at].id);
        } else {
            assert(issued.subscribers[at].id != issued.subscribers[i].id);
        }
    }
    assert(confirmed.subscribers =~= issued.subscribers.update(
        at,
        issued.subscribers[at].confirmed(),
    ));
    lemma_confirm_keeps_wf(issued, token);
    assert(confirmed.subscribers[at].id == id);
    lemma_subscriber_is_unique(confirmed, at);
    lemma_confirm_is_idempotent(issued, token);
}

/// Redeeming a token twice is the same as redeeming it once: the second
/// time reports what the first reported and leaves the store as the first
/// left it.
pub proof fn lemma_confirm_is_idempotent(s: StoreView, token: Seq<char>)
    ensures
        s.after_confirm(token).confirm_result(token) == s.confirm_result(token),
        s.after_confirm(token).after_confirm(token) == s.after_confirm(token),
{
    let once = s.after_confirm(token);
    if s.has_token(token) {
        assert(once.tokens == s.tokens);
        assert(once.has_token(token));
        let k = choose|k: int| 0 <= k < s.tokens.len() && (#[trigger] s.tokens[k]).token == token;
        lemma_first_token_row(s, token, k);
        let a = choose|i: int| s.is_first_with_token(i, token);
        let b = choose|i: int| once.is_first_with_token(i, token);
        assert(once.is_first_with_token(a, token));
        assert(a == b);
        assert(once.owner(token) == s.owner(token));
        assert(confirm_rows(once.subscribers, s.owner(token)) =~= once.subscribers);
    }
}

/// Among the rows up to row `k`, which holds `token`, one is the first to
/// hold it.
proof fn lemma_first_token_row(s: StoreView, token: Seq<char>, k: int)
    requires
        0 <= k < s.tokens.len(),
        s.tokens[k].token == token,
    ensures
        exists|i: int| s.is_first_with_token(i, token),
    decreases k,
{
    if exists|j: int| 0 <= j < k && (#[trigger] s.tokens[j]).token == token {
        let j = choose|j: int| 0 <= j < k && (#[trigger] s.tokens[j]).token == token;
        lemma_first_token_row(s, token, j);
    } else {
        assert(s.is_first_with_token(k, token));
    }
}

/// An unknown token is reported as such, and redeeming it changes nothing.
pub proof fn lemma_unknown_token_changes_nothing(s: StoreView, token: Seq<char>)
    requires
        !s.has_token(token),
    ensures
        s.confirm_result(token) == Err::<(), StoreError>(StoreError::UnknownToken),
        s.after_confirm(token) == s,
{
}

} // verus!
