//! The subscription store: subscribers, the tokens bound to them, and the
//! rules that keep the two consistent.
//!
//! The store is described by its view, a [`StoreView`]: two sequences of rows
//! in the order in which they were written. Every operation states its result
//! and the store it leaves as functions of the view before it.

use vstd::prelude::*;
use crate::domain::{valid_email, valid_name, NewSubscriber, SubscriberEmail, SubscriberName};

verus! {

/// Where a subscriber stands in the double opt-in.
#[derive(Clone, Copy, Debug, PartialEq, Eq, Structural)]
pub enum SubscriptionStatus {
    /// Recorded, confirmation outstanding.
    PendingConfirmation,
    /// The subscriber followed the confirmation link.
    Confirmed,
}

/// The identifier of a subscriber: 128 bits.
#[derive(Clone, Copy, Debug, PartialEq, Eq, Structural)]
pub struct SubscriberId(pub u128);

/// Why the store turned an operation down.
#[derive(Clone, Copy, Debug, PartialEq, Eq, Structural)]
pub enum StoreError {
    /// A unique key is taken: an identifier, an email address or a token.
    UniquenessViolation,
    /// No subscriber has the identifier given.
    UnknownSubscriber,
    /// No such token was ever stored.
    UnknownToken,
    /// The store could not be reached.
    Unavailable,
}

/// A subscriber as the store holds it.
#[derive(Debug)]
pub struct Subscriber {
    pub id: SubscriberId,
    pub email: SubscriberEmail,
    pub name: SubscriberName,
    /// Milliseconds since the Unix epoch.
    pub subscribed_at: i64,
    pub status: SubscriptionStatus,
}

/// A confirmation token and the subscriber it was issued to.
#[derive(Debug)]
pub struct SubscriptionToken {
    pub token: String,
    pub subscriber_id: SubscriberId,
}

/// What a [`Subscriber`] holds, as plain values.
pub struct SubscriberRow {
    pub id: SubscriberId,
    pub email: Seq<char>,
    pub name: Seq<char>,
    pub subscribed_at: i64,
    pub status: SubscriptionStatus,
}

/// What a [`SubscriptionToken`] holds, as plain values.
pub struct TokenRow {
    pub token: Seq<char>,
    pub subscriber_id: SubscriberId,
}

impl View for Subscriber {
    type V = SubscriberRow;

    open spec fn view(&self) -> SubscriberRow {
        SubscriberRow {
            id: self.id,
            email: self.email@,
            name: self.name@,
            subscribed_at: self.subscribed_at,
            status: self.status,
        }
    }
}

impl View for SubscriptionToken {
    type V = TokenRow;

    open spec fn view(&self) -> TokenRow {
        TokenRow { token: self.token@, subscriber_id: self.subscriber_id }
    }
}

impl Clone for Subscriber {
    fn clone(&self) -> (r: Self)
        ensures
            r@ == self@,
    {
        Subscriber {
            id: self.id,
            email: self.email.clone(),
            name: self.name.clone(),
            subscribed_at: self.subscribed_at,
            status: self.status,
        }
    }
}

impl SubscriberRow {
    /// The same subscriber, confirmed.
    pub open spec fn confirmed(self) -> SubscriberRow {
        SubscriberRow { status: SubscriptionStatus::Confirmed, ..self }
    }
}

/// The row that is written for `new_subscriber`: it starts out pending.
pub open spec fn pending_row(
    id: SubscriberId,
    new_subscriber: NewSubscriber,
    subscribed_at: i64,
) -> SubscriberRow {
    SubscriberRow {
        id,
        email: new_subscriber.email@,
        name: new_subscriber.name@,
        subscribed_at,
        status: SubscriptionStatus::PendingConfirmation,
    }
}

/// The rows `rows` with every subscriber whose identifier is `id` confirmed.
pub open spec fn confirm_rows(rows: Seq<SubscriberRow>, id: SubscriberId) -> Seq<SubscriberRow> {
    Seq::new(
        rows.len(),
        |i: int|
            if rows[i].id == id {
                rows[i].confirmed()
            } else {
                rows[i]
            },
    )
}

/// The contents of a store.
pub struct StoreView {
    pub subscribers: Seq<SubscriberRow>,
    pub tokens: Seq<TokenRow>,
}

impl StoreView {
    /// The store that holds nothing.
    pub open spec fn empty() -> StoreView {
        StoreView { subscribers: Seq::empty(), tokens: Seq::empty() }
    }

    /// Some subscriber has the identifier `id`.
    pub open spec fn has_id(self, id: SubscriberId) -> bool {
        exists|i: int| 0 <= i < self.subscribers.len() && (#[trigger] self.subscribers[i]).id == id
    }

    /// Some subscriber has the address `email`.
    pub open spec fn has_email(self, email: Seq<char>) -> bool {
        exists|i: int|
            0 <= i < self.subscribers.len() && (#[trigger] self.subscribers[i]).email == email
    }

    /// The token `token` is stored.
    pub open spec fn has_token(self, token: Seq<char>) -> bool {
        exists|i: int| 0 <= i < self.tokens.len() && (#[trigger] self.tokens[i]).token == token
    }

    /// Row `i` is the first subscriber with the identifier `id`.
    pub open spec fn is_first_with_id(self, i: int, id: SubscriberId) -> bool {
        &&& 0 <= i < self.subscribers.len()
        &&& self.subscribers[i].id == id
        &&& forall|k: int| 0 <= k < i ==> (#[trigger] self.subscribers[k]).id != id
    }

    /// Row `i` is the first subscriber with the address `email`.
    pub open spec fn is_first_with_email(self, i: int, email: Seq<char>) -> bool {
        &&& 0 <= i < self.subscribers.len()
        &&& self.subscribers[i].email == email
        &&& forall|k: int| 0 <= k < i ==> (#[trigger] self.subscribers[k]).email != email
    }

    /// Row `i` is the first that holds the token `token`.
    pub open spec fn is_first_with_token(self, i: int, token: Seq<char>) -> bool {
        &&& 0 <= i < self.tokens.len()
        &&& self.tokens[i].token == token
        &&& forall|k: int| 0 <= k < i ==> (#[trigger] self.tokens[k]).token != token
    }

    /// The subscriber with the identifier `id`, where there is one. In a
    /// consistent store there is at most one; in any store the first is meant.
    pub open spec fn subscriber(self, id: SubscriberId) -> SubscriberRow
        recommends
            self.has_id(id),
    {
        self.subscribers[choose|i: int| self.is_first_with_id(i, id)]
    }

    /// The subscriber with the address `email`, where there is one.
    pub open spec fn subscriber_by_email(self, email: Seq<char>) -> SubscriberRow
        recommends
            self.has_email(email),
    {
        self.subscribers[choose|i: int| self.is_first_with_email(i, email)]
    }

    /// The subscriber that `token` was issued to, where it is stored.
    pub open spec fn owner(self, token: Seq<char>) -> SubscriberId
        recommends
            self.has_token(token),
    {
        self.tokens[choose|i: int| self.is_first_with_token(i, token)].subscriber_id
    }

    /// The status of the subscriber `id`, if there is such a subscriber.
    pub open spec fn status_of(self, id: SubscriberId) -> Option<SubscriptionStatus> {
        if self.has_id(id) {
            Some(self.subscriber(id).status)
        } else {
            None
        }
    }

    /// The consistency rules of the store: identifiers, addresses and tokens
    /// are unique, every token belongs to a subscriber of the store, and
    /// every subscriber holds a valid name and a valid address.
    pub open spec fn wf(self) -> bool {
        &&& forall|i: int, j: int|
            0 <= i < j < self.subscribers.len() ==> (#[trigger] self.subscribers[i]).id != (
            #[trigger] self.subscribers[j]).id
        &&& forall|i: int, j: int|
            0 <= i < j < self.subscribers.len() ==> (#[trigger] self.subscribers[i]).email != (
            #[trigger] self.subscribers[j]).email
        &&& forall|i: int, j: int|
            0 <= i < j < self.tokens.len() ==> (#[trigger] self.tokens[i]).token != (
            #[trigger] self.tokens[j]).token
        &&& forall|i: int|
            0 <= i < self.tokens.len() ==> self.has_id((#[trigger] self.tokens[i]).subscriber_id)
        &&& forall|i: int|
            0 <= i < self.subscribers.len() ==> valid_email((#[trigger] self.subscribers[i]).email)
                && valid_name(self.subscribers[i].name)
    }

    /// What inserting a subscriber with this identifier and address reports.
    pub open spec fn insert_result(self, id: SubscriberId, email: Seq<char>) -> Result<
        (),
        StoreError,
    > {
        if self.has_id(id) || self.has_email(email) {
            Err(StoreError::UniquenessViolation)
        } else {
            Ok(())
        }
    }

    /// The store after the attempt to insert `row`: one row more where the
    /// insertion is accepted, unchanged where it is not.
    pub open spec fn after_insert(self, row: SubscriberRow) -> StoreView {
        if self.insert_result(row.id, row.email) is Ok {
            StoreView { subscribers: self.subscribers.push(row), tokens: self.tokens }
        } else {
            self
        }
    }

    /// What binding `token` to the subscriber `id` reports. A token that is
    /// taken is reported before a subscriber that is missing.
    pub open spec fn store_token_result(self, id: SubscriberId, token: Seq<char>) -> Result<
        (),
        StoreError,
    > {
        if self.has_token(token) {
            Err(StoreError::UniquenessViolation)
        } else if !self.has_id(id) {
            Err(StoreError::UnknownSubscriber)
        } else {
            Ok(())
        }
    }

    /// The store after the attempt to bind `token` to the subscriber `id`.
    pub open spec fn after_store_token(self, id: SubscriberId, token: Seq<char>) -> StoreView {
        if self.store_token_result(id, token) is Ok {
            StoreView {
                subscribers: self.subscribers,
                tokens: self.tokens.push(TokenRow { token, subscriber_id: id }),
            }
        } else {
            self
        }
    }

    /// What redeeming `token` reports.
    pub open spec fn confirm_result(self, token: Seq<char>) -> Result<(), StoreError> {
        if self.has_token(token) {
            Ok(())
        } else {
            Err(StoreError::UnknownToken)
        }
    }

    /// The store after the attempt to redeem `token`: the subscriber it was
    /// issued to is confirmed, and nothing else changes.
    pub open spec fn after_confirm(self, token: Seq<char>) -> StoreView {
        if self.has_token(token) {
            StoreView {
                subscribers: confirm_rows(self.subscribers, self.owner(token)),
                tokens: self.tokens,
            }
        } else {
            self
        }
    }
}

/// Subscribers and confirmation tokens, kept consistent.
pub struct SubscriptionStore {
    subscribers: Vec<Subscriber>,
    tokens: Vec<SubscriptionToken>,
}

impl View for SubscriptionStore {
    type V = StoreView;

    closed spec fn view(&self) -> StoreView {
        StoreView {
            subscribers: self.subscribers@.map_values(|s: Subscriber| s@),
            tokens: self.tokens@.map_values(|t: SubscriptionToken| t@),
        }
    }
}

impl SubscriptionStore {
    /// A store that holds nothing.
    pub fn new() -> (store: SubscriptionStore)
        ensures
            store@ == StoreView::empty(),
            store@.wf(),
    {
        let store = SubscriptionStore { subscribers: Vec::new(), tokens: Vec::new() };
        assert(store@.subscribers =~= Seq::empty());
        assert(store@.tokens =~= Seq::empty());
        store
    }

    /// The number of subscribers.
    pub fn subscriber_count(&self) -> (n: usize)
        ensures
            n == self@.subscribers.len(),
    {
        self.subscribers.len()
    }

    /// The number of tokens.
    pub fn token_count(&self) -> (n: usize)
        ensures
            n == self@.tokens.len(),
    {
        self.tokens.len()
    }

    /// The subscriber with the identifier `id`, if there is one.
    pub fn find_subscriber(&self, id: SubscriberId) -> (r: Option<&Subscriber>)
        ensures
            r is Some == self@.has_id(id),
            r matches Some(subscriber) ==> subscriber@ == self@.subscriber(id),
    {
        match self.position_of_id(id) {
            Some(i) => Some(&self.subscribers[i]),
            None => None,
        }
    }

    /// The subscriber with the address `email`, if there is one.
    pub fn find_by_email(&self, email: &SubscriberEmail) -> (r: Option<&Subscriber>)
        ensures
            r is Some == self@.has_email(email@),
            r matches Some(subscriber) ==> subscriber@ == self@.subscriber_by_email(email@),
    {
        match self.position_of_email(email) {
            Some(i) => Some(&self.subscribers[i]),
            None => None,
        }
    }

    /// The status of the subscriber `id`, if there is such a subscriber.
    pub fn status_of(&self, id: SubscriberId) -> (r: Option<SubscriptionStatus>)
        ensures
            r == self@.status_of(id),
    {
        match self.position_of_id(id) {
            Some(i) => Some(self.subscribers[i].status),
            None => None,
        }
    }

    /// The subscriber that `token` was issued to, if the token is stored.
    pub fn token_owner(&self, token: &str) -> (r: Option<SubscriberId>)
        ensures
            r is Some == self@.has_token(token@),
            r matches Some(id) ==> id == self@.owner(token@),
    {
        let token = token.to_owned();
        match self.position_of_token(&token) {
            Some(i) => Some(self.tokens[i].subscriber_id),
            None => None,
        }
    }

    /// The position of the subscriber with the identifier `id`.
    fn position_of_id(&self, id: SubscriberId) -> (r: Option<usize>)
        ensures
            match r {
                Some(i) => self@.is_first_with_id(i as int, id) && self@.has_id(id)
                    && self@.subscriber(id) == self@.subscribers[i as int],
                None => !self@.has_id(id),
            },
    {
        let mut i: usize = 0;
        while i < self.subscribers.len()
            invariant
                i <= self.subscribers.len(),
                forall|k: int| 0 <= k < i ==> (#[trigger] self@.subscribers[k]).id != id,
            decreases self.subscribers.len() - i,
        {
            if self.subscribers[i].id == id {
                proof {
                    let view = self@;
                    assert(view.is_first_with_id(i as int, id));
                }
                return Some(i);
            }
            i += 1;
        }
        None
    }

    /// The position of the subscriber with the address `email`.
    fn position_of_email(&self, email: &SubscriberEmail) -> (r: Option<usize>)
        ensures
            match r {
                Some(i) => self@.is_first_with_email(i as int, email@) && self@.has_email(email@)
                    && self@.subscriber_by_email(email@) == self@.subscribers[i as int],
                None => !self@.has_email(email@),
            },
    {
        let mut i: usize = 0;
        while i < self.subscribers.len()
            invariant
                i <= self.subscribers.len(),
                forall|k: int| 0 <= k < i ==> (#[trigger] self@.subscribers[k]).email != email@,
            decreases self.subscribers.len() - i,
        {
            if self.subscribers[i].email.same_as(email) {
                proof {
                    let view = self@;
                    assert(view.is_first_with_email(i as int, email@));
                }
                return Some(i);
            }
            i += 1;
        }
        None
    }

    /// The position of the token `token`.
    fn position_of_token(&self, token: &String) -> (r: Option<usize>)
        ensures
            match r {
                Some(i) => self@.is_first_with_token(i as int, token@) && self@.has_token(token@)
                    && self@.owner(token@) == self@.tokens[i as int].subscriber_id,
                None => !self@.has_token(token@),
            },
    {
        let mut i: usize = 0;
        while i < self.tokens.len()
            invariant
                i <= self.tokens.len(),
                forall|k: int| 0 <= k < i ==> (#[trigger] self@.tokens[k]).token != token@,
            decreases self.tokens.len() - i,
        {
            if self.tokens[i].token == *token {
                proof {
                    let view = self@;
                    assert(view.is_first_with_token(i as int, token@));
                }
                return Some(i);
            }
            i += 1;
        }
        None
    }
}

/// In a consistent store a token has one owner: the one of any row that
/// holds it.
pub proof fn lemma_owner_is_unique(s: StoreView, i: int)
    requires
        s.wf(),
        0 <= i < s.tokens.len(),
    ensures
        s.has_token(s.tokens[i].token),
        s.owner(s.tokens[i].token) == s.tokens[i].subscriber_id,
{
    let token = s.tokens[i].token;
    assert(s.is_first_with_token(i, token));
}

/// In a consistent store an identifier names one subscriber: the one of any
/// row that holds it.
pub proof fn lemma_subscriber_is_unique(s: StoreView, i: int)
    requires
        s.wf(),
        0 <= i < s.subscribers.len(),
    ensures
        s.has_id(s.subscribers[i].id),
        s.subscriber(s.subscribers[i].id) == s.subscribers[i],
{
    let id = s.subscribers[i].id;
    assert(s.is_first_with_id(i, id));
}

/// Inserting a valid row keeps the store consistent.
pub proof fn lemma_insert_keeps_wf(s: StoreView, row: SubscriberRow)
    requires
        s.wf(),
        valid_email(row.email),
        valid_name(row.name),
    ensures
        s.after_insert(row).wf(),
{
    let t = s.after_insert(row);
    if s.insert_result(row.id, row.email) is Ok {
        assert forall|i: int, j: int| 0 <= i < j < t.subscribers.len() implies (
        #[trigger] t.subscribers[i]).id != (#[trigger] t.subscribers[j]).id by {}
        assert forall|i: int, j: int| 0 <= i < j < t.subscribers.len() implies (
        #[trigger] t.subscribers[i]).email != (#[trigger] t.subscribers[j]).email by {}
        assert forall|i: int| 0 <= i < t.tokens.len() implies t.has_id(
            (#[trigger] t.tokens[i]).subscriber_id,
        ) by {
            let id = s.tokens[i].subscriber_id;
            let k = choose|k: int|
                0 <= k < s.subscribers.len() && (#[trigger] s.subscribers[k]).id == id;
            assert(t.subscribers[k].id == id);
        }
    }
}

/// Binding a token keeps the store consistent.
pub proof fn lemma_store_token_keeps_wf(s: StoreView, id: SubscriberId, token: Seq<char>)
    requires
        s.wf(),
    ensures
        s.after_store_token(id, token).wf(),
{
    let t = s.after_store_token(id, token);
    if s.store_token_result(id, token) is Ok {
        assert forall|i: int, j: int| 0 <= i < j < t.tokens.len() implies (
        #[trigger] t.tokens[i]).token != (#[trigger] t.tokens[j]).token by {}
        assert forall|i: int| 0 <= i < t.tokens.len() implies t.has_id(
            (#[trigger] t.tokens[i]).subscriber_id,
        ) by {}
    }
}

/// Redeeming a token keeps the store consistent.
pub proof fn lemma_confirm_keeps_wf(s: StoreView, token: Seq<char>)
    requires
        s.wf(),
    ensures
        s.after_confirm(token).wf(),
{
    let t = s.after_confirm(token);
    if s.has_token(token) {
        assert forall|i: int| 0 <= i < t.tokens.len() implies t.has_id(
            (#[trigger] t.tokens[i]).subscriber_id,
        ) by {
            let id = s.tokens[i].subscriber_id;
            let k = choose|k: int|
                0 <= k < s.subscribers.len() && (#[trigger] s.subscribers[k]).id == id;
            assert(t.subscribers[k].id == id);
        }
    }
}

/// Writes a pending subscriber with the identifier `id` and the time
/// `subscribed_at`. The insertion is refused, and the store left as it was,
/// where the identifier or the address is taken.
pub fn insert_subscriber_with(
    store: &mut SubscriptionStore,
    new_subscriber: &NewSubscriber,
    id: SubscriberId,
    subscribed_at: i64,
) -> (r: Result<(), StoreError>)
    ensures
        r == old(store)@.insert_result(id, new_subscriber.email@),
        final(store)@ == old(store)@.after_insert(pending_row(id, *new_subscriber, subscribed_at)),
        old(store)@.wf() ==> final(store)@.wf(),
{
    if store.position_of_id(id).is_some() || store.position_of_email(
        &new_subscriber.email,
    ).is_some() {
        return Err(StoreError::UniquenessViolation);
    }
    let email = new_subscriber.email.clone();
    let name = new_subscriber.name.clone();
    let subscriber = Subscriber {
        id,
        email,
        name,
        subscribed_at,
        status: SubscriptionStatus::PendingConfirmation,
    };
    proof {
        if store@.wf() {
            lemma_insert_keeps_wf(store@, subscriber@);
        }
    }
    store.subscribers.push(subscriber);
    assert(store@.subscribers =~= old(store)@.subscribers.push(subscriber@));
    Ok(())
}

/// Binds `subscription_token` to the subscriber `subscriber_id`. The binding
/// is refused, and the store left as it was, where the token is taken or no
/// such subscriber exists.
pub fn store_token(
    store: &mut SubscriptionStore,
    subscriber_id: SubscriberId,
    subscription_token: &str,
) -> (r: Result<(), StoreError>)
    ensures
        r == old(store)@.store_token_result(subscriber_id, subscription_token@),
        final(store)@ == old(store)@.after_store_token(subscriber_id, subscription_token@),
        old(store)@.wf() ==> final(store)@.wf(),
{
    proof {
        if store@.wf() {
            lemma_store_token_keeps_wf(store@, subscriber_id, subscription_token@);
        }
    }
    let token = subscription_token.to_owned();
    if store.position_of_token(&token).is_some() {
        return Err(StoreError::UniquenessViolation);
    }
    if store.position_of_id(subscriber_id).is_none() {
        return Err(StoreError::UnknownSubscriber);
    }
    let binding = SubscriptionToken { token, subscriber_id };
    store.tokens.push(binding);
    assert(store@.tokens =~= old(store)@.tokens.push(binding@));
    Ok(())
}

/// Redeems `subscription_token`: the subscriber it was issued to becomes
/// confirmed, or stays so. An unknown token is refused and changes nothing.
pub fn confirm_subscriber(store: &mut SubscriptionStore, subscription_token: &str) -> (r: Result<
    (),
    StoreError,
>)
    ensures
        r == old(store)@.confirm_result(subscription_token@),
        final(store)@ == old(store)@.after_confirm(subscription_token@),
        old(store)@.wf() ==> final(store)@.wf(),
{
    proof {
        if store@.wf() {
            lemma_confirm_keeps_wf(store@, subscription_token@);
        }
    }
    let token = subscription_token.to_owned();
    let at: usize = match store.position_of_token(&token) {
        Some(at) => at,
        None => {
            return Err(StoreError::UnknownToken);
        },
    };
    let id = store.tokens[at].subscriber_id;
    let ghost before = store@;
    let ghost rows = store.subscribers@;
    let mut i: usize = 0;
    while i < store.subscribers.len()
        invariant
            i <= store.subscribers.len(),
            before == old(store)@,
            rows == old(store).subscribers@,
            store.tokens == old(store).tokens,
            store.subscribers@.len() == rows.len(),
            forall|k: int|
                0 <= k < i ==> (#[trigger] store.subscribers@[k])@ == confirm_rows(
                    before.subscribers,
                    id,
                )[k],
            forall|k: int|
                i <= k < rows.len() ==> #[trigger] store.subscribers@[k] == rows[k],
        decreases store.subscribers.len() - i,
    {
        if store.subscribers[i].id == id {
            store.subscribers[i].status = SubscriptionStatus::Confirmed;
        }
        i += 1;
    }
    assert(store@.subscribers =~= confirm_rows(before.subscribers, id));
    Ok(())
}

/// `value` carries the marks of a random identifier: version 4 in bits 76 to
/// 79 and the variant `10` in bits 62 and 63.
pub open spec fn is_random_uuid(value: u128) -> bool {
    (value >> 76) & 0xF == 4 && (value >> 62) & 0x3 == 2
}

/// Draws an identifier with `uuid::Uuid::new_v4` and reads it with
/// `Uuid::as_u128`. `new_v4` takes 128 random bits and overwrites six of
/// them with the version and the variant; the rest is left open. It panics
/// where the operating system hands out no random bytes.
#[verifier::external_body]
fn fresh_subscriber_id() -> (id: SubscriberId)
    ensures
        is_random_uuid(id.0),
{
    SubscriberId(uuid::Uuid::new_v4().as_u128())
}

/// Reads the clock with `chrono::Utc::now` and gives the time as
/// `DateTime::timestamp_millis` does: in milliseconds since the Unix epoch.
/// Nothing is known of the value. `now` panics where the clock stands before
/// the epoch.
#[verifier::external_body]
fn current_time_millis() -> i64 {
    chrono::Utc::now().timestamp_millis()
}

/// Writes a pending subscriber under a freshly drawn identifier, with the
/// current time, and returns the identifier. The insertion is refused, and
/// the store left as it was, where the address is taken or, by an unlikely
/// chance, the identifier drawn. A store without subscribers refuses nothing.
pub fn insert_subscriber(store: &mut SubscriptionStore, new_subscriber: &NewSubscriber) -> (r:
    Result<SubscriberId, StoreError>)
    ensures
        old(store)@.wf() ==> final(store)@.wf(),
        old(store)@.has_email(new_subscriber.email@) ==> r is Err,
        old(store)@.subscribers.len() == 0 ==> r is Ok,
        match r {
            Ok(id) => {
                &&& is_random_uuid(id.0)
                &&& old(store)@.insert_result(id, new_subscriber.email@) is Ok
                &&& final(store)@ == old(store)@.after_insert(
                    pending_row(
                        id,
                        *new_subscriber,
                        final(store)@.subscribers.last().subscribed_at,
                    ),
                )
            },
            Err(e) => e == StoreError::UniquenessViolation && final(store)@ == old(store)@,
        },
{
    let id = fresh_subscriber_id();
    let now = current_time_millis();
    match insert_subscriber_with(store, new_subscriber, id, now) {
        Ok(()) => Ok(id),
        Err(e) => Err(e),
    }
}

} // verus!
