use subscriptions::domain::{NewSubscriber, SubscriberEmail, SubscriberName};
use subscriptions::store::{
    confirm_subscriber, insert_subscriber, insert_subscriber_with, store_token, StoreError,
    SubscriberId, SubscriptionStatus, SubscriptionStore,
};

fn subscriber(name: &str, email: &str) -> NewSubscriber {
    NewSubscriber {
        email: SubscriberEmail::parse(email.to_string()).unwrap(),
        name: SubscriberName::parse(name.to_string()).unwrap(),
    }
}

fn address(email: &str) -> SubscriberEmail {
    SubscriberEmail::parse(email.to_string()).unwrap()
}

#[test]
fn a_new_store_is_empty() {
    let store = SubscriptionStore::new();
    assert_eq!(store.subscriber_count(), 0);
    assert_eq!(store.token_count(), 0);
    assert!(store.find_subscriber(SubscriberId(1)).is_none());
    assert!(store.find_by_email(&address("ursula@example.com")).is_none());
    assert_eq!(store.token_owner("abc"), None);
    assert_eq!(store.status_of(SubscriberId(1)), None);
}

#[test]
fn an_inserted_subscriber_is_pending_and_holds_what_was_given() {
    let mut store = SubscriptionStore::new();
    let ursula = subscriber("Ursula Le Guin", "ursula@example.com");
    assert_eq!(insert_subscriber_with(&mut store, &ursula, SubscriberId(7), 1_700_000_000_000), Ok(()));
    assert_eq!(store.subscriber_count(), 1);
    assert_eq!(store.token_count(), 0);
    let row = store.find_subscriber(SubscriberId(7)).unwrap();
    assert_eq!(row.id, SubscriberId(7));
    assert_eq!(row.email.as_str(), "ursula@example.com");
    assert_eq!(row.name.as_str(), "Ursula Le Guin");
    assert_eq!(row.subscribed_at, 1_700_000_000_000);
    assert_eq!(row.status, SubscriptionStatus::PendingConfirmation);
    assert_eq!(store.status_of(SubscriberId(7)), Some(SubscriptionStatus::PendingConfirmation));
    let same = store.find_by_email(&address("ursula@example.com")).unwrap();
    assert_eq!(same.id, SubscriberId(7));
}

#[test]
fn an_address_that_is_taken_is_refused() {
    let mut store = SubscriptionStore::new();
    let ursula = subscriber("Ursula Le Guin", "ursula@example.com");
    insert_subscriber_with(&mut store, &ursula, SubscriberId(1), 10).unwrap();
    let other = subscriber("Another Ursula", "ursula@example.com");
    assert_eq!(
        insert_subscriber_with(&mut store, &other, SubscriberId(2), 20),
        Err(StoreError::UniquenessViolation)
    );
    assert_eq!(store.subscriber_count(), 1);
    assert!(store.find_subscriber(SubscriberId(2)).is_none());
    assert_eq!(store.find_subscriber(SubscriberId(1)).unwrap().name.as_str(), "Ursula Le Guin");
}

#[test]
fn an_identifier_that_is_taken_is_refused() {
    let mut store = SubscriptionStore::new();
    insert_subscriber_with(&mut store, &subscriber("A", "a@example.com"), SubscriberId(1), 10).unwrap();
    assert_eq!(
        insert_subscriber_with(&mut store, &subscriber("B", "b@example.com"), SubscriberId(1), 20),
        Err(StoreError::UniquenessViolation)
    );
    assert_eq!(store.subscriber_count(), 1);
    assert!(store.find_by_email(&address("b@example.com")).is_none());
}

#[test]
fn addresses_that_differ_in_case_are_different() {
    let mut store = SubscriptionStore::new();
    insert_subscriber_with(&mut store, &subscriber("A", "a@example.com"), SubscriberId(1), 10).unwrap();
    assert_eq!(
        insert_subscriber_with(&mut store, &subscriber("A", "A@example.com"), SubscriberId(2), 10),
        Ok(())
    );
    assert_eq!(store.subscriber_count(), 2);
}

#[test]
fn insert_subscriber_draws_a_random_identifier_and_reads_the_clock() {
    let mut store = SubscriptionStore::new();
    let id = insert_subscriber(&mut store, &subscriber("Ursula Le Guin", "ursula@example.com")).unwrap();
    assert_eq!((id.0 >> 76) & 0xF, 4);
    assert_eq!((id.0 >> 62) & 0x3, 2);
    let row = store.find_subscriber(id).unwrap();
    assert_eq!(row.email.as_str(), "ursula@example.com");
    assert_eq!(row.name.as_str(), "Ursula Le Guin");
    assert_eq!(row.status, SubscriptionStatus::PendingConfirmation);
    // After the first of January 2020, in milliseconds.
    assert!(row.subscribed_at > 1_577_836_800_000);
    let other = insert_subscriber(&mut store, &subscriber("Other", "other@example.com")).unwrap();
    assert_ne!(id, other);
    assert!(store.find_subscriber(other).unwrap().subscribed_at >= row_time(&store, id));
}

fn row_time(store: &SubscriptionStore, id: SubscriberId) -> i64 {
    store.find_subscriber(id).unwrap().subscribed_at
}

#[test]
fn insert_subscriber_refuses_an_address_that_is_taken() {
    let mut store = SubscriptionStore::new();
    insert_subscriber(&mut store, &subscriber("Ursula Le Guin", "ursula@example.com")).unwrap();
    assert_eq!(
        insert_subscriber(&mut store, &subscriber("Ursula Le Guin", "ursula@example.com")),
        Err(StoreError::UniquenessViolation)
    );
    assert_eq!(store.subscriber_count(), 1);
}

#[test]
fn a_stored_token_resolves_to_its_subscriber() {
    let mut store = SubscriptionStore::new();
    insert_subscriber_with(&mut store, &subscriber("A", "a@example.com"), SubscriberId(1), 10).unwrap();
    insert_subscriber_with(&mut store, &subscriber("B", "b@example.com"), SubscriberId(2), 20).unwrap();
    assert_eq!(store_token(&mut store, SubscriberId(2), "tokenB"), Ok(()));
    assert_eq!(store_token(&mut store, SubscriberId(1), "tokenA"), Ok(()));
    assert_eq!(store.token_count(), 2);
    assert_eq!(store.token_owner("tokenA"), Some(SubscriberId(1)));
    assert_eq!(store.token_owner("tokenB"), Some(SubscriberId(2)));
    assert_eq!(store.token_owner("tokenC"), None);
}

#[test]
fn a_subscriber_may_hold_several_tokens() {
    let mut store = SubscriptionStore::new();
    insert_subscriber_with(&mut store, &subscriber("A", "a@example.com"), SubscriberId(1), 10).unwrap();
    assert_eq!(store_token(&mut store, SubscriberId(1), "first"), Ok(()));
    assert_eq!(store_token(&mut store, SubscriberId(1), "second"), Ok(()));
    assert_eq!(store.token_owner("first"), Some(SubscriberId(1)));
    assert_eq!(store.token_owner("second"), Some(SubscriberId(1)));
}

#[test]
fn a_token_that_is_taken_is_refused() {
    let mut store = SubscriptionStore::new();
    insert_subscriber_with(&mut store, &subscriber("A", "a@example.com"), SubscriberId(1), 10).unwrap();
    insert_subscriber_with(&mut store, &subscriber("B", "b@example.com"), SubscriberId(2), 20).unwrap();
    store_token(&mut store, SubscriberId(1), "token").unwrap();
    assert_eq!(store_token(&mut store, SubscriberId(2), "token"), Err(StoreError::UniquenessViolation));
    assert_eq!(store.token_count(), 1);
    assert_eq!(store.token_owner("token"), Some(SubscriberId(1)));
}

#[test]
fn a_token_for_an_unknown_subscriber_is_refused() {
    let mut store = SubscriptionStore::new();
    insert_subscriber_with(&mut store, &subscriber("A", "a@example.com"), SubscriberId(1), 10).unwrap();
    assert_eq!(store_token(&mut store, SubscriberId(9), "token"), Err(StoreError::UnknownSubscriber));
    assert_eq!(store.token_count(), 0);
    assert_eq!(store.token_owner("token"), None);
}

#[test]
fn a_taken_token_is_reported_before_an_unknown_subscriber() {
    let mut store = SubscriptionStore::new();
    insert_subscriber_with(&mut store, &subscriber("A", "a@example.com"), SubscriberId(1), 10).unwrap();
    store_token(&mut store, SubscriberId(1), "token").unwrap();
    assert_eq!(store_token(&mut store, SubscriberId(9), "token"), Err(StoreError::UniquenessViolation));
}

#[test]
fn confirming_changes_the_status_of_the_owner_only() {
    let mut store = SubscriptionStore::new();
    insert_subscriber_with(&mut store, &subscriber("A", "a@example.com"), SubscriberId(1), 10).unwrap();
    insert_subscriber_with(&mut store, &subscriber("B", "b@example.com"), SubscriberId(2), 20).unwrap();
    insert_subscriber_with(&mut store, &subscriber("C", "c@example.com"), SubscriberId(3), 30).unwrap();
    store_token(&mut store, SubscriberId(1), "tokenA").unwrap();
    store_token(&mut store, SubscriberId(2), "tokenB").unwrap();
    store_token(&mut store, SubscriberId(3), "tokenC").unwrap();
    assert_eq!(confirm_subscriber(&mut store, "tokenB"), Ok(()));
    assert_eq!(store.status_of(SubscriberId(1)), Some(SubscriptionStatus::PendingConfirmation));
    assert_eq!(store.status_of(SubscriberId(2)), Some(SubscriptionStatus::Confirmed));
    assert_eq!(store.status_of(SubscriberId(3)), Some(SubscriptionStatus::PendingConfirmation));
    let b = store.find_subscriber(SubscriberId(2)).unwrap();
    assert_eq!(b.email.as_str(), "b@example.com");
    assert_eq!(b.name.as_str(), "B");
    assert_eq!(b.subscribed_at, 20);
    assert_eq!(store.subscriber_count(), 3);
    assert_eq!(store.token_count(), 3);
    assert_eq!(store.token_owner("tokenB"), Some(SubscriberId(2)));
}

#[test]
fn confirming_twice_succeeds_and_changes_nothing_more() {
    let mut store = SubscriptionStore::new();
    insert_subscriber_with(&mut store, &subscriber("A", "a@example.com"), SubscriberId(1), 10).unwrap();
    store_token(&mut store, SubscriberId(1), "token").unwrap();
    assert_eq!(confirm_subscriber(&mut store, "token"), Ok(()));
    assert_eq!(confirm_subscriber(&mut store, "token"), Ok(()));
    assert_eq!(store.status_of(SubscriberId(1)), Some(SubscriptionStatus::Confirmed));
    assert_eq!(store.subscriber_count(), 1);
    assert_eq!(store.token_count(), 1);
}

#[test]
fn any_token_of_a_subscriber_confirms_it() {
    let mut store = SubscriptionStore::new();
    insert_subscriber_with(&mut store, &subscriber("A", "a@example.com"), SubscriberId(1), 10).unwrap();
    store_token(&mut store, SubscriberId(1), "first").unwrap();
    store_token(&mut store, SubscriberId(1), "second").unwrap();
    assert_eq!(confirm_subscriber(&mut store, "second"), Ok(()));
    assert_eq!(store.status_of(SubscriberId(1)), Some(SubscriptionStatus::Confirmed));
    assert_eq!(confirm_subscriber(&mut store, "first"), Ok(()));
    assert_eq!(store.status_of(SubscriberId(1)), Some(SubscriptionStatus::Confirmed));
}

#[test]
fn an_unknown_token_is_reported_and_changes_nothing() {
    let mut store = SubscriptionStore::new();
    insert_subscriber_with(&mut store, &subscriber("A", "a@example.com"), SubscriberId(1), 10).unwrap();
    store_token(&mut store, SubscriberId(1), "token").unwrap();
    assert_eq!(confirm_subscriber(&mut store, "nekot"), Err(StoreError::UnknownToken));
    assert_eq!(confirm_subscriber(&mut store, ""), Err(StoreError::UnknownToken));
    assert_eq!(confirm_subscriber(&mut store, "token "), Err(StoreError::UnknownToken));
    assert_eq!(store.status_of(SubscriberId(1)), Some(SubscriptionStatus::PendingConfirmation));
    assert_eq!(store.subscriber_count(), 1);
    assert_eq!(store.token_count(), 1);
}

#[test]
fn a_confirmed_subscriber_stays_confirmed_through_later_operations() {
    let mut store = SubscriptionStore::new();
    insert_subscriber_with(&mut store, &subscriber("A", "a@example.com"), SubscriberId(1), 10).unwrap();
    store_token(&mut store, SubscriberId(1), "tokenA").unwrap();
    confirm_subscriber(&mut store, "tokenA").unwrap();
    insert_subscriber_with(&mut store, &subscriber("B", "b@example.com"), SubscriberId(2), 20).unwrap();
    store_token(&mut store, SubscriberId(2), "tokenB").unwrap();
    store_token(&mut store, SubscriberId(1), "tokenA2").unwrap();
    let _ = insert_subscriber_with(&mut store, &subscriber("A again", "a@example.com"), SubscriberId(3), 30);
    let _ = confirm_subscriber(&mut store, "unknown");
    confirm_subscriber(&mut store, "tokenB").unwrap();
    assert_eq!(store.status_of(SubscriberId(1)), Some(SubscriptionStatus::Confirmed));
    assert_eq!(store.status_of(SubscriberId(2)), Some(SubscriptionStatus::Confirmed));
    assert_eq!(store.find_subscriber(SubscriberId(1)).unwrap().name.as_str(), "A");
    assert_eq!(store.token_owner("tokenA"), Some(SubscriberId(1)));
}

#[test]
fn a_cloned_subscriber_holds_the_same_values() {
    let mut store = SubscriptionStore::new();
    insert_subscriber_with(&mut store, &subscriber("A", "a@example.com"), SubscriberId(1), 10).unwrap();
    let copy = store.find_subscriber(SubscriberId(1)).unwrap().clone();
    assert_eq!(copy.id, SubscriberId(1));
    assert_eq!(copy.email.as_str(), "a@example.com");
    assert_eq!(copy.name.as_str(), "A");
    assert_eq!(copy.subscribed_at, 10);
    assert_eq!(copy.status, SubscriptionStatus::PendingConfirmation);
}
