use notify_push::connection::{socket_auth, AuthStep};
use notify_push::error::AuthenticationError;
use notify_push::pre_auth::{live, PreAuthStore, PRE_AUTH_TTL_MILLIS};
use notify_push::UserId;

#[test]
fn token_is_redeemed_once() {
    let mut store = PreAuthStore::new();
    store.insert("token".to_string(), UserId::new("foo"), 1_000_000);
    assert_eq!(Some(UserId::new("foo")), store.redeem("token", 1_005_000));
    assert_eq!(None, store.redeem("token", 1_005_000));
    assert_eq!(None, store.redeem("token", 1_005_001));
}

#[test]
fn token_lives_for_fifteen_seconds() {
    assert_eq!(15_000, PRE_AUTH_TTL_MILLIS);
    let mut store = PreAuthStore::new();
    store.insert("a".to_string(), UserId::new("foo"), 1_000_000);
    assert_eq!(Some(UserId::new("foo")), store.redeem("a", 1_015_000));

    store.insert("b".to_string(), UserId::new("foo"), 1_000_000);
    assert_eq!(None, store.redeem("b", 1_015_001));
    // the sweep took it
    assert_eq!(None, store.redeem("b", 1_000_000));
}

#[test]
fn unknown_token_is_refused() {
    let mut store = PreAuthStore::new();
    assert_eq!(None, store.redeem("token", 0));
    store.insert("token".to_string(), UserId::new("foo"), 1_000_000);
    assert_eq!(None, store.redeem("other", 1_000_000));
    assert_eq!(None, store.redeem("", 1_000_000));
    assert_eq!(Some(UserId::new("foo")), store.redeem("token", 1_000_000));
}

#[test]
fn later_registration_wins() {
    let mut store = PreAuthStore::new();
    store.insert("token".to_string(), UserId::new("foo"), 1_000_000);
    store.insert("token".to_string(), UserId::new("bar"), 1_000_001);
    assert_eq!(Some(UserId::new("bar")), store.redeem("token", 1_000_002));
}

#[test]
fn sweep_drops_only_what_expired() {
    let mut store = PreAuthStore::new();
    store.insert("old".to_string(), UserId::new("foo"), 1_000_000);
    store.insert("new".to_string(), UserId::new("bar"), 1_010_000);
    store.sweep(1_020_000);
    assert_eq!(None, store.redeem("old", 1_000_000));
    assert_eq!(Some(UserId::new("bar")), store.redeem("new", 1_020_000));
}

#[test]
fn redeeming_one_token_sweeps_the_others() {
    let mut store = PreAuthStore::new();
    store.insert("old".to_string(), UserId::new("foo"), 1_000_000);
    assert_eq!(None, store.redeem("something", 2_000_000));
    assert_eq!(None, store.redeem("old", 1_000_000));
}

#[test]
fn liveness_of_a_token() {
    assert!(live(1000, 1000));
    assert!(live(1000, 16_000));
    assert!(!live(1000, 16_001));
    assert!(live(1000, 0));
    assert!(live(u64::MAX, u64::MAX));
    assert!(live(u64::MAX - 1, u64::MAX));
    assert!(!live(0, u64::MAX));
}

#[test]
fn pre_authenticated_handshake() {
    let mut store = PreAuthStore::new();
    store.insert("token".to_string(), UserId::new("foo"), 1_000_000);
    assert_eq!(
        AuthStep::Authenticated(UserId::new("foo")),
        socket_auth(&mut store, "", "token", 1_001_000)
    );
    // the token is used up
    assert_eq!(
        AuthStep::Denied(AuthenticationError::Invalid),
        socket_auth(&mut store, "", "token", 1_001_000)
    );
}

#[test]
fn token_wins_over_user_name() {
    let mut store = PreAuthStore::new();
    store.insert("token".to_string(), UserId::new("foo"), 1_000_000);
    assert_eq!(
        AuthStep::Authenticated(UserId::new("foo")),
        socket_auth(&mut store, "someone", "token", 1_001_000)
    );
}

#[test]
fn credentials_go_to_the_backend() {
    let mut store = PreAuthStore::new();
    assert_eq!(
        AuthStep::Verify,
        socket_auth(&mut store, "foo", "bar", 1_000_000)
    );
    store.insert("token".to_string(), UserId::new("foo"), 1_000_000);
    assert_eq!(
        AuthStep::Verify,
        socket_auth(&mut store, "foo", "token", 1_015_001)
    );
}

#[test]
fn empty_user_name_without_token_is_denied() {
    let mut store = PreAuthStore::new();
    assert_eq!(
        AuthStep::Denied(AuthenticationError::Invalid),
        socket_auth(&mut store, "", "bar", 1_000_000)
    );
    assert_eq!(
        AuthStep::Denied(AuthenticationError::Invalid),
        socket_auth(&mut store, "", "", 1_000_000)
    );
}
