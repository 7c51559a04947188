use wallet::page::{producer_gate, settle_balance, settle_tokens};
use wallet::query::{CachedQuery, FetchError, QueryState};
use wallet::list::TokenRecord;
use wallet::session::Session;

#[test]
fn gate_connected_hands_id_on() {
    assert_eq!(producer_gate(Session::Connected(7)), Ok(7));
}

#[test]
fn gate_disconnected_short_circuits() {
    assert_eq!(
        producer_gate(Session::Disconnected),
        Err(FetchError::Unauthenticated)
    );
}

#[test]
fn balance_settles_to_decimal_text() {
    assert_eq!(settle_balance(Ok(0)), Ok("0".to_string()));
    assert_eq!(settle_balance(Ok(42)), Ok("42".to_string()));
    assert_eq!(settle_balance(Ok(1203)), Ok("1203".to_string()));
    assert_eq!(
        settle_balance(Ok(u64::MAX)),
        Ok("18446744073709551615".to_string())
    );
}

#[test]
fn balance_error_propagates() {
    assert_eq!(
        settle_balance(Err(FetchError::Remote(3))),
        Err(FetchError::Remote(3))
    );
    assert_eq!(
        settle_balance(Err(FetchError::Unauthenticated)),
        Err(FetchError::Unauthenticated)
    );
}

#[test]
fn tokens_swallow_their_error() {
    let got = settle_tokens(None);
    assert!(got.is_empty());
    let data = vec![
        TokenRecord { root: 4, owner: 9 },
        TokenRecord { root: 6, owner: 9 },
    ];
    assert_eq!(settle_tokens(Some(data.clone())), data);
}

#[test]
fn unchanged_session_does_not_refetch() {
    let mut q: CachedQuery<u64> = CachedQuery::new();
    let s = Session::Connected(1);
    assert!(q.poll(s));
    assert!(!q.poll(s));
    q.resolve(s, 99);
    assert!(matches!(q.state(), QueryState::Resolved(99)));
    assert!(!q.poll(s));
    assert!(matches!(q.state(), QueryState::Resolved(99)));
}

#[test]
fn session_change_refetches() {
    let mut q: CachedQuery<u64> = CachedQuery::new();
    assert!(q.poll(Session::Connected(1)));
    q.resolve(Session::Connected(1), 5);
    assert!(q.poll(Session::Connected(2)));
    assert!(matches!(q.state(), QueryState::Pending));
    assert!(q.poll(Session::Disconnected));
    assert!(matches!(q.state(), QueryState::Pending));
}

#[test]
fn stale_result_is_discarded() {
    let mut q: CachedQuery<u64> = CachedQuery::new();
    let s1 = Session::Connected(1);
    let s2 = Session::Connected(2);
    assert!(q.poll(s1));
    assert!(q.poll(s2));
    q.resolve(s1, 11);
    assert!(matches!(q.state(), QueryState::Pending));
    q.resolve(s2, 22);
    assert!(matches!(q.state(), QueryState::Resolved(22)));
}

#[test]
fn cell_settles_only_once_per_epoch() {
    let mut q: CachedQuery<u64> = CachedQuery::new();
    let s = Session::Connected(3);
    assert!(q.poll(s));
    q.resolve(s, 1);
    q.resolve(s, 2);
    assert!(matches!(q.state(), QueryState::Resolved(1)));
}

#[test]
fn resolve_before_any_poll_is_discarded() {
    let mut q: CachedQuery<u64> = CachedQuery::new();
    q.resolve(Session::Connected(1), 7);
    assert!(matches!(q.state(), QueryState::Pending));
}
