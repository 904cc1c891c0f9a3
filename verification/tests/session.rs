use still_bott::error::FiringError;
use still_bott::model::Token;
use still_bott::session::{
    session_loaded, session_refreshed, session_stored, token_expired, GateStep,
};
use still_bott::timestamp::Timestamp;

fn token(issued_at: i64, expires_in: Option<u64>, refresh: Option<&str>) -> Token {
    Token {
        id: String::from("u1"),
        access_token: String::from("access"),
        refresh_token: refresh.map(String::from),
        issued_at: Timestamp::from_unix_seconds(issued_at),
        expires_in,
    }
}

#[test]
fn token_issued_7100_seconds_ago_is_expired() {
    let now = 1_700_000_000;
    assert!(token_expired(
        Timestamp::from_unix_seconds(now - 7100),
        Some(7200),
        Timestamp::from_unix_seconds(now)
    ));
}

#[test]
fn token_issued_100_seconds_ago_is_valid() {
    let now = 1_700_000_000;
    assert!(!token_expired(
        Timestamp::from_unix_seconds(now - 100),
        Some(7200),
        Timestamp::from_unix_seconds(now)
    ));
}

#[test]
fn expiry_is_at_the_threshold_second() {
    // 7200 - 300 = 6900 seconds after issue.
    let issued = Timestamp::from_unix_seconds(1_000);
    assert!(!token_expired(issued, Some(7200), Timestamp::from_unix_seconds(1_000 + 6_899)));
    assert!(token_expired(issued, Some(7200), Timestamp::from_unix_seconds(1_000 + 6_900)));
    assert!(token_expired(issued, Some(7200), Timestamp::from_unix_seconds(1_000 + 6_901)));
}

#[test]
fn missing_validity_counts_as_two_hours() {
    let issued = Timestamp::from_unix_seconds(0);
    assert!(!token_expired(issued, None, Timestamp::from_unix_seconds(6_899)));
    assert!(token_expired(issued, None, Timestamp::from_unix_seconds(6_900)));
}

#[test]
fn short_validity_is_expired_from_the_start() {
    let issued = Timestamp::from_unix_seconds(500);
    assert!(token_expired(issued, Some(300), Timestamp::from_unix_seconds(500)));
    assert!(token_expired(issued, Some(0), Timestamp::from_unix_seconds(400)));
    assert!(!token_expired(issued, Some(0), Timestamp::from_unix_seconds(199)));
}

#[test]
fn instants_are_compared_by_whole_seconds() {
    let issued = Timestamp { unix_nanos: 999_999_999, offset_seconds: 0 };
    let just_before = Timestamp { unix_nanos: 6_899_999_999_999, offset_seconds: 0 };
    let at = Timestamp { unix_nanos: 6_900_000_000_000, offset_seconds: 0 };
    assert!(!token_expired(issued, Some(7200), just_before));
    assert!(token_expired(issued, Some(7200), at));
    // Before the epoch seconds round toward the past.
    let early = Timestamp { unix_nanos: -1, offset_seconds: 0 };
    assert!(token_expired(early, Some(300), Timestamp { unix_nanos: -1, offset_seconds: 0 }));
    assert!(!token_expired(early, Some(301), Timestamp { unix_nanos: -1, offset_seconds: 0 }));
}

#[test]
fn extreme_values_do_not_overflow() {
    let issued = Timestamp { unix_nanos: i128::MAX, offset_seconds: 0 };
    let now = Timestamp { unix_nanos: i128::MIN, offset_seconds: 0 };
    assert!(!token_expired(issued, Some(u64::MAX), now));
    assert!(token_expired(now, Some(0), issued));
}

#[test]
fn check_against_the_clock_sees_old_and_fresh_tokens() {
    let now = Timestamp::now_utc();
    let seconds = (now.unix_nanos / 1_000_000_000) as i64;
    assert!(token_expired(Timestamp::from_unix_seconds(seconds - 7100), Some(7200), now));
    assert!(!token_expired(Timestamp::from_unix_seconds(seconds - 100), Some(7200), now));
}

#[test]
fn gate_passes_a_valid_token_unchanged() {
    let now = Timestamp::from_unix_seconds(1_700_000_000);
    let t = token(1_700_000_000 - 100, Some(7200), Some("refresh"));
    match session_loaded(Ok(Some(t)), now) {
        GateStep::Ready(got) => {
            assert_eq!(got.id, "u1");
            assert_eq!(got.access_token, "access");
            assert_eq!(got.refresh_token.as_deref(), Some("refresh"));
            assert_eq!(got.expires_in, Some(7200));
            assert_eq!(got.issued_at, Timestamp::from_unix_seconds(1_700_000_000 - 100));
        }
        other => panic!("unexpected {:?}", other),
    }
}

#[test]
fn gate_asks_for_a_refresh_of_an_expired_token() {
    let now = Timestamp::from_unix_seconds(1_700_000_000);
    let t = token(1_700_000_000 - 7100, Some(7200), Some("refresh"));
    match session_loaded(Ok(Some(t)), now) {
        GateStep::Refresh { user_id, refresh_token } => {
            assert_eq!(user_id, "u1");
            assert_eq!(refresh_token, "refresh");
        }
        other => panic!("unexpected {:?}", other),
    }
}

#[test]
fn gate_fails_without_refresh_token() {
    let now = Timestamp::from_unix_seconds(1_700_000_000);
    let t = token(1_700_000_000 - 7100, Some(7200), None);
    assert!(matches!(
        session_loaded(Ok(Some(t)), now),
        GateStep::Failed(FiringError::RefreshUnavailable)
    ));
}

#[test]
fn gate_fails_without_stored_token() {
    let now = Timestamp::from_unix_seconds(1_700_000_000);
    assert!(matches!(
        session_loaded(Ok(None), now),
        GateStep::Failed(FiringError::SessionUnavailable)
    ));
    assert!(matches!(
        session_loaded(Err(FiringError::Network), now),
        GateStep::Failed(FiringError::Network)
    ));
}

#[test]
fn refreshed_token_is_stored_then_used() {
    let fresh = Token::refreshed(
        String::from("u1"),
        String::from("new-access"),
        Some(String::from("new-refresh")),
        Some(7200),
        Timestamp::from_unix_seconds(42),
    );
    assert_eq!(fresh.issued_at, Timestamp::from_unix_seconds(42));
    match session_refreshed(Ok(fresh)) {
        GateStep::Store(t) => {
            assert_eq!(t.access_token, "new-access");
            match session_stored(Ok(t)) {
                GateStep::Ready(t) => assert_eq!(t.refresh_token.as_deref(), Some("new-refresh")),
                other => panic!("unexpected {:?}", other),
            }
        }
        other => panic!("unexpected {:?}", other),
    }
    assert!(matches!(
        session_refreshed(Err(FiringError::Network)),
        GateStep::Failed(FiringError::Network)
    ));
    assert!(matches!(
        session_stored(Err(FiringError::UpstreamData)),
        GateStep::Failed(FiringError::UpstreamData)
    ));
}

#[test]
fn token_from_session_record() {
    let t = Token::from_session(
        String::from("u9"),
        String::from("a"),
        None,
        Some(3600),
        Timestamp::from_unix_seconds(7),
    );
    assert_eq!(t.id, "u9");
    assert_eq!(t.access_token, "a");
    assert_eq!(t.refresh_token, None);
    assert_eq!(t.expires_in, Some(3600));
    assert_eq!(t.issued_at, Timestamp::from_unix_seconds(7));
    let none = Token::from_session(
        String::from("u9"),
        String::from("a"),
        Some(String::from("r")),
        None,
        Timestamp::from_unix_seconds(7),
    );
    assert_eq!(none.expires_in, None);
    assert_eq!(none.refresh_token.as_deref(), Some("r"));
}
