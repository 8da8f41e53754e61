use talium::auth::{
    after_token_validation, after_user_lookup, check_session, forbidden, get_header, SessionCheck,
};
use talium::session::{Moderator, PanelUser, SessionService, UserPermission, DEFAULT_SESSION_TIMEOUT};

fn user(id: &str) -> PanelUser {
    PanelUser { twitch_user_id: id.to_string(), account_creation_time: 1_700_000_000_000_000, permissions: UserPermission::Moderator }
}

#[test]
fn new_service_is_empty_with_thirty_minute_timeout() {
    let s = SessionService::new();
    assert_eq!(s.session_timeout(), DEFAULT_SESSION_TIMEOUT);
    assert_eq!(DEFAULT_SESSION_TIMEOUT, 30 * 60 * 1_000_000_000);
    assert!(s.get_by_access_token("t").is_none());
}

#[test]
fn create_then_get_by_token_and_user() {
    let mut s = SessionService::new();
    s.create_session_at(user("42"), "tok".to_string(), "agent".to_string(), 100);
    let found = s.get_by_access_token("tok").unwrap();
    assert_eq!(found.user_agent, "agent");
    assert_eq!(found.last_refreshed_at, 100);
    assert_eq!(s.get_by_user_id("42").unwrap().access_token, "tok");
    assert!(s.get_by_user_id("43").is_none());
}

#[test]
fn create_session_uses_the_clock() {
    let mut s = SessionService::new();
    s.create_session(user("1"), "tok".to_string(), "ua".to_string());
    let found = s.get_by_access_token("tok").unwrap();
    assert!(found.last_refreshed_at > 0);
}

#[test]
fn refresh_updates_first_session_only() {
    let mut s = SessionService::new();
    s.create_session_at(user("1"), "tok".to_string(), "a".to_string(), 1);
    s.create_session_at(user("2"), "tok".to_string(), "b".to_string(), 2);
    assert_eq!(s.refresh_session_at("tok".to_string(), 50), Some(()));
    assert_eq!(s.get_by_access_token("tok").unwrap().last_refreshed_at, 50);
    assert_eq!(s.get_by_user_id("2").unwrap().last_refreshed_at, 2);
    assert_eq!(s.refresh_session_at("none".to_string(), 60), None);
}

#[test]
fn delete_removes_every_session_of_token() {
    let mut s = SessionService::new();
    s.create_session_at(user("1"), "tok".to_string(), "a".to_string(), 1);
    s.create_session_at(user("2"), "other".to_string(), "b".to_string(), 2);
    s.create_session_at(user("3"), "tok".to_string(), "c".to_string(), 3);
    s.delete_by_access_token("tok");
    assert!(s.get_by_access_token("tok").is_none());
    assert_eq!(s.get_by_access_token("other").unwrap().panel_user.twitch_user_id, "2");
}

#[test]
fn check_session_outcomes() {
    let mut s = SessionService::new();
    s.create_session_at(user("1"), "tok".to_string(), "agent".to_string(), 1_000);
    match check_session(&mut s, "tok".to_string(), "other agent", 2_000) {
        SessionCheck::Rejected(r) => {
            assert_eq!(r.status, 401);
            assert_eq!(r.message, "Reauthenticate with access token");
        }
        _ => panic!("a different user agent must be refused"),
    }
    match check_session(&mut s, "tok".to_string(), "agent", 2_000) {
        SessionCheck::Admitted(u) => assert_eq!(u.twitch_user_id, "1"),
        _ => panic!("a valid session must admit"),
    }
    assert_eq!(s.get_by_access_token("tok").unwrap().last_refreshed_at, 2_000);
    // exactly at the timeout the session is still valid
    match check_session(&mut s, "tok".to_string(), "agent", 2_000 + DEFAULT_SESSION_TIMEOUT) {
        SessionCheck::Admitted(_) => {}
        _ => panic!("a session at its timeout is still valid"),
    }
    let later = 2_000 + 2 * DEFAULT_SESSION_TIMEOUT + 1;
    match check_session(&mut s, "tok".to_string(), "agent", later) {
        SessionCheck::Rejected(r) => assert_eq!(r.status, 401),
        _ => panic!("an expired session must be refused"),
    }
    assert!(s.get_by_access_token("tok").is_none());
    assert!(matches!(check_session(&mut s, "tok".to_string(), "agent", later), SessionCheck::NoSession));
}

#[test]
fn token_validation_outcomes() {
    let e = after_token_validation(Err(())).err().unwrap();
    assert_eq!((e.status, e.message.as_str()), (500, "Internal server error. Retry authentication"));
    let e = after_token_validation(Ok(None)).err().unwrap();
    assert_eq!((e.status, e.message.as_str()), (401, "Invalid access token, Reauthenticate"));
    assert_eq!(after_token_validation(Ok(Some("77".to_string()))).ok().unwrap(), "77");
}

#[test]
fn user_lookup_outcomes() {
    let mut s = SessionService::new();
    let e = after_user_lookup(&mut s, Err(()), "t".to_string(), "a".to_string(), 5).err().unwrap();
    assert_eq!(e.status, 500);
    let e = after_user_lookup(&mut s, Ok(None), "t".to_string(), "a".to_string(), 5).err().unwrap();
    assert_eq!((e.status, e.message.as_str()), (403, "user lacks required permissions"));
    assert!(s.get_by_access_token("t").is_none());
    let u = after_user_lookup(&mut s, Ok(Some(user("9"))), "t".to_string(), "a".to_string(), 5).ok().unwrap();
    assert_eq!(u.twitch_user_id, "9");
    assert_eq!(s.get_by_access_token("t").unwrap().last_refreshed_at, 5);
    assert_eq!(forbidden().status, 403);
}

#[test]
fn header_reading() {
    let e = get_header(None, "token").err().unwrap();
    assert_eq!((e.status, e.message.as_str()), (401, "Missing 'token' authentication header"));
    assert_eq!(get_header(Some(b"abc\tdef"), "token").ok().unwrap(), "abc\tdef");
    let e = get_header(Some(&[0x61, 0xC3, 0xBC]), "token").err().unwrap();
    assert_eq!((e.status, e.message.as_str()), (400, "malformed authentication header token, non ascii string"));
    assert!(get_header(Some(&[0x7f]), "User-Agent").is_err());
}

#[test]
fn every_panel_user_is_a_moderator() {
    let m = Moderator::new(user("5")).unwrap();
    assert_eq!(m.0.twitch_user_id, "5");
}
