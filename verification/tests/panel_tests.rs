use talium::panel::{panel_dist_status, render_index_html, PanelDistStatus, SERVER_PANEL_PATH};
use talium::poc::{authenticate, moderator_from_headers, AuthFailure, ChatCooldown, CooldownType, User};
use talium::text::{chars_of, replace_all_exec, string_of, strip_suffix_or_keep_exec};
use talium::twitch_auth::{
    after_refresh, after_validation, is_unauthorized, on_request_failure, on_revalidation, fresh_status,
    OauthCredential, RefreshTokenReturn, RetryAction, RevalidationAction, REVALIDATION_INTERVAL,
};

#[test]
fn index_html_is_rewritten() {
    let index = r#"<html><head><link href="/panel/a.css"><script src="/panel/a.js"></script></head></html>"#;
    let out = render_index_html(index, "https://bot.example/base/", "/base/", "cid");
    assert_eq!(
        out,
        r#"<html><head panel_base_addr="https://bot.example/base/panel" backend_base_addr="https://bot.example/base/bot" twitch_client_id="cid" ><link href="/base/panel/a.css"><script src="/base/panel/a.js"></script></head></html>"#
    );
    assert_eq!(SERVER_PANEL_PATH, "/panel");
}

#[test]
fn index_html_at_root() {
    let out = render_index_html(r#"<head><a href="/x">"#, "http://localhost:4771/", "/", "id");
    assert_eq!(
        out,
        r#"<head panel_base_addr="http://localhost:4771/panel" backend_base_addr="http://localhost:4771/bot" twitch_client_id="id" ><a href="/x">"#
    );
}

#[test]
fn text_helpers() {
    let s = chars_of("aXbXXc");
    assert_eq!(string_of(&replace_all_exec(&s, &chars_of("X"), &chars_of("--"))), "a--b----c");
    assert_eq!(string_of(&replace_all_exec(&chars_of("aaa"), &chars_of("aa"), &chars_of("b"))), "ba");
    assert_eq!(string_of(&strip_suffix_or_keep_exec(&chars_of("ab/"), &chars_of("/"))), "ab");
    assert_eq!(string_of(&strip_suffix_or_keep_exec(&chars_of("ab"), &chars_of("/"))), "ab");
}

#[test]
fn poc_authentication() {
    assert!(authenticate(None, Some("ua".to_string())).is_none());
    match authenticate(Some("t".to_string()), None) {
        Some(User::Moderator(m)) => assert_eq!(m.twitch_user_id, "SOMEUSERID"),
        None => panic!("a token authenticates"),
    }
    assert_eq!(moderator_from_headers(None, None), Err(AuthFailure::AuthenticationFailure));
    assert_eq!(moderator_from_headers(Some("t".to_string()), None).unwrap().twitch_user_id, "SOMEUSERID");
    assert_eq!(AuthFailure::AuthenticationFailure.message(), "Authentication failure");
    assert_eq!(AuthFailure::AuthorizationFailure.message(), "Authorization failure");
    let c = ChatCooldown { cooldown_type: CooldownType::SECONDS, amount: 4 };
    assert_eq!(c.to_cooldown(), talium::cooldown::ChatCooldown::SECONDS(4));
}

fn credential(token: &str) -> OauthCredential {
    OauthCredential { access_token: token.to_string(), refresh_token: "r".to_string(), scopes: vec![], expires_at: 0 }
}

#[test]
fn unauthorized_detection() {
    assert!(is_unauthorized(true, Some("HTTP 401 Unauthorized")));
    assert!(!is_unauthorized(false, Some("HTTP 401 Unauthorized")));
    assert!(!is_unauthorized(true, Some("HTTP 500")));
    assert!(!is_unauthorized(true, None));
}

#[test]
fn retry_decisions() {
    let status = fresh_status(credential("a"), 1_000);
    assert_eq!(on_request_failure(&status, false, 2_000), RetryAction::PassError);
    assert_eq!(on_request_failure(&status, true, 2_000), RetryAction::Retry);
    assert_eq!(on_request_failure(&status, true, 1_000 + REVALIDATION_INTERVAL), RetryAction::Retry);
    assert_eq!(on_request_failure(&status, true, 1_001 + REVALIDATION_INTERVAL), RetryAction::Revalidate);
    let mut status = status;
    assert_eq!(on_revalidation(&mut status, Err(()), 5_000), RevalidationAction::FailAndReauthorize);
    assert!(!status.was_valid_at_check);
    assert_eq!(status.valid_checked_at, 5_000);
    assert_eq!(on_request_failure(&status, true, 6_000), RetryAction::FailBadCredentials);
    let replacement = fresh_status(credential("b"), 7_000);
    assert_eq!(on_revalidation(&mut status, Ok(replacement), 7_000), RevalidationAction::RetryWithNewToken);
    assert_eq!(status.credential.access_token, "b");
    assert!(status.was_valid_at_check);
}

#[test]
fn credential_check_steps() {
    let c = credential("a");
    assert!(after_validation(&c, Ok(false), 1).is_none());
    assert!(after_validation(&c, Err(()), 1).is_none());
    let s = after_validation(&c, Ok(true), 1).unwrap();
    assert_eq!((s.credential.access_token.as_str(), s.valid_checked_at), ("a", 1));
    assert_eq!(
        after_refresh(Ok(None), 1).err().unwrap(),
        "Could not get new oauth token, bad credentials, needs reauthentication"
    );
    assert!(after_refresh(Err(()), 1).is_err());
    assert_eq!(after_refresh(Ok(Some(credential("n"))), 3).ok().unwrap().credential.access_token, "n");
    let refreshed = RefreshTokenReturn {
        access_token: "x".to_string(), refresh_token: "y".to_string(), expires_in: 60,
        scopes: vec!["chat:read".to_string()], token_type: "bearer".to_string(),
    }.into_credential(1_000);
    assert_eq!(refreshed.expires_at, 61_000);
    assert_eq!(refreshed.scopes, vec!["chat:read".to_string()]);
}

#[test]
fn panel_dist_checks_in_order() {
    assert_eq!(panel_dist_status(Err(()), Err(())), PanelDistStatus::DirUncheckable);
    assert_eq!(panel_dist_status(Err(()), Ok(true)), PanelDistStatus::DirUncheckable);
    assert_eq!(panel_dist_status(Ok(true), Err(())), PanelDistStatus::IndexUncheckable);
    assert_eq!(panel_dist_status(Ok(false), Err(())), PanelDistStatus::IndexUncheckable);
    assert_eq!(panel_dist_status(Ok(false), Ok(true)), PanelDistStatus::MissingDir);
    assert_eq!(panel_dist_status(Ok(true), Ok(false)), PanelDistStatus::MissingIndex);
    assert_eq!(panel_dist_status(Ok(true), Ok(true)), PanelDistStatus::Ready);
}

#[test]
fn valid_credential_keeps_its_scopes() {
    let mut c = credential("a");
    c.scopes = vec!["chat:read".to_string(), "user:bot".to_string()];
    let s = after_validation(&c, Ok(true), 9).unwrap();
    assert_eq!(s.credential.scopes, vec!["chat:read".to_string(), "user:bot".to_string()]);
    assert_eq!(s.credential.refresh_token, c.refresh_token);
    assert_eq!(s.credential.expires_at, c.expires_at);
}
