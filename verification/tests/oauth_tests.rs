use std::sync::mpsc::channel;
use talium::encoding::url_encode;
use talium::oauth::{
    get_oauth_setup_url, get_redirect_url, receive_oauth, return_page, OAuthService, OauthReturnError,
    ReceiveOAuthQuery,
};

fn query(state: &str, scope: Option<&str>, code: Option<&str>) -> ReceiveOAuthQuery {
    ReceiveOAuthQuery {
        state: state.to_string(),
        scope: scope.map(|s| s.to_string()),
        code: code.map(|s| s.to_string()),
        error: None,
        error_description: None,
    }
}

#[test]
fn redirect_and_setup_urls() {
    assert_eq!(get_redirect_url("https://bot.example".to_string(), "twitch"), "https://bot.example/auth/twitch");
    assert_eq!(get_oauth_setup_url("https://bot.example".to_string()), "https://bot.example/auth");
}

#[test]
fn url_encode_encodes_form_style() {
    assert_eq!(url_encode("a b&c"), "a+b%26c");
    assert_eq!(url_encode("*-._AZaz09"), "*-._AZaz09");
    assert_eq!(url_encode("ü/"), "%C3%BC%2F");
    assert_eq!(url_encode(""), "");
}

#[test]
fn random_state_is_32_alphanumerics() {
    let s = OAuthService::random_state();
    assert_eq!(s.chars().count(), 32);
    assert!(s.chars().all(|c| c.is_ascii_alphanumeric()));
}

#[test]
fn return_delivers_code_and_removes_request() {
    let mut service = OAuthService::new();
    let (sender, receiver) = channel();
    service.new_oauth_request("twitch".to_string(), "bot".to_string(), "https://auth".to_string(), "s1".to_string(), sender);
    assert_eq!(service.get_active_requests().len(), 1);
    assert_eq!(service.return_oauth("twitch".to_string(), "s1".to_string(), "chat".to_string(), "code-1".to_string()), Ok(()));
    assert_eq!(receiver.recv().unwrap(), "code-1");
    assert_eq!(service.get_active_requests().len(), 0);
    assert_eq!(
        service.return_oauth("twitch".to_string(), "s1".to_string(), "chat".to_string(), "code-2".to_string()),
        Err(OauthReturnError::NotRequested)
    );
}

#[test]
fn return_for_unknown_state_is_not_requested() {
    let mut service = OAuthService::new();
    let (sender, _receiver) = channel();
    service.new_oauth_request("twitch".to_string(), "bot".to_string(), "u".to_string(), "s1".to_string(), sender);
    assert_eq!(
        service.return_oauth("twitch".to_string(), "other".to_string(), "".to_string(), "c".to_string()),
        Err(OauthReturnError::NotRequested)
    );
    assert_eq!(
        service.return_oauth("tipeee".to_string(), "s1".to_string(), "".to_string(), "c".to_string()),
        Err(OauthReturnError::NotRequested)
    );
    assert_eq!(service.get_active_requests().len(), 1);
}

#[test]
fn return_to_closed_channel_still_removes_request() {
    let mut service = OAuthService::new();
    let (sender, receiver) = channel();
    service.new_oauth_request("twitch".to_string(), "bot".to_string(), "u".to_string(), "s1".to_string(), sender);
    drop(receiver);
    assert_eq!(
        service.return_oauth("twitch".to_string(), "s1".to_string(), "".to_string(), "c".to_string()),
        Err(OauthReturnError::ReturnChannelClosed)
    );
    assert_eq!(service.get_active_requests().len(), 0);
}

#[test]
fn first_matching_request_is_served_first() {
    let mut service = OAuthService::new();
    let (s1, r1) = channel();
    let (s2, r2) = channel();
    service.new_oauth_request("twitch".to_string(), "first".to_string(), "u1".to_string(), "s".to_string(), s1);
    service.new_oauth_request("twitch".to_string(), "second".to_string(), "u2".to_string(), "s".to_string(), s2);
    assert_eq!(service.return_oauth("twitch".to_string(), "s".to_string(), "".to_string(), "c".to_string()), Ok(()));
    assert_eq!(r1.recv().unwrap(), "c");
    assert!(r2.try_recv().is_err());
    let left = service.get_active_requests();
    assert_eq!(left.len(), 1);
    assert_eq!(left[0].account_name, "second");
    assert_eq!(left[0].url, "u2");
    assert_eq!(left[0].service_name, "twitch");
}

#[test]
fn receive_oauth_reports_error_description() {
    let mut service = OAuthService::new();
    let mut q = query("s", None, None);
    q.error = Some("access_denied".to_string());
    q.error_description = Some("user said no".to_string());
    assert_eq!(receive_oauth(&mut service, "https://panel", "twitch".to_string(), q), "https://panel?success=false&error=user+said+no");
}

#[test]
fn receive_oauth_reports_error() {
    let mut service = OAuthService::new();
    let mut q = query("s", Some("x"), Some("y"));
    q.error = Some("access_denied".to_string());
    assert_eq!(receive_oauth(&mut service, "https://panel", "twitch".to_string(), q), "https://panel?success=false&error=access_denied");
}

#[test]
fn receive_oauth_requires_scope_and_code() {
    let mut service = OAuthService::new();
    assert_eq!(
        receive_oauth(&mut service, "P", "twitch".to_string(), query("s", None, Some("c"))),
        "P?success=false&error=Query+param+scope+is+required+for+non+error+Oauth+response"
    );
    assert_eq!(
        receive_oauth(&mut service, "P", "twitch".to_string(), query("s", Some("chat"), None)),
        "P?success=false&error=Query+param+code+is+required+for+non+error+Oauth+response"
    );
}

#[test]
fn receive_oauth_unrequested_and_success() {
    let mut service = OAuthService::new();
    assert_eq!(
        receive_oauth(&mut service, "P", "twitch".to_string(), query("s", Some("chat"), Some("c"))),
        "PP?success=false&error=This+oauth+was+never+requested+from+the+bot"
    );
    let (sender, receiver) = channel();
    service.new_oauth_request("twitch".to_string(), "bot".to_string(), "u".to_string(), "s".to_string(), sender);
    assert_eq!(
        receive_oauth(&mut service, "P", "twitch".to_string(), query("s", Some("chat"), Some("code"))),
        "PP?success=true"
    );
    assert_eq!(receiver.recv().unwrap(), "code");
}

#[test]
fn receive_oauth_closed_channel() {
    let mut service = OAuthService::new();
    let (sender, receiver) = channel::<String>();
    drop(receiver);
    service.new_oauth_request("twitch".to_string(), "bot".to_string(), "u".to_string(), "s".to_string(), sender);
    assert_eq!(
        receive_oauth(&mut service, "P", "twitch".to_string(), query("s", Some("chat"), Some("code"))),
        "PP?success=false&error=Could+not+process+auth+code.+Internal+server+error"
    );
}

#[test]
fn return_pages_report_each_outcome() {
    assert_eq!(return_page("P", Ok(())), "P?success=true");
    assert_eq!(
        return_page("P", Err(OauthReturnError::NotRequested)),
        "P?success=false&error=This+oauth+was+never+requested+from+the+bot"
    );
    assert_eq!(
        return_page("P", Err(OauthReturnError::ReturnChannelClosed)),
        "P?success=false&error=Could+not+process+auth+code.+Internal+server+error"
    );
}

#[test]
fn take_first_match_hands_out_the_requesters_channel() {
    let mut service = OAuthService::new();
    let (s1, r1) = channel();
    let (s2, r2) = channel();
    service.new_oauth_request("twitch".to_string(), "a".to_string(), "u1".to_string(), "x".to_string(), s1);
    service.new_oauth_request("twitch".to_string(), "b".to_string(), "u2".to_string(), "y".to_string(), s2);
    assert!(service.take_first_match("twitch", "z", "c0".to_string()).is_none());
    assert_eq!(service.get_active_requests().len(), 2);
    let (ch, code) = service.take_first_match("twitch", "y", "c1".to_string()).unwrap();
    assert_eq!(code, "c1");
    ch.send(code).unwrap();
    assert_eq!(r2.recv().unwrap(), "c1");
    assert!(r1.try_recv().is_err());
    let left = service.get_active_requests();
    assert_eq!(left.len(), 1);
    assert_eq!(left[0].account_name, "a");
}

#[test]
fn registration_draws_a_fresh_state_and_builds_the_address() {
    let mut service = OAuthService::new();
    let (sender, receiver) = channel();
    let (state, url) = service.register_oauth_request(
        "twitch".to_string(),
        "bot".to_string(),
        |svc: &str, st: &str| format!("https://auth/{}?state={}", svc, st),
        sender,
    );
    assert_eq!(state.chars().count(), 32);
    assert!(state.chars().all(|c| c.is_ascii_alphanumeric()));
    assert_eq!(url, format!("https://auth/twitch?state={}", state));
    let listed = service.get_active_requests();
    assert_eq!(listed.len(), 1);
    assert_eq!(listed[0].url, url);
    assert_eq!(listed[0].account_name, "bot");
    assert_eq!(service.return_oauth("twitch".to_string(), state, "s".to_string(), "the-code".to_string()), Ok(()));
    assert_eq!(receiver.recv().unwrap(), "the-code");
}
