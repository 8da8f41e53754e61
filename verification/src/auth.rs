//! The decisions that admit or refuse a panel request: reading the
//! authentication headers, and checking the caller's session.
use crate::session::{
    first_with_token, refreshed_at, without_token, PanelUser, PanelUserView, SessionService,
};
use crate::text::{push_char, str_eq};
use vstd::prelude::*;

verus! {

/// The message of a request that must authenticate again.
pub open spec fn reauthenticate_message() -> Seq<char> {
    "Reauthenticate with access token"@
}

/// The message of a failure on the bot's side while authenticating.
pub open spec fn internal_error_message() -> Seq<char> {
    "Internal server error. Retry authentication"@
}

/// The message of a token that the identity provider does not accept.
pub open spec fn invalid_token_message() -> Seq<char> {
    "Invalid access token, Reauthenticate"@
}

/// The message of a user who may not use the panel.
pub open spec fn forbidden_message() -> Seq<char> {
    "user lacks required permissions"@
}

/// A refusal: an HTTP status code and a message.
pub struct Rejection {
    pub status: u16,
    pub message: String,
}

/// The refusal of a user who lacks the required permission (403).
pub fn forbidden() -> (r: Rejection)
    ensures
        r.status == 403,
        r.message@ == forbidden_message(),
{
    Rejection { status: 403, message: String::from_str("user lacks required permissions") }
}

/// The outcome of looking up the caller's session.
pub enum SessionCheck {
    /// A valid session of this user, now refreshed.
    Admitted(PanelUser),
    /// A session exists but does not admit the request.
    Rejected(Rejection),
    /// No session has this access token.
    NoSession,
}

/// Looks up the session of `access_token` at the clock reading `now`: a session
/// opened from another user agent is refused; an expired one is ended and
/// refused; a valid one is refreshed and admits its user.
pub fn check_session(
    sessions: &mut SessionService,
    access_token: String,
    user_agent: &str,
    now: u64,
) -> (r: SessionCheck)
    ensures
        final(sessions).timeout() == old(sessions).timeout(),
        match first_with_token(old(sessions)@, access_token@) {
            None => r is NoSession && final(sessions)@ == old(sessions)@,
            Some(i) => {
                let s = old(sessions)@[i];
                if s.user_agent != user_agent@ {
                    &&& r matches SessionCheck::Rejected(rej)
                    &&& rej.status == 401 && rej.message@ == reauthenticate_message()
                    &&& final(sessions)@ == old(sessions)@
                } else if s.last_refreshed_at + old(sessions).timeout() < now {
                    &&& r matches SessionCheck::Rejected(rej)
                    &&& rej.status == 401 && rej.message@ == reauthenticate_message()
                    &&& final(sessions)@ == without_token(old(sessions)@, access_token@)
                } else {
                    &&& r matches SessionCheck::Admitted(u)
                    &&& u@ == s.panel_user
                    &&& final(sessions)@ == refreshed_at(old(sessions)@, i, now)
                }
            },
        },
{
    match sessions.get_by_access_token(access_token.as_str()) {
        Some(session) => {
            if !str_eq(session.user_agent.as_str(), user_agent) {
                SessionCheck::Rejected(
                    Rejection {
                        status: 401,
                        message: String::from_str("Reauthenticate with access token"),
                    },
                )
            } else if session.last_refreshed_at < now && now - session.last_refreshed_at
                > sessions.session_timeout() {
                sessions.delete_by_access_token(access_token.as_str());
                SessionCheck::Rejected(
                    Rejection {
                        status: 401,
                        message: String::from_str("Reauthenticate with access token"),
                    },
                )
            } else {
                let _ = sessions.refresh_session_at(access_token, now);
                SessionCheck::Admitted(session.panel_user)
            }
        },
        None => SessionCheck::NoSession,
    }
}

/// What the identity provider said of an access token: `Err` when asking
/// failed, `Ok(None)` when the token is not valid, else the id of its user.
pub fn after_token_validation(validation: Result<Option<String>, ()>) -> (r: Result<
    String,
    Rejection,
>)
    ensures
        match validation {
            Err(()) => r matches Err(rej) && rej.status == 500 && rej.message@
                == internal_error_message(),
            Ok(None) => r matches Err(rej) && rej.status == 401 && rej.message@
                == invalid_token_message(),
            Ok(Some(id)) => r matches Ok(u) && u@ == id@,
        },
{
    match validation {
        Err(()) => Err(
            Rejection {
                status: 500,
                message: String::from_str("Internal server error. Retry authentication"),
            },
        ),
        Ok(None) => Err(
            Rejection { status: 401, message: String::from_str("Invalid access token, Reauthenticate") },
        ),
        Ok(Some(id)) => Ok(id),
    }
}

/// What the user store said of the token's user: `Err` when asking failed,
/// `Ok(None)` when the user may not use the panel. A known user gets a new
/// session opened at `now`.
pub fn after_user_lookup(
    sessions: &mut SessionService,
    lookup: Result<Option<PanelUser>, ()>,
    access_token: String,
    user_agent: String,
    now: u64,
) -> (r: Result<PanelUser, Rejection>)
    ensures
        final(sessions).timeout() == old(sessions).timeout(),
        match lookup {
            Err(()) => r matches Err(rej) && rej.status == 500 && rej.message@
                == internal_error_message() && final(sessions)@ == old(sessions)@,
            Ok(None) => r matches Err(rej) && rej.status == 403 && rej.message@
                == forbidden_message() && final(sessions)@ == old(sessions)@,
            Ok(Some(user)) => r matches Ok(u) && u@ == user@ && final(sessions)@ == old(
                sessions,
            )@.push(
                crate::session::SessionView {
                    access_token: access_token@,
                    user_agent: user_agent@,
                    last_refreshed_at: now,
                    panel_user: user@,
                },
            ),
        },
{
    match lookup {
        Err(()) => Err(
            Rejection {
                status: 500,
                message: String::from_str("Internal server error. Retry authentication"),
            },
        ),
        Ok(None) => Err(forbidden()),
        Ok(Some(user)) => {
            sessions.create_session_at(user.copy_user(), access_token, user_agent, now);
            Ok(user)
        },
    }
}

/// A byte that a header value may hold when read as text: visible ASCII or a
/// tab.
pub open spec fn is_visible_ascii(b: u8) -> bool {
    (32 <= b && b < 127) || b == 9
}

/// Every byte is visible ASCII or a tab.
pub open spec fn all_visible_ascii(bytes: Seq<u8>) -> bool {
    forall|i: int| 0 <= i < bytes.len() ==> is_visible_ascii(#[trigger] bytes[i])
}

/// The text of a header value whose bytes are all visible ASCII or tabs.
pub open spec fn ascii_text(bytes: Seq<u8>) -> Seq<char> {
    bytes.map_values(|b: u8| b as char)
}

/// Reads the authentication header `key`, given its raw value: a missing
/// header is refused with 401, one that is not visible ASCII (what
/// `HeaderValue::to_str` refuses) with 400.
pub fn get_header(value: Option<&[u8]>, key: &str) -> (r: Result<String, Rejection>)
    ensures
        match value {
            None => r matches Err(rej) && rej.status == 401 && rej.message@ == "Missing '"@
                + key@ + "' authentication header"@,
            Some(bytes) => if all_visible_ascii(bytes@) {
                r matches Ok(s) && s@ == ascii_text(bytes@)
            } else {
                r matches Err(rej) && rej.status == 400 && rej.message@
                    == "malformed authentication header token, non ascii string"@
            },
        },
{
    match value {
        None => {
            let mut m = String::from_str("Missing '");
            m.append(key);
            m.append("' authentication header");
            Err(Rejection { status: 401, message: m })
        },
        Some(bytes) => {
            let mut s = String::new();
            let mut i: usize = 0;
            while i < bytes.len()
                invariant
                    value == Some(bytes),
                    i <= bytes@.len(),
                    forall|j: int| 0 <= j < i ==> is_visible_ascii(#[trigger] bytes@[j]),
                    s@ == ascii_text(bytes@.take(i as int)),
                decreases bytes@.len() - i,
            {
                let b = bytes[i];
                if !((32 <= b && b < 127) || b == 9) {
                    assert(!is_visible_ascii(bytes@[i as int]));
                    assert(!all_visible_ascii(bytes@));
                    return Err(
                        Rejection {
                            status: 400,
                            message: String::from_str(
                                "malformed authentication header token, non ascii string",
                            ),
                        },
                    );
                }
                push_char(&mut s, b as char);
                i = i + 1;
                assert(ascii_text(bytes@.take(i as int)) =~= ascii_text(
                    bytes@.take(i - 1),
                ).push(b as char));
            }
            assert(bytes@.take(bytes@.len() as int) =~= bytes@);
            Ok(s)
        },
    }
}


} // verus!
