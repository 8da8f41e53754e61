//! The first sketch of panel authentication: any caller with an access token
//! counts as one fixed moderator.
use vstd::prelude::*;

verus! {

/// The user id every authenticated caller gets.
pub open spec fn placeholder_user_id() -> Seq<char> {
    "SOMEUSERID"@
}

/// A moderator of the panel.
#[derive(Clone, Debug, PartialEq, Eq)]
pub struct Moderator {
    pub twitch_user_id: String,
}

/// An authenticated caller.
#[derive(Clone, Debug, PartialEq, Eq)]
pub enum User {
    Moderator(Moderator),
}

/// Authenticates a caller: without an access token nobody, with one the fixed
/// moderator; the user agent is not looked at.
pub fn authenticate(access_token: Option<String>, user_agent: Option<String>) -> (r: Option<User>)
    ensures
        access_token is None ==> r is None,
        access_token is Some ==> (r matches Some(User::Moderator(m)) && m.twitch_user_id@
            == placeholder_user_id()),
{
    if access_token.is_none() {
        return None;
    }
    Some(User::Moderator(Moderator { twitch_user_id: String::from_str("SOMEUSERID") }))
}

/// Why a request was not admitted.
#[derive(Clone, Copy, Debug, PartialEq, Eq, Structural)]
pub enum AuthFailure {
    AuthenticationFailure,
    AuthorizationFailure,
}

impl AuthFailure {
    /// The text of the answer to a refused request.
    pub fn message(&self) -> (m: &'static str)
        ensures
            m@ == (match *self {
                AuthFailure::AuthenticationFailure => "Authentication failure"@,
                AuthFailure::AuthorizationFailure => "Authorization failure"@,
            }),
    {
        match self {
            AuthFailure::AuthenticationFailure => "Authentication failure",
            AuthFailure::AuthorizationFailure => "Authorization failure",
        }
    }
}

/// The moderator a request acts as, given its `token` and `User-Agent` headers.
pub fn moderator_from_headers(access_token: Option<String>, user_agent: Option<String>) -> (r:
    Result<Moderator, AuthFailure>)
    ensures
        access_token is None ==> r == Err::<Moderator, AuthFailure>(
            AuthFailure::AuthenticationFailure,
        ),
        access_token is Some ==> (r matches Ok(m) && m.twitch_user_id@ == placeholder_user_id()),
{
    match authenticate(access_token, user_agent) {
        None => Err(AuthFailure::AuthenticationFailure),
        Some(User::Moderator(m)) => Ok(m),
    }
}

/// What a cooldown amount counts.
#[derive(Clone, Copy, Debug, PartialEq, Eq, Structural)]
pub enum CooldownType {
    SECONDS,
    MESSAGES,
}

/// A cooldown: an amount and what it counts.
#[derive(Clone, Copy, Debug, PartialEq, Eq, Structural)]
pub struct ChatCooldown {
    pub cooldown_type: CooldownType,
    pub amount: u16,
}

impl ChatCooldown {
    /// The same cooldown in the form the cooldown service checks.
    pub fn to_cooldown(&self) -> (c: crate::cooldown::ChatCooldown)
        ensures
            c == (match self.cooldown_type {
                CooldownType::SECONDS => crate::cooldown::ChatCooldown::SECONDS(self.amount),
                CooldownType::MESSAGES => crate::cooldown::ChatCooldown::MESSAGES(self.amount),
            }),
    {
        match self.cooldown_type {
            CooldownType::SECONDS => crate::cooldown::ChatCooldown::SECONDS(self.amount),
            CooldownType::MESSAGES => crate::cooldown::ChatCooldown::MESSAGES(self.amount),
        }
    }
}

} // verus!
