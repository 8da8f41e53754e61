//! The bot's own Twitch credential: when to validate or refresh it, and what
//! to do when a Twitch request is refused as unauthorised.
use crate::text::{chars_of, is_prefix, starts_with};
use vstd::prelude::*;

verus! {

/// How long a credential check stays fresh before a refusal leads to a new
/// check: fifteen minutes, in nanoseconds.
pub const REVALIDATION_INTERVAL: u64 = 900_000_000_000;

/// The message of a credential that can be neither validated nor refreshed.
pub open spec fn bad_credentials_message() -> Seq<char> {
    "Could not get new oauth token, bad credentials, needs reauthentication"@
}

/// An OAuth credential. `expires_at` counts milliseconds since the Unix epoch.
#[derive(Clone, Debug, Default)]
pub struct OauthCredential {
    pub access_token: String,
    pub refresh_token: String,
    pub scopes: Vec<String>,
    pub expires_at: i64,
}

/// The bot's Twitch settings.
#[derive(Clone, Debug, Default)]
pub struct TwitchConfig {
    pub channel_name: String,
    pub chat_account_name: String,
    pub send_to: String,
    pub client_id: String,
    pub client_secret: String,
}

/// What Twitch answered to a token validation. `expires_in` is in seconds.
#[derive(Clone, Debug)]
pub struct ValidationReturn {
    pub client_id: String,
    pub scopes: Vec<String>,
    pub user_id: String,
    pub user_name: String,
    pub expires_in: u64,
}

/// What Twitch answered to a token refresh. `expires_in` is in seconds.
#[derive(Clone, Debug)]
pub struct RefreshTokenReturn {
    pub access_token: String,
    pub refresh_token: String,
    pub expires_in: u64,
    pub scopes: Vec<String>,
    pub token_type: String,
}

impl RefreshTokenReturn {
    /// The credential a refresh hands out, expiring `expires_in` seconds after
    /// the clock reading `now_millis` (milliseconds since the Unix epoch).
    pub fn into_credential(self, now_millis: i64) -> (c: OauthCredential)
        requires
            self.expires_in * 1000 <= i64::MAX,
            now_millis + self.expires_in * 1000 <= i64::MAX,
        ensures
            c.access_token@ == self.access_token@,
            c.refresh_token@ == self.refresh_token@,
            c.scopes@ == self.scopes@,
            c.expires_at == now_millis + self.expires_in * 1000,
    {
        let lifetime = (self.expires_in * 1000) as i64;
        OauthCredential {
            refresh_token: self.refresh_token,
            scopes: self.scopes,
            access_token: self.access_token,
            expires_at: now_millis + lifetime,
        }
    }
}

/// The state of the bot's credential: when it was last checked, whether it was
/// valid then, and the credential itself.
pub struct TwitchCredentialStatus {
    pub valid_checked_at: u64,
    pub was_valid_at_check: bool,
    pub credential: OauthCredential,
}

/// A credential just found valid at `now`.
pub fn fresh_status(credential: OauthCredential, now: u64) -> (s: TwitchCredentialStatus)
    ensures
        s.valid_checked_at == now,
        s.was_valid_at_check,
        s.credential == credential,
{
    TwitchCredentialStatus { valid_checked_at: now, was_valid_at_check: true, credential }
}

/// Whether a Twitch error is a refusal for lack of authorisation: an API error
/// whose message starts with `HTTP 401`.
pub fn is_unauthorized(is_api_error: bool, message: Option<&str>) -> (b: bool)
    ensures
        b == (is_api_error && (match message {
            Some(m) => is_prefix("HTTP 401"@, m@),
            None => false,
        })),
{
    if !is_api_error {
        return false;
    }
    match message {
        None => false,
        Some(m) => {
            let prefix = chars_of("HTTP 401");
            starts_with(chars_of(m).as_slice(), prefix.as_slice())
        },
    }
}

/// Nanoseconds from `then` to `now` (`Instant::elapsed`: zero when `now` is not
/// later).
pub open spec fn elapsed(then: u64, now: u64) -> int {
    if now > then {
        now - then
    } else {
        0
    }
}

/// What to do after a Twitch request failed.
#[derive(Clone, Copy, Debug, PartialEq, Eq, Structural)]
pub enum RetryAction {
    /// Not an authorisation problem: hand the error to the caller.
    PassError,
    /// The last check is old: validate or refresh the credential first.
    Revalidate,
    /// The credential is believed valid: send the request once more.
    Retry,
    /// The credential is known to be bad: fail without retrying.
    FailBadCredentials,
}

/// The decision after a failed request, given the credential's state and the
/// clock reading `now`.
pub open spec fn after_failure(
    status_checked_at: u64,
    status_valid: bool,
    unauthorized: bool,
    now: u64,
) -> RetryAction {
    if !unauthorized {
        RetryAction::PassError
    } else if elapsed(status_checked_at, now) > REVALIDATION_INTERVAL {
        RetryAction::Revalidate
    } else if !status_valid {
        RetryAction::FailBadCredentials
    } else {
        RetryAction::Retry
    }
}

/// Decides what to do after a failed Twitch request.
pub fn on_request_failure(status: &TwitchCredentialStatus, unauthorized: bool, now: u64) -> (a:
    RetryAction)
    ensures
        a == after_failure(status.valid_checked_at, status.was_valid_at_check, unauthorized, now),
        !unauthorized ==> a == RetryAction::PassError,
        unauthorized && now > status.valid_checked_at && now - status.valid_checked_at
            > REVALIDATION_INTERVAL ==> a == RetryAction::Revalidate,
        unauthorized && !(now > status.valid_checked_at && now - status.valid_checked_at
            > REVALIDATION_INTERVAL) ==> a == (if status.was_valid_at_check {
            RetryAction::Retry
        } else {
            RetryAction::FailBadCredentials
        }),
{
    if !unauthorized {
        RetryAction::PassError
    } else if now > status.valid_checked_at && now - status.valid_checked_at
        > REVALIDATION_INTERVAL {
        RetryAction::Revalidate
    } else if !status.was_valid_at_check {
        RetryAction::FailBadCredentials
    } else {
        RetryAction::Retry
    }
}

/// What to do once a revalidation ended.
#[derive(Clone, Copy, Debug, PartialEq, Eq, Structural)]
pub enum RevalidationAction {
    /// The credential was replaced: give the new token to the API client and
    /// send the request once more.
    RetryWithNewToken,
    /// The credential is bad: fail without retrying, and ask for a new
    /// authorisation in the background.
    FailAndReauthorize,
}

/// Records the outcome of a revalidation at `now`: a new status replaces the
/// old one; a failure marks the credential as bad at `now`.
pub fn on_revalidation(
    status: &mut TwitchCredentialStatus,
    outcome: Result<TwitchCredentialStatus, ()>,
    now: u64,
) -> (a: RevalidationAction)
    ensures
        match outcome {
            Ok(new_status) => a == RevalidationAction::RetryWithNewToken && *final(status)
                == new_status,
            Err(()) => a == RevalidationAction::FailAndReauthorize && final(status).valid_checked_at
                == now && !final(status).was_valid_at_check && final(status).credential == old(
                status,
            ).credential,
        },
{
    match outcome {
        Ok(new_status) => {
            *status = new_status;
            RevalidationAction::RetryWithNewToken
        },
        Err(()) => {
            status.valid_checked_at = now;
            status.was_valid_at_check = false;
            RevalidationAction::FailAndReauthorize
        },
    }
}

/// The step of a credential check after asking Twitch to validate the access
/// token: `Ok(true)` means valid; a valid credential is fresh at `now`, any
/// other answer calls for a refresh (`None`).
pub fn after_validation(credential: &OauthCredential, validation: Result<bool, ()>, now: u64) -> (r:
    Option<TwitchCredentialStatus>)
    ensures
        match validation {
            Ok(true) => r matches Some(s) && s.valid_checked_at == now && s.was_valid_at_check
                && s.credential.access_token@ == credential.access_token@
                && s.credential.refresh_token@ == credential.refresh_token@
                && s.credential.expires_at == credential.expires_at
                && s.credential.scopes@ == credential.scopes@,
            _ => r is None,
        },
{
    match validation {
        Ok(true) => Some(
            fresh_status(
                OauthCredential {
                    access_token: credential.access_token.clone(),
                    refresh_token: credential.refresh_token.clone(),
                    scopes: credential.scopes.clone(),
                    expires_at: credential.expires_at,
                },
                now,
            ),
        ),
        _ => None,
    }
}

/// The step of a credential check after asking Twitch to refresh the token: a
/// new credential is fresh at `now`; anything else ends the check with the
/// bad-credentials message.
pub fn after_refresh(refresh: Result<Option<OauthCredential>, ()>, now: u64) -> (r: Result<
    TwitchCredentialStatus,
    String,
>)
    ensures
        match refresh {
            Ok(Some(c)) => r matches Ok(s) && s.valid_checked_at == now && s.was_valid_at_check
                && s.credential == c,
            _ => r matches Err(m) && m@ == bad_credentials_message(),
        },
{
    match refresh {
        Ok(Some(c)) => Ok(fresh_status(c, now)),
        _ => Err(
            String::from_str("Could not get new oauth token, bad credentials, needs reauthentication"),
        ),
    }
}

/// A refused request leads to a new check only when the last one is more than
/// fifteen minutes old; within that time a credential known to be bad fails at
/// once and a good one is retried.
pub proof fn lemma_recent_check_is_trusted(status_checked_at: u64, status_valid: bool, now: u64)
    requires
        elapsed(status_checked_at, now) <= REVALIDATION_INTERVAL,
    ensures
        after_failure(status_checked_at, status_valid, true, now) == (if status_valid {
            RetryAction::Retry
        } else {
            RetryAction::FailBadCredentials
        }),
{
}

/// A failed revalidation makes every refusal within the next fifteen minutes
/// fail at once.
pub proof fn lemma_failed_revalidation_blocks_retries(checked_at: u64, later: u64)
    requires
        checked_at <= later,
        later - checked_at <= REVALIDATION_INTERVAL,
    ensures
        after_failure(checked_at, false, true, later) == RetryAction::FailBadCredentials,
{
}

/// A refusal for want of authorisation whose last check is more than fifteen
/// minutes old always leads to a new check, whether that check found the
/// credential good or bad: a credential marked bad is checked again once the
/// mark is old.
pub proof fn lemma_old_check_is_revalidated(checked_at: u64, was_valid: bool, now: u64)
    requires
        now > checked_at,
        now - checked_at > REVALIDATION_INTERVAL,
    ensures
        after_failure(checked_at, was_valid, true, now) == RetryAction::Revalidate,
        after_failure(checked_at, false, true, now) == after_failure(checked_at, true, true, now),
{
}

} // verus!
