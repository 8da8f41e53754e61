//! Chat users, their permission levels and the chat messages the bot reacts to.
use vstd::prelude::*;

verus! {

/// Permission levels of chat users, from the lowest to the highest.
#[derive(Clone, Copy, Debug, PartialEq, Eq, Structural, PartialOrd, Ord)]
pub enum TwitchUserPermission {
    Everyone,
    PredictionsBlue,
    PredictionsPink,
    Subscriber,
    Artist,
    Founder,
    Vip,
    Moderator,
    Broadcaster,
    Owner,
    System,
}

/// The position of a permission level in the order of levels; also the number
/// under which the level is stored.
pub open spec fn permission_rank(p: TwitchUserPermission) -> u8 {
    match p {
        TwitchUserPermission::Everyone => 0,
        TwitchUserPermission::PredictionsBlue => 1,
        TwitchUserPermission::PredictionsPink => 2,
        TwitchUserPermission::Subscriber => 3,
        TwitchUserPermission::Artist => 4,
        TwitchUserPermission::Founder => 5,
        TwitchUserPermission::Vip => 6,
        TwitchUserPermission::Moderator => 7,
        TwitchUserPermission::Broadcaster => 8,
        TwitchUserPermission::Owner => 9,
        TwitchUserPermission::System => 10,
    }
}

impl TwitchUserPermission {
    /// The number under which this level is stored.
    pub fn rank(&self) -> (r: u8)
        ensures
            r == permission_rank(*self),
    {
        match self {
            TwitchUserPermission::Everyone => 0,
            TwitchUserPermission::PredictionsBlue => 1,
            TwitchUserPermission::PredictionsPink => 2,
            TwitchUserPermission::Subscriber => 3,
            TwitchUserPermission::Artist => 4,
            TwitchUserPermission::Founder => 5,
            TwitchUserPermission::Vip => 6,
            TwitchUserPermission::Moderator => 7,
            TwitchUserPermission::Broadcaster => 8,
            TwitchUserPermission::Owner => 9,
            TwitchUserPermission::System => 10,
        }
    }

    /// The level stored under `n`; `None` for numbers that name no level.
    pub fn from_u8(n: u8) -> (r: Option<TwitchUserPermission>)
        ensures
            r is Some <==> n <= 10,
            r matches Some(p) ==> permission_rank(p) == n,
    {
        match n {
            0 => Some(TwitchUserPermission::Everyone),
            1 => Some(TwitchUserPermission::PredictionsBlue),
            2 => Some(TwitchUserPermission::PredictionsPink),
            3 => Some(TwitchUserPermission::Subscriber),
            4 => Some(TwitchUserPermission::Artist),
            5 => Some(TwitchUserPermission::Founder),
            6 => Some(TwitchUserPermission::Vip),
            7 => Some(TwitchUserPermission::Moderator),
            8 => Some(TwitchUserPermission::Broadcaster),
            9 => Some(TwitchUserPermission::Owner),
            10 => Some(TwitchUserPermission::System),
            _ => None,
        }
    }

    /// Whether this level is at least `required` in the order of levels.
    pub fn at_least(&self, required: &TwitchUserPermission) -> (b: bool)
        ensures
            b == (permission_rank(*self) >= permission_rank(*required)),
    {
        self.rank() >= required.rank()
    }
}

/// Two levels with the same rank are the same level.
pub proof fn lemma_rank_injective(a: TwitchUserPermission, b: TwitchUserPermission)
    ensures
        permission_rank(a) == permission_rank(b) <==> a == b,
{
}

/// A chat user as seen in one message.
#[derive(Clone, Debug)]
pub struct TwitchUser {
    pub id: String,
    pub name: String,
    pub permission: TwitchUserPermission,
    pub subscriber_months: u16,
    pub subscription_tier: u16,
}

/// A chat message. `received_at` is the clock reading, in nanoseconds, taken
/// when the message arrived.
#[derive(Clone, Debug)]
pub struct ChatMessage {
    pub message_id: String,
    pub message: String,
    pub user: TwitchUser,
    pub get_custom_reward_id: Option<String>,
    pub reply_to_message_id: Option<String>,
    pub channel_id: String,
    pub received_at: u64,
}

/// The chat message of a chat event. Every author counts as `Everyone`, with
/// no subscription; a message without a source channel belongs to
/// `default_channel`.
pub fn chat_message_from_event(
    message_id: String,
    text: String,
    chatter_user_id: String,
    chatter_user_name: String,
    custom_reward_id: Option<String>,
    reply_parent_message_id: Option<String>,
    source_broadcaster_user_id: Option<String>,
    default_channel: String,
    received_at: u64,
) -> (m: ChatMessage)
    ensures
        m.message_id@ == message_id@,
        m.message@ == text@,
        m.user.id@ == chatter_user_id@,
        m.user.name@ == chatter_user_name@,
        m.user.permission == TwitchUserPermission::Everyone,
        m.user.subscriber_months == 0,
        m.user.subscription_tier == 0,
        m.get_custom_reward_id == custom_reward_id,
        m.reply_to_message_id == reply_parent_message_id,
        m.channel_id@ == (match source_broadcaster_user_id {
            Some(c) => c@,
            None => default_channel@,
        }),
        m.received_at == received_at,
{
    ChatMessage {
        message_id,
        message: text,
        user: TwitchUser {
            id: chatter_user_id,
            name: chatter_user_name,
            permission: TwitchUserPermission::Everyone,
            subscriber_months: 0,
            subscription_tier: 0,
        },
        get_custom_reward_id: custom_reward_id,
        reply_to_message_id: reply_parent_message_id,
        channel_id: match source_broadcaster_user_id {
            Some(c) => c,
            None => default_channel,
        },
        received_at,
    }
}

} // verus!
