//! Global and per-user cooldowns of chat commands, counted in chat messages or
//! in seconds.
use crate::chat::ChatMessage;
use crate::table::{Table, TableKey};
use vstd::prelude::*;

verus! {

/// Nanoseconds in one second: messages carry their clock readings in nanoseconds.
pub const NANOS_PER_SECOND: u64 = 1_000_000_000;

/// A cooldown: a number of chat messages, or of seconds, that must pass before a
/// command may fire again. A cooldown in messages blocks while at most that many
/// messages were checked since the command last fired. A cooldown in seconds
/// compares the whole seconds from the new message's clock reading until the
/// recorded one, which is zero for every later message, so once a command has
/// fired under it every call at the same or a later clock reading is refused.
#[derive(Clone, Copy, Debug, PartialEq, Eq, Structural)]
pub enum ChatCooldown {
    SECONDS(u16),
    MESSAGES(u16),
}

/// Why a command call was refused.
#[derive(Clone, Copy, Debug, PartialEq, Eq, Structural)]
pub enum RejectionReason {
    GlobalCooldown,
    UserCooldown,
}

/// A key of the global cooldown tables: the command.
pub struct TriggerKey {
    pub trigger_id: String,
}

impl View for TriggerKey {
    type V = Seq<char>;

    open spec fn view(&self) -> Seq<char> {
        self.trigger_id@
    }
}

impl TableKey for TriggerKey {
    fn same_key(&self, other: &Self) -> (b: bool) {
        self.trigger_id == other.trigger_id
    }

    fn copy_key(&self) -> (c: Self) {
        TriggerKey { trigger_id: self.trigger_id.clone() }
    }
}

/// A key of the per-user cooldown tables: the command and the user.
pub struct UserKey {
    pub trigger_id: String,
    pub user_id: String,
}

impl View for UserKey {
    type V = (Seq<char>, Seq<char>);

    open spec fn view(&self) -> (Seq<char>, Seq<char>) {
        (self.trigger_id@, self.user_id@)
    }
}

impl TableKey for UserKey {
    fn same_key(&self, other: &Self) -> (b: bool) {
        self.trigger_id == other.trigger_id && self.user_id == other.user_id
    }

    fn copy_key(&self) -> (c: Self) {
        UserKey { trigger_id: self.trigger_id.clone(), user_id: self.user_id.clone() }
    }
}

/// The abstract state of the cooldown service: how many messages have been
/// checked, and when (by message number, or by clock reading) each command last
/// fired, globally and per user.
#[verifier::ext_equal]
pub struct CooldownState {
    pub counter: u64,
    pub global_message: Map<Seq<char>, u64>,
    pub global_seconds: Map<Seq<char>, u64>,
    pub user_message: Map<(Seq<char>, Seq<char>), u64>,
    pub user_seconds: Map<(Seq<char>, Seq<char>), u64>,
}

/// No recorded message number lies ahead of the message counter.
pub open spec fn valid_state(s: CooldownState) -> bool {
    &&& forall|t: Seq<char>| #[trigger]
        s.global_message.contains_key(t) ==> s.global_message[t] <= s.counter
    &&& forall|k: (Seq<char>, Seq<char>)| #[trigger]
        s.user_message.contains_key(k) ==> s.user_message[k] <= s.counter
}

/// Whole seconds from `now` until `last` (what `last.duration_since(now).as_secs()`
/// gives: zero when `last` is not later than `now`).
pub open spec fn seconds_between(last: u64, now: u64) -> int {
    if last > now {
        (last - now) / (NANOS_PER_SECOND as int)
    } else {
        0
    }
}

/// Whether a cooldown counted in messages blocks message number `seq`, given the
/// number of the message on which the command last fired.
pub open spec fn message_blocked(last: Option<u64>, seq: u64, amount: u16) -> bool {
    last matches Some(l) && seq - l <= amount
}

/// Whether a cooldown counted in seconds blocks a message read at `now`, given
/// the clock reading at which the command last fired.
pub open spec fn seconds_blocked(last: Option<u64>, now: u64, seconds: u16) -> bool {
    last matches Some(l) && seconds_between(l, now) <= seconds
}

/// The value of `k` in `m`, if it has one.
pub open spec fn map_get<K>(m: Map<K, u64>, k: K) -> Option<u64> {
    if m.contains_key(k) {
        Some(m[k])
    } else {
        None
    }
}

/// Whether the command's global cooldown blocks message number `seq`, read at
/// `now`.
pub open spec fn global_blocked(
    s: CooldownState,
    trigger: Seq<char>,
    seq: u64,
    now: u64,
    cooldown: ChatCooldown,
) -> bool {
    match cooldown {
        ChatCooldown::MESSAGES(amount) => message_blocked(
            map_get(s.global_message, trigger),
            seq,
            amount,
        ),
        ChatCooldown::SECONDS(seconds) => seconds_blocked(
            map_get(s.global_seconds, trigger),
            now,
            seconds,
        ),
    }
}

/// Whether the user's cooldown for the command blocks message number `seq`,
/// read at `now`.
pub open spec fn user_blocked(
    s: CooldownState,
    trigger: Seq<char>,
    user: Seq<char>,
    seq: u64,
    now: u64,
    cooldown: ChatCooldown,
) -> bool {
    match cooldown {
        ChatCooldown::MESSAGES(amount) => message_blocked(
            map_get(s.user_message, (trigger, user)),
            seq,
            amount,
        ),
        ChatCooldown::SECONDS(seconds) => seconds_blocked(
            map_get(s.user_seconds, (trigger, user)),
            now,
            seconds,
        ),
    }
}

/// The state with a global firing of the command recorded: its message number
/// or its clock reading, as the cooldown counts.
pub open spec fn record_global(
    s: CooldownState,
    trigger: Seq<char>,
    seq: u64,
    now: u64,
    cooldown: ChatCooldown,
) -> CooldownState {
    match cooldown {
        ChatCooldown::MESSAGES(_) => CooldownState {
            global_message: s.global_message.insert(trigger, seq),
            ..s
        },
        ChatCooldown::SECONDS(_) => CooldownState {
            global_seconds: s.global_seconds.insert(trigger, now),
            ..s
        },
    }
}

/// The state with a firing of the command by the user recorded.
pub open spec fn record_user(
    s: CooldownState,
    trigger: Seq<char>,
    user: Seq<char>,
    seq: u64,
    now: u64,
    cooldown: ChatCooldown,
) -> CooldownState {
    match cooldown {
        ChatCooldown::MESSAGES(_) => CooldownState {
            user_message: s.user_message.insert((trigger, user), seq),
            ..s
        },
        ChatCooldown::SECONDS(_) => CooldownState {
            user_seconds: s.user_seconds.insert((trigger, user), now),
            ..s
        },
    }
}

/// One check of a command call: the message counter always advances; the
/// global cooldown is checked first, then the user's; only a call that both
/// admit is recorded, globally and for the user.
pub open spec fn check_update(
    s: CooldownState,
    trigger: Seq<char>,
    user: Seq<char>,
    now: u64,
    user_cooldown: ChatCooldown,
    global_cooldown: ChatCooldown,
) -> (CooldownState, Option<RejectionReason>) {
    let seq = (s.counter + 1) as u64;
    let s1 = CooldownState { counter: seq, ..s };
    if global_blocked(s1, trigger, seq, now, global_cooldown) {
        (s1, Some(RejectionReason::GlobalCooldown))
    } else if user_blocked(s1, trigger, user, seq, now, user_cooldown) {
        (s1, Some(RejectionReason::UserCooldown))
    } else {
        (
            record_user(
                record_global(s1, trigger, seq, now, global_cooldown),
                trigger,
                user,
                seq,
                now,
                user_cooldown,
            ),
            None,
        )
    }
}

/// Every check counts one more message, whether the call is admitted or refused.
pub proof fn lemma_counter_advances(
    s: CooldownState,
    trigger: Seq<char>,
    user: Seq<char>,
    now: u64,
    user_cooldown: ChatCooldown,
    global_cooldown: ChatCooldown,
)
    requires
        s.counter < u64::MAX,
    ensures
        check_update(s, trigger, user, now, user_cooldown, global_cooldown).0.counter == s.counter
            + 1,
{
}

/// A check keeps every recorded message number at or below the counter.
pub proof fn lemma_check_keeps_valid(
    s: CooldownState,
    trigger: Seq<char>,
    user: Seq<char>,
    now: u64,
    user_cooldown: ChatCooldown,
    global_cooldown: ChatCooldown,
)
    requires
        valid_state(s),
        s.counter < u64::MAX,
    ensures
        valid_state(check_update(s, trigger, user, now, user_cooldown, global_cooldown).0),
{
}

/// The user cooldown is kept per command and per user. A call is refused by
/// the user cooldown only on a recorded firing of this very command by this
/// very user that is recent enough; an admitted call records the user's firing
/// under this command alone, and nothing else of the user tables changes.
pub proof fn lemma_user_cooldown_is_per_command_and_user(
    s: CooldownState,
    trigger: Seq<char>,
    user: Seq<char>,
    now: u64,
    user_cooldown: ChatCooldown,
    global_cooldown: ChatCooldown,
)
    requires
        s.counter < u64::MAX,
    ensures
        ({
            let (next, r) = check_update(s, trigger, user, now, user_cooldown, global_cooldown);
            &&& r == Some(RejectionReason::UserCooldown) ==> match user_cooldown {
                ChatCooldown::MESSAGES(amount) => s.user_message.contains_key((trigger, user))
                    && s.counter + 1 - s.user_message[(trigger, user)] <= amount,
                ChatCooldown::SECONDS(seconds) => s.user_seconds.contains_key((trigger, user))
                    && seconds_between(s.user_seconds[(trigger, user)], now) <= seconds,
            }
            &&& r is None ==> match user_cooldown {
                ChatCooldown::MESSAGES(_) => next.user_message == s.user_message.insert(
                    (trigger, user),
                    (s.counter + 1) as u64,
                ) && next.user_seconds == s.user_seconds,
                ChatCooldown::SECONDS(_) => next.user_seconds == s.user_seconds.insert(
                    (trigger, user),
                    now,
                ) && next.user_message == s.user_message,
            }
            &&& r is Some ==> next.user_message == s.user_message && next.user_seconds
                == s.user_seconds
        }),
{
}

/// Firing one command for a user leaves that user's cooldown for every other
/// command as it was: a later call of another command is judged by the user
/// tables exactly as before the firing.
pub proof fn lemma_other_commands_keep_user_cooldowns(
    s: CooldownState,
    fired: Seq<char>,
    other: Seq<char>,
    user: Seq<char>,
    now: u64,
    user_cooldown: ChatCooldown,
    global_cooldown: ChatCooldown,
)
    requires
        s.counter < u64::MAX,
        fired != other,
    ensures
        ({
            let next = check_update(s, fired, user, now, user_cooldown, global_cooldown).0;
            &&& next.user_message.contains_key((other, user)) == s.user_message.contains_key(
                (other, user),
            )
            &&& next.user_message[(other, user)] == s.user_message[(other, user)]
            &&& next.user_seconds.contains_key((other, user)) == s.user_seconds.contains_key(
                (other, user),
            )
            &&& next.user_seconds[(other, user)] == s.user_seconds[(other, user)]
        }),
{
}

/// An admitted call records the command's global firing under this command
/// alone.
pub proof fn lemma_global_cooldown_is_per_command(
    s: CooldownState,
    trigger: Seq<char>,
    user: Seq<char>,
    now: u64,
    user_cooldown: ChatCooldown,
    global_cooldown: ChatCooldown,
)
    requires
        s.counter < u64::MAX,
    ensures
        ({
            let (next, r) = check_update(s, trigger, user, now, user_cooldown, global_cooldown);
            r is None ==> match global_cooldown {
                ChatCooldown::MESSAGES(_) => next.global_message == s.global_message.insert(
                    trigger,
                    (s.counter + 1) as u64,
                ) && next.global_seconds == s.global_seconds,
                ChatCooldown::SECONDS(_) => next.global_seconds == s.global_seconds.insert(
                    trigger,
                    now,
                ) && next.global_message == s.global_message,
            }
        }),
{
}

/// Cooldowns of zero messages never refuse a call.
pub proof fn lemma_zero_message_cooldowns_admit(
    s: CooldownState,
    trigger: Seq<char>,
    user: Seq<char>,
    now: u64,
)
    requires
        valid_state(s),
        s.counter < u64::MAX,
    ensures
        check_update(
            s,
            trigger,
            user,
            now,
            ChatCooldown::MESSAGES(0),
            ChatCooldown::MESSAGES(0),
        ).1 is None,
{
}

/// A refused call, by either cooldown, records nothing but the message count.
pub proof fn lemma_refusal_records_nothing(
    s: CooldownState,
    trigger: Seq<char>,
    user: Seq<char>,
    now: u64,
    user_cooldown: ChatCooldown,
    global_cooldown: ChatCooldown,
)
    requires
        s.counter < u64::MAX,
        check_update(s, trigger, user, now, user_cooldown, global_cooldown).1 is Some,
    ensures
        check_update(s, trigger, user, now, user_cooldown, global_cooldown).0 == (CooldownState {
            counter: (s.counter + 1) as u64,
            ..s
        }),
{
}

/// Once a command fired, a global cooldown of at least one message refuses the
/// very next call of it, whoever makes it.
pub proof fn lemma_global_message_cooldown_refuses_next(
    s: CooldownState,
    trigger: Seq<char>,
    user: Seq<char>,
    now: u64,
    user_cooldown: ChatCooldown,
    amount: u16,
    next_user: Seq<char>,
    next_now: u64,
    next_user_cooldown: ChatCooldown,
)
    requires
        s.counter + 1 < u64::MAX,
        amount >= 1,
        check_update(s, trigger, user, now, user_cooldown, ChatCooldown::MESSAGES(amount)).1 is None,
    ensures
        check_update(
            check_update(s, trigger, user, now, user_cooldown, ChatCooldown::MESSAGES(amount)).0,
            trigger,
            next_user,
            next_now,
            next_user_cooldown,
            ChatCooldown::MESSAGES(amount),
        ).1 == Some(RejectionReason::GlobalCooldown),
{
}

/// Once a command fired for a user, a user cooldown of at least one message
/// refuses that user's very next call of it.
pub proof fn lemma_user_message_cooldown_refuses_next(
    s: CooldownState,
    trigger: Seq<char>,
    user: Seq<char>,
    now: u64,
    amount: u16,
    global_cooldown: ChatCooldown,
    next_now: u64,
    next_global_cooldown: ChatCooldown,
)
    requires
        s.counter + 1 < u64::MAX,
        amount >= 1,
        check_update(s, trigger, user, now, ChatCooldown::MESSAGES(amount), global_cooldown).1 is None,
    ensures
        check_update(
            check_update(s, trigger, user, now, ChatCooldown::MESSAGES(amount), global_cooldown).0,
            trigger,
            user,
            next_now,
            ChatCooldown::MESSAGES(amount),
            next_global_cooldown,
        ).1 is Some,
{
}

/// Once a command fired, a global cooldown counted in seconds refuses every
/// later call of it whose clock reading is not earlier than the recorded one:
/// the time left is measured from the new reading to the recorded one.
pub proof fn lemma_global_seconds_cooldown_refuses_later(
    s: CooldownState,
    trigger: Seq<char>,
    user: Seq<char>,
    now: u64,
    user_cooldown: ChatCooldown,
    seconds: u16,
    next_user: Seq<char>,
    next_now: u64,
    next_user_cooldown: ChatCooldown,
    next_seconds: u16,
)
    requires
        s.counter + 1 < u64::MAX,
        next_now >= now,
        check_update(s, trigger, user, now, user_cooldown, ChatCooldown::SECONDS(seconds)).1 is None,
    ensures
        check_update(
            check_update(s, trigger, user, now, user_cooldown, ChatCooldown::SECONDS(seconds)).0,
            trigger,
            next_user,
            next_now,
            next_user_cooldown,
            ChatCooldown::SECONDS(next_seconds),
        ).1 == Some(RejectionReason::GlobalCooldown),
{
}

/// Whole seconds from `now` until `last`; zero when `last` is not later.
fn seconds_until(last: u64, now: u64) -> (r: u64)
    ensures
        r == seconds_between(last, now),
{
    if last > now {
        (last - now) / NANOS_PER_SECOND
    } else {
        0
    }
}

/// Remembers when each command last fired, globally and per user.
pub struct CooldownService {
    global_message_counter: u64,
    global_message: Table<TriggerKey>,
    global_seconds: Table<TriggerKey>,
    user_message: Table<UserKey>,
    user_seconds: Table<UserKey>,
}

impl View for CooldownService {
    type V = CooldownState;

    closed spec fn view(&self) -> CooldownState {
        CooldownState {
            counter: self.global_message_counter,
            global_message: self.global_message.contents(),
            global_seconds: self.global_seconds.contents(),
            user_message: self.user_message.contents(),
            user_seconds: self.user_seconds.contents(),
        }
    }
}

impl CooldownService {
    /// The tables hold no key twice, and the state is valid.
    pub closed spec fn wf(&self) -> bool {
        &&& self.global_message.wf()
        &&& self.global_seconds.wf()
        &&& self.user_message.wf()
        &&& self.user_seconds.wf()
        &&& valid_state(self@)
    }

    /// A service that has seen no message.
    pub fn new() -> (s: CooldownService)
        ensures
            s.wf(),
            s@.counter == 0,
            s@.global_message == Map::<Seq<char>, u64>::empty(),
            s@.global_seconds == Map::<Seq<char>, u64>::empty(),
            s@.user_message == Map::<(Seq<char>, Seq<char>), u64>::empty(),
            s@.user_seconds == Map::<(Seq<char>, Seq<char>), u64>::empty(),
    {
        CooldownService {
            global_message_counter: 0,
            global_message: Table::new(),
            global_seconds: Table::new(),
            user_message: Table::new(),
            user_seconds: Table::new(),
        }
    }

    /// How many messages the service has counted so far.
    pub fn messages_seen(&self) -> (n: u64)
        ensures
            n == self@.counter,
    {
        self.global_message_counter
    }

    /// Checks and updates the cooldowns of one call of `trigger_id` by the
    /// author of `chat_message` in one step. Call it once per message: the same
    /// message checked twice counts as two messages.
    pub fn check_update_cooldown(
        &mut self,
        chat_message: &ChatMessage,
        trigger_id: &str,
        user_cooldown: &ChatCooldown,
        global_cooldown: &ChatCooldown,
    ) -> (r: Option<RejectionReason>)
        requires
            old(self).wf(),
            old(self)@.counter < u64::MAX,
        ensures
            final(self).wf(),
            (final(self)@, r) == check_update(
                old(self)@,
                trigger_id@,
                chat_message.user.id@,
                chat_message.received_at,
                *user_cooldown,
                *global_cooldown,
            ),
    {
        let ghost s0 = self@;
        let now = chat_message.received_at;
        let sequential_message_id = self.global_message_counter + 1;
        self.global_message_counter = sequential_message_id;
        let ghost s1 = self@;
        assert(s1 == CooldownState { counter: sequential_message_id, ..s0 });
        let trigger = String::from_str(trigger_id);
        let global_key = TriggerKey { trigger_id: trigger.clone() };
        let global_refuses = match global_cooldown {
            ChatCooldown::MESSAGES(amount) => match self.global_message.get(&global_key) {
                Some(l) => sequential_message_id - l <= *amount as u64,
                None => false,
            },
            ChatCooldown::SECONDS(seconds) => match self.global_seconds.get(&global_key) {
                Some(l) => seconds_until(l, now) <= *seconds as u64,
                None => false,
            },
        };
        if global_refuses {
            return Some(RejectionReason::GlobalCooldown);
        }
        let user_key = UserKey { trigger_id: trigger, user_id: chat_message.user.id.clone() };
        let user_refuses = match user_cooldown {
            ChatCooldown::MESSAGES(amount) => match self.user_message.get(&user_key) {
                Some(l) => sequential_message_id - l <= *amount as u64,
                None => false,
            },
            ChatCooldown::SECONDS(seconds) => match self.user_seconds.get(&user_key) {
                Some(l) => seconds_until(l, now) <= *seconds as u64,
                None => false,
            },
        };
        if user_refuses {
            return Some(RejectionReason::UserCooldown);
        }
        match global_cooldown {
            ChatCooldown::MESSAGES(_) => self.global_message.insert(global_key, sequential_message_id),
            ChatCooldown::SECONDS(_) => self.global_seconds.insert(global_key, now),
        }
        let ghost s2 = self@;
        assert(s2 == record_global(s1, trigger_id@, sequential_message_id, now, *global_cooldown));
        match user_cooldown {
            ChatCooldown::MESSAGES(_) => self.user_message.insert(user_key, sequential_message_id),
            ChatCooldown::SECONDS(_) => self.user_seconds.insert(user_key, now),
        }
        None
    }
}

impl Default for CooldownService {
    /// A service that has seen no message.
    fn default() -> (s: CooldownService)
        ensures
            s.wf(),
            s@.counter == 0,
            s@.global_message == Map::<Seq<char>, u64>::empty(),
            s@.global_seconds == Map::<Seq<char>, u64>::empty(),
            s@.user_message == Map::<(Seq<char>, Seq<char>), u64>::empty(),
            s@.user_seconds == Map::<(Seq<char>, Seq<char>), u64>::empty(),
    {
        CooldownService::new()
    }
}

} // verus!
