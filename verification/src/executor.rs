//! The registered command triggers, and which of them a chat message sets off.
use crate::chat::{permission_rank, ChatMessage, TwitchUserPermission};
use crate::commands::{cooldown_of, make_cooldown, CooldownType};
use crate::cooldown::{
    check_update, valid_state, ChatCooldown, CooldownService, CooldownState, RejectionReason,
};
use crate::compiled::{regex_is_match, CompiledPattern};
use crate::patterns::CommandWithRegex;
use crate::text::str_eq;
use vstd::prelude::*;

verus! {

/// What a trigger does when it fires.
#[derive(Clone, Copy, Debug, PartialEq, Eq, Structural)]
pub enum TriggerAction {
    /// Sends the command's template to the chat.
    TextCommand,
}

/// A registered trigger of a command.
pub struct CommandTrigger {
    pub id: String,
    pub patterns: Vec<CompiledPattern>,
    pub permission: TwitchUserPermission,
    pub user_cooldown: ChatCooldown,
    pub global_cooldown: ChatCooldown,
    pub callback: TriggerAction,
}

/// A trigger as the contracts see it.
pub struct TriggerView {
    pub id: Seq<char>,
    pub patterns: Seq<(Seq<char>, bool)>,
    pub permission: TwitchUserPermission,
    pub user_cooldown: ChatCooldown,
    pub global_cooldown: ChatCooldown,
    pub callback: TriggerAction,
}

impl View for CommandTrigger {
    type V = TriggerView;

    open spec fn view(&self) -> TriggerView {
        TriggerView {
            id: self.id@,
            patterns: self.patterns@.map_values(|p: CompiledPattern| p@),
            permission: self.permission,
            user_cooldown: self.user_cooldown,
            global_cooldown: self.global_cooldown,
            callback: self.callback,
        }
    }
}

/// The trigger that a compiled command registers.
pub open spec fn trigger_of(command: CommandWithRegex) -> TriggerView {
    TriggerView {
        id: command.id@,
        patterns: command.patterns@.map_values(|p: CompiledPattern| p@),
        permission: command.permission,
        user_cooldown: cooldown_of(command.user_cooldown_type, command.user_cooldown_amount),
        global_cooldown: cooldown_of(command.global_cooldown_type, command.global_cooldown_amount),
        callback: TriggerAction::TextCommand,
    }
}

/// The triggers without those of the command `id`.
pub open spec fn without_id(triggers: Seq<TriggerView>, id: Seq<char>) -> Seq<TriggerView> {
    triggers.filter(|t: TriggerView| t.id != id)
}

/// Whether one of the patterns matches the message text.
pub open spec fn any_pattern_matches(patterns: Seq<(Seq<char>, bool)>, text: Seq<char>) -> bool {
    exists|i: int| 0 <= i < patterns.len() && regex_is_match(patterns[i].0, patterns[i].1, text)
}

/// What happened to one trigger for one message.
#[derive(Clone, Copy, Debug, PartialEq, Eq, Structural)]
pub enum TriggerDecision {
    /// The author's level is below the trigger's.
    MissingPermission,
    /// No pattern of the trigger matches the message.
    NoMatch,
    /// A cooldown refused the call.
    Cooldown(RejectionReason),
    /// The trigger fires.
    Execute,
}

/// The decision for one trigger and the cooldown state after it: permission
/// first, then the patterns, then the cooldowns (checked only for a match).
pub open spec fn decide(
    cooldowns: CooldownState,
    trigger: TriggerView,
    user: Seq<char>,
    level: TwitchUserPermission,
    text: Seq<char>,
    now: u64,
) -> (CooldownState, TriggerDecision) {
    if permission_rank(level) < permission_rank(trigger.permission) {
        (cooldowns, TriggerDecision::MissingPermission)
    } else if !any_pattern_matches(trigger.patterns, text) {
        (cooldowns, TriggerDecision::NoMatch)
    } else {
        let (next, rejection) = check_update(
            cooldowns,
            trigger.id,
            user,
            now,
            trigger.user_cooldown,
            trigger.global_cooldown,
        );
        match rejection {
            Some(reason) => (next, TriggerDecision::Cooldown(reason)),
            None => (next, TriggerDecision::Execute),
        }
    }
}

/// The triggers, in order, that a message sets off, and the cooldown state
/// after all of them were decided.
pub open spec fn decide_all(
    cooldowns: CooldownState,
    triggers: Seq<TriggerView>,
    user: Seq<char>,
    level: TwitchUserPermission,
    text: Seq<char>,
    now: u64,
) -> (CooldownState, Seq<Seq<char>>)
    decreases triggers.len(),
{
    if triggers.len() == 0 {
        (cooldowns, Seq::empty())
    } else {
        let (before, fired) = decide_all(cooldowns, triggers.drop_last(), user, level, text, now);
        let (after, decision) = decide(before, triggers.last(), user, level, text, now);
        if decision == TriggerDecision::Execute {
            (after, fired.push(triggers.last().id))
        } else {
            (after, fired)
        }
    }
}

/// After removing a command, none of its triggers is left.
pub proof fn lemma_removed_command_is_gone(triggers: Seq<TriggerView>, id: Seq<char>)
    ensures
        forall|i: int|
            0 <= i < without_id(triggers, id).len() ==> (#[trigger] without_id(triggers, id)[i]).id
                != id,
{
    let pred = |t: TriggerView| t.id != id;
    assert forall|i: int|
        0 <= i < without_id(triggers, id).len() implies (#[trigger] without_id(
        triggers,
        id,
    )[i]).id != id by {
        lemma_filter_all(triggers, pred);
    }
}

proof fn lemma_filter_all<A>(s: Seq<A>, pred: spec_fn(A) -> bool)
    ensures
        forall|i: int| 0 <= i < s.filter(pred).len() ==> pred(#[trigger] s.filter(pred)[i]),
    decreases s.len(),
{
    reveal(Seq::filter);
    if s.len() > 0 {
        lemma_filter_all(s.drop_last(), pred);
        crate::seqs::lemma_filter_push(s.drop_last(), pred, s.last());
        assert(s.drop_last().push(s.last()) =~= s);
    }
}

/// After an upsert, the command has exactly one trigger, and it is the last.
pub proof fn lemma_upsert_leaves_one_trigger(triggers: Seq<TriggerView>, command: CommandWithRegex)
    ensures
        ({
            let after = without_id(triggers, command.id@).push(trigger_of(command));
            &&& after.last() == trigger_of(command)
            &&& forall|i: int| 0 <= i < after.len() - 1 ==> (#[trigger] after[i]).id != command.id@
        }),
{
    lemma_removed_command_is_gone(triggers, command.id@);
    let rest = without_id(triggers, command.id@);
    let after = rest.push(trigger_of(command));
    assert forall|i: int| 0 <= i < after.len() - 1 implies (#[trigger] after[i]).id
        != command.id@ by {
        assert(after[i] == rest[i]);
    }
}

/// A trigger fires only when the cooldown check admits the call, and a call
/// that a cooldown refuses is reported as refused for that reason, whichever of
/// the two cooldowns it is.
pub proof fn lemma_fires_only_when_cooldowns_admit(
    cooldowns: CooldownState,
    trigger: TriggerView,
    user: Seq<char>,
    level: TwitchUserPermission,
    text: Seq<char>,
    now: u64,
)
    ensures
        decide(cooldowns, trigger, user, level, text, now).1 == TriggerDecision::Execute ==> check_update(
            cooldowns,
            trigger.id,
            user,
            now,
            trigger.user_cooldown,
            trigger.global_cooldown,
        ).1 is None,
        permission_rank(level) >= permission_rank(trigger.permission) && any_pattern_matches(
            trigger.patterns,
            text,
        ) ==> match check_update(
            cooldowns,
            trigger.id,
            user,
            now,
            trigger.user_cooldown,
            trigger.global_cooldown,
        ).1 {
            Some(reason) => decide(cooldowns, trigger, user, level, text, now).1
                == TriggerDecision::Cooldown(reason),
            None => decide(cooldowns, trigger, user, level, text, now).1
                == TriggerDecision::Execute,
        },
{
}

/// A trigger that the same user set off within its user cooldown in messages
/// does not fire, whatever else holds.
pub proof fn lemma_recent_user_firing_blocks(
    cooldowns: CooldownState,
    trigger: TriggerView,
    user: Seq<char>,
    level: TwitchUserPermission,
    text: Seq<char>,
    now: u64,
    amount: u16,
)
    requires
        valid_state(cooldowns),
        cooldowns.counter < u64::MAX,
        trigger.user_cooldown == ChatCooldown::MESSAGES(amount),
        cooldowns.user_message.contains_key((trigger.id, user)),
        cooldowns.counter + 1 - cooldowns.user_message[(trigger.id, user)] <= amount,
    ensures
        decide(cooldowns, trigger, user, level, text, now).1 != TriggerDecision::Execute,
{
}

/// A trigger that fired within its global cooldown in messages does not fire,
/// whoever calls it.
pub proof fn lemma_recent_global_firing_blocks(
    cooldowns: CooldownState,
    trigger: TriggerView,
    user: Seq<char>,
    level: TwitchUserPermission,
    text: Seq<char>,
    now: u64,
    amount: u16,
)
    requires
        valid_state(cooldowns),
        cooldowns.counter < u64::MAX,
        trigger.global_cooldown == ChatCooldown::MESSAGES(amount),
        cooldowns.global_message.contains_key(trigger.id),
        cooldowns.counter + 1 - cooldowns.global_message[trigger.id] <= amount,
    ensures
        decide(cooldowns, trigger, user, level, text, now).1 != TriggerDecision::Execute,
{
}

/// A message that no trigger both admits and matches sets nothing off and leaves
/// the cooldowns as they were: not even the message counter moves.
pub proof fn lemma_unmatched_message_changes_nothing(
    cooldowns: CooldownState,
    triggers: Seq<TriggerView>,
    user: Seq<char>,
    level: TwitchUserPermission,
    text: Seq<char>,
    now: u64,
)
    requires
        forall|i: int|
            0 <= i < triggers.len() ==> permission_rank(level) < permission_rank(
                #[trigger] triggers[i].permission,
            ) || !any_pattern_matches(triggers[i].patterns, text),
    ensures
        decide_all(cooldowns, triggers, user, level, text, now) == (
            cooldowns,
            Seq::<Seq<char>>::empty(),
        ),
    decreases triggers.len(),
{
    if triggers.len() > 0 {
        let init = triggers.drop_last();
        assert forall|i: int| 0 <= i < init.len() implies permission_rank(level) < permission_rank(
            #[trigger] init[i].permission,
        ) || !any_pattern_matches(init[i].patterns, text) by {
            assert(init[i] == triggers[i]);
        }
        lemma_unmatched_message_changes_nothing(cooldowns, init, user, level, text, now);
        assert(triggers.last() == triggers[triggers.len() - 1]);
    }
}

/// Every trigger that a message sets off belongs to a command whose level the
/// author reaches and one of whose patterns matches the message.
pub proof fn lemma_fired_triggers_are_permitted_matches(
    cooldowns: CooldownState,
    triggers: Seq<TriggerView>,
    user: Seq<char>,
    level: TwitchUserPermission,
    text: Seq<char>,
    now: u64,
)
    ensures
        forall|k: int|
            0 <= k < decide_all(cooldowns, triggers, user, level, text, now).1.len() ==> exists|
                i: int,
            |
                0 <= i < triggers.len() && triggers[i].id == #[trigger] decide_all(
                    cooldowns,
                    triggers,
                    user,
                    level,
                    text,
                    now,
                ).1[k] && permission_rank(level) >= permission_rank(triggers[i].permission)
                    && any_pattern_matches(triggers[i].patterns, text),
    decreases triggers.len(),
{
    if triggers.len() > 0 {
        let init = triggers.drop_last();
        lemma_fired_triggers_are_permitted_matches(cooldowns, init, user, level, text, now);
        let (before, fired) = decide_all(cooldowns, init, user, level, text, now);
        let all = decide_all(cooldowns, triggers, user, level, text, now).1;
        assert forall|k: int| 0 <= k < all.len() implies exists|i: int|
            0 <= i < triggers.len() && triggers[i].id == #[trigger] all[k] && permission_rank(level)
                >= permission_rank(triggers[i].permission) && any_pattern_matches(
                triggers[i].patterns,
                text,
            ) by {
            if k < fired.len() {
                assert(all[k] == fired[k]);
                let i = choose|i: int|
                    0 <= i < init.len() && init[i].id == #[trigger] fired[k] && permission_rank(
                        level,
                    ) >= permission_rank(init[i].permission) && any_pattern_matches(
                        init[i].patterns,
                        text,
                    );
                assert(triggers[i] == init[i]);
            } else {
                let last = triggers.len() - 1;
                assert(triggers[last] == triggers.last());
            }
        }
    }
}

/// The registered triggers and the cooldowns they share.
pub struct CommandExecutorService {
    triggers: Vec<CommandTrigger>,
    cooldown_service: CooldownService,
}

impl View for CommandExecutorService {
    type V = Seq<TriggerView>;

    closed spec fn view(&self) -> Seq<TriggerView> {
        self.triggers@.map_values(|t: CommandTrigger| t@)
    }
}

impl CommandExecutorService {
    /// The cooldown state shared by the triggers.
    pub closed spec fn cooldowns(&self) -> CooldownState {
        self.cooldown_service@
    }

    /// The cooldown tables are well formed.
    pub closed spec fn wf(&self) -> bool {
        self.cooldown_service.wf()
    }

    /// No triggers, and cooldowns that have seen no message.
    pub fn new() -> (s: CommandExecutorService)
        ensures
            s.wf(),
            s@ == Seq::<TriggerView>::empty(),
            s.cooldowns().counter == 0,
            s.cooldowns().global_message == Map::<Seq<char>, u64>::empty(),
            s.cooldowns().global_seconds == Map::<Seq<char>, u64>::empty(),
            s.cooldowns().user_message == Map::<(Seq<char>, Seq<char>), u64>::empty(),
            s.cooldowns().user_seconds == Map::<(Seq<char>, Seq<char>), u64>::empty(),
    {
        let s = CommandExecutorService { triggers: Vec::new(), cooldown_service: CooldownService::new() };
        assert(s@ =~= Seq::<TriggerView>::empty());
        s
    }

    /// Removes every trigger of the command `command_id`.
    pub fn remove_command(&mut self, command_id: &str)
        requires
            old(self).wf(),
        ensures
            final(self).wf(),
            final(self)@ == without_id(old(self)@, command_id@),
            final(self).cooldowns() == old(self).cooldowns(),
    {
        let ghost pred = |t: TriggerView| t.id != command_id@;
        let mut kept: Vec<CommandTrigger> = Vec::new();
        let mut remaining: Vec<CommandTrigger> = Vec::new();
        std::mem::swap(&mut remaining, &mut self.triggers);
        let ghost all = remaining@.map_values(|t: CommandTrigger| t@);
        assert(all == old(self)@);
        let mut i: usize = 0;
        let n = remaining.len();
        while i < n
            invariant
                pred == (|t: TriggerView| t.id != command_id@),
                n == all.len(),
                i <= n,
                remaining@.len() == n - i,
                forall|j: int| 0 <= j < n - i ==> (#[trigger] remaining@[j])@ == all[i + j],
                kept@.map_values(|t: CommandTrigger| t@) == all.take(i as int).filter(pred),
            decreases n - i,
        {
            let t = remaining.remove(0);
            let ghost before = kept@.map_values(|t: CommandTrigger| t@);
            proof {
                assert(all.take(i + 1) == all.take(i as int).push(all[i as int]));
                crate::seqs::lemma_filter_push(all.take(i as int), pred, all[i as int]);
                assert(t@ == all[i as int]);
                assert forall|j: int| 0 <= j < n - i - 1 implies (#[trigger] remaining@[j])@
                    == all[i + 1 + j] by {
                }
            }
            if !str_eq(t.id.as_str(), command_id) {
                kept.push(t);
                assert(kept@.map_values(|t: CommandTrigger| t@) =~= before.push(all[i as int]));
            }
            i = i + 1;
        }
        assert(all.take(n as int) =~= all);
        self.triggers = kept;
    }

    /// Registers the trigger of `command`, replacing the command's earlier
    /// triggers; it goes last.
    pub fn upsert_command(&mut self, command: CommandWithRegex)
        requires
            old(self).wf(),
        ensures
            final(self).wf(),
            final(self)@ == without_id(old(self)@, command.id@).push(trigger_of(command)),
            final(self).cooldowns() == old(self).cooldowns(),
            final(self)@.last().id == command.id@,
            final(self)@.last().permission == command.permission,
            final(self)@.last().global_cooldown == (match command.global_cooldown_type {
                CooldownType::SECONDS => ChatCooldown::SECONDS(command.global_cooldown_amount),
                CooldownType::MESSAGES => ChatCooldown::MESSAGES(command.global_cooldown_amount),
            }),
            final(self)@.last().user_cooldown == (match command.user_cooldown_type {
                CooldownType::SECONDS => ChatCooldown::SECONDS(command.user_cooldown_amount),
                CooldownType::MESSAGES => ChatCooldown::MESSAGES(command.user_cooldown_amount),
            }),
    {
        let ghost spec_trigger = trigger_of(command);
        self.remove_command(command.id.as_str());
        let global_cooldown = make_cooldown(command.global_cooldown_type, command.global_cooldown_amount);
        let user_cooldown = make_cooldown(command.user_cooldown_type, command.user_cooldown_amount);
        let trigger = CommandTrigger {
            id: command.id,
            global_cooldown,
            user_cooldown,
            permission: command.permission,
            patterns: command.patterns,
            callback: TriggerAction::TextCommand,
        };
        assert(trigger@ == spec_trigger);
        let ghost before = self@;
        self.triggers.push(trigger);
        assert(self@ =~= before.push(spec_trigger));
    }

    /// Decides one trigger for `chat_message`, updating the cooldowns when its
    /// patterns match.
    fn execute_trigger_if_matching(
        cooldown_service: &mut CooldownService,
        trigger: &CommandTrigger,
        chat_message: &ChatMessage,
    ) -> (d: TriggerDecision)
        requires
            old(cooldown_service).wf(),
            old(cooldown_service)@.counter < u64::MAX,
        ensures
            final(cooldown_service).wf(),
            (final(cooldown_service)@, d) == decide(
                old(cooldown_service)@,
                trigger@,
                chat_message.user.id@,
                chat_message.user.permission,
                chat_message.message@,
                chat_message.received_at,
            ),
    {
        if !chat_message.user.permission.at_least(&trigger.permission) {
            return TriggerDecision::MissingPermission;
        }
        let mut matched = false;
        let mut i: usize = 0;
        while i < trigger.patterns.len()
            invariant
                i <= trigger.patterns@.len(),
                matched == exists|j: int|
                    0 <= j < i && regex_is_match(
                        trigger@.patterns[j].0,
                        trigger@.patterns[j].1,
                        chat_message.message@,
                    ),
            decreases trigger.patterns@.len() - i,
        {
            assert(trigger@.patterns[i as int] == trigger.patterns@[i as int]@);
            if trigger.patterns[i].is_match(chat_message.message.as_str()) {
                matched = true;
            }
            i = i + 1;
        }
        if !matched {
            return TriggerDecision::NoMatch;
        }
        match cooldown_service.check_update_cooldown(
            chat_message,
            trigger.id.as_str(),
            &trigger.user_cooldown,
            &trigger.global_cooldown,
        ) {
            Some(reason) => TriggerDecision::Cooldown(reason),
            None => TriggerDecision::Execute,
        }
    }

    /// Whether the message counter has room for one more message checked
    /// against every trigger.
    pub fn can_process_message(&self) -> (b: bool)
        ensures
            b == (self.cooldowns().counter + self@.len() < u64::MAX),
    {
        let seen = self.cooldown_service.messages_seen();
        let n = self.triggers.len();
        proof {
            assert(self@.len() == self.triggers@.len());
        }
        if n as u128 + seen as u128 >= u64::MAX as u128 {
            false
        } else {
            true
        }
    }

    /// Decides every trigger, in order, for `chat_message`, and gives the ids of
    /// those that fire, in order.
    pub fn process_chat_message(&mut self, chat_message: &ChatMessage) -> (fired: Vec<String>)
        requires
            old(self).wf(),
            old(self).cooldowns().counter + old(self)@.len() < u64::MAX,
        ensures
            final(self).wf(),
            final(self)@ == old(self)@,
            (final(self).cooldowns(), fired@.map_values(|s: String| s@)) == decide_all(
                old(self).cooldowns(),
                old(self)@,
                chat_message.user.id@,
                chat_message.user.permission,
                chat_message.message@,
                chat_message.received_at,
            ),
    {
        let mut fired: Vec<String> = Vec::new();
        let mut i: usize = 0;
        let ghost start = self.cooldown_service@;
        while i < self.triggers.len()
            invariant
                self.triggers == old(self).triggers,
                self.cooldown_service.wf(),
                start == old(self).cooldowns(),
                i <= self@.len(),
                self.cooldown_service@.counter <= start.counter + i,
                start.counter + self@.len() < u64::MAX,
                (self.cooldown_service@, fired@.map_values(|s: String| s@)) == decide_all(
                    start,
                    self@.take(i as int),
                    chat_message.user.id@,
                    chat_message.user.permission,
                    chat_message.message@,
                    chat_message.received_at,
                ),
            decreases self@.len() - i,
        {
            let ghost before = fired@.map_values(|s: String| s@);
            let decision = Self::execute_trigger_if_matching(
                &mut self.cooldown_service,
                &self.triggers[i],
                chat_message,
            );
            proof {
                assert(self@.take(i + 1).drop_last() =~= self@.take(i as int));
                assert(self@.take(i + 1).last() == self.triggers@[i as int]@);
                lemma_decide_counter(
                    self.cooldown_service@,
                    self.triggers@[i as int]@,
                    chat_message.user.id@,
                    chat_message.user.permission,
                    chat_message.message@,
                    chat_message.received_at,
                );
            }
            if decision == TriggerDecision::Execute {
                fired.push(self.triggers[i].id.clone());
                assert(fired@.map_values(|s: String| s@) =~= before.push(self.triggers@[i as int].id@));
            }
            i = i + 1;
        }
        assert(self@.take(self@.len() as int) =~= self@);
        fired
    }
}

proof fn lemma_decide_counter(
    cooldowns: CooldownState,
    trigger: TriggerView,
    user: Seq<char>,
    level: TwitchUserPermission,
    text: Seq<char>,
    now: u64,
)
    requires
        cooldowns.counter < u64::MAX,
    ensures
        decide(cooldowns, trigger, user, level, text, now).0.counter <= cooldowns.counter + 1,
        decide(cooldowns, trigger, user, level, text, now).0.counter >= cooldowns.counter,
{
}



} // verus!
