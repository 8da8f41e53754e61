use talium::chat::{ChatMessage, TwitchUser, TwitchUserPermission};
use talium::cooldown::{ChatCooldown, CooldownService, RejectionReason, NANOS_PER_SECOND};

fn message(user: &str, at: u64) -> ChatMessage {
    ChatMessage {
        message_id: format!("m-{}-{}", user, at),
        message: "!hello".to_string(),
        user: TwitchUser {
            id: user.to_string(),
            name: user.to_string(),
            permission: TwitchUserPermission::Everyone,
            subscriber_months: 0,
            subscription_tier: 0,
        },
        get_custom_reward_id: None,
        reply_to_message_id: None,
        channel_id: "channel".to_string(),
        received_at: at,
    }
}

#[test]
fn zero_message_cooldowns_never_refuse() {
    let mut s = CooldownService::new();
    for i in 0..5u64 {
        let r = s.check_update_cooldown(
            &message("alice", i),
            "hello",
            &ChatCooldown::MESSAGES(0),
            &ChatCooldown::MESSAGES(0),
        );
        assert_eq!(r, None);
    }
}

#[test]
fn global_message_cooldown_refuses_next_call_of_anyone() {
    let mut s = CooldownService::new();
    let first = s.check_update_cooldown(
        &message("alice", 0),
        "hello",
        &ChatCooldown::MESSAGES(0),
        &ChatCooldown::MESSAGES(2),
    );
    assert_eq!(first, None);
    let second = s.check_update_cooldown(
        &message("bob", 0),
        "hello",
        &ChatCooldown::MESSAGES(0),
        &ChatCooldown::MESSAGES(2),
    );
    assert_eq!(second, Some(RejectionReason::GlobalCooldown));
}

#[test]
fn global_message_cooldown_expires_after_enough_messages() {
    let mut s = CooldownService::new();
    let cd = ChatCooldown::MESSAGES(2);
    let zero = ChatCooldown::MESSAGES(0);
    // message 1 fires, messages 2 and 3 are within 2 messages, message 4 is not
    assert_eq!(s.check_update_cooldown(&message("a", 0), "t", &zero, &cd), None);
    assert_eq!(s.check_update_cooldown(&message("a", 0), "t", &zero, &cd), Some(RejectionReason::GlobalCooldown));
    assert_eq!(s.check_update_cooldown(&message("a", 0), "t", &zero, &cd), Some(RejectionReason::GlobalCooldown));
    assert_eq!(s.check_update_cooldown(&message("a", 0), "t", &zero, &cd), None);
}

#[test]
fn other_commands_count_towards_message_cooldowns() {
    let mut s = CooldownService::new();
    let cd = ChatCooldown::MESSAGES(1);
    let zero = ChatCooldown::MESSAGES(0);
    assert_eq!(s.check_update_cooldown(&message("a", 0), "t", &zero, &cd), None);
    assert_eq!(s.check_update_cooldown(&message("a", 0), "other", &zero, &cd), None);
    assert_eq!(s.check_update_cooldown(&message("a", 0), "t", &zero, &cd), None);
}

#[test]
fn user_message_cooldown_is_per_user() {
    let mut s = CooldownService::new();
    let cd = ChatCooldown::MESSAGES(5);
    let zero = ChatCooldown::MESSAGES(0);
    assert_eq!(s.check_update_cooldown(&message("alice", 0), "t", &cd, &zero), None);
    assert_eq!(s.check_update_cooldown(&message("bob", 0), "t", &cd, &zero), None);
    assert_eq!(
        s.check_update_cooldown(&message("alice", 0), "t", &cd, &zero),
        Some(RejectionReason::UserCooldown)
    );
}

#[test]
fn global_refusal_does_not_record_the_user() {
    let mut s = CooldownService::new();
    let user_cd = ChatCooldown::MESSAGES(10);
    let global_cd = ChatCooldown::MESSAGES(1);
    assert_eq!(s.check_update_cooldown(&message("alice", 0), "t", &ChatCooldown::MESSAGES(0), &global_cd), None);
    // bob is refused globally; his user cooldown is not recorded
    assert_eq!(s.check_update_cooldown(&message("bob", 0), "t", &user_cd, &global_cd), Some(RejectionReason::GlobalCooldown));
    // after the global cooldown passed, bob fires
    assert_eq!(s.check_update_cooldown(&message("bob", 0), "t", &user_cd, &global_cd), None);
}

#[test]
fn seconds_cooldown_refuses_later_readings() {
    let mut s = CooldownService::new();
    let zero = ChatCooldown::MESSAGES(0);
    let cd = ChatCooldown::SECONDS(3);
    assert_eq!(s.check_update_cooldown(&message("a", 10 * NANOS_PER_SECOND), "t", &zero, &cd), None);
    // the time left is measured from the new reading to the recorded one
    assert_eq!(
        s.check_update_cooldown(&message("a", 100 * NANOS_PER_SECOND), "t", &zero, &cd),
        Some(RejectionReason::GlobalCooldown)
    );
}

#[test]
fn seconds_cooldown_admits_readings_far_before_the_recorded_one() {
    let mut s = CooldownService::new();
    let zero = ChatCooldown::MESSAGES(0);
    let cd = ChatCooldown::SECONDS(3);
    assert_eq!(s.check_update_cooldown(&message("a", 10 * NANOS_PER_SECOND), "t", &zero, &cd), None);
    // 4 whole seconds from the new reading to the recorded one: more than 3
    assert_eq!(s.check_update_cooldown(&message("a", 6 * NANOS_PER_SECOND - 1), "t", &zero, &cd), None);
    assert_eq!(
        s.check_update_cooldown(&message("a", 4 * NANOS_PER_SECOND), "t", &zero, &cd),
        Some(RejectionReason::GlobalCooldown)
    );
}

#[test]
fn user_seconds_cooldown_refuses_same_user() {
    let mut s = CooldownService::new();
    let zero = ChatCooldown::MESSAGES(0);
    let cd = ChatCooldown::SECONDS(1);
    assert_eq!(s.check_update_cooldown(&message("a", 0), "t", &cd, &zero), None);
    assert_eq!(s.check_update_cooldown(&message("b", 0), "t", &cd, &zero), None);
    assert_eq!(s.check_update_cooldown(&message("a", 5), "t", &cd, &zero), Some(RejectionReason::UserCooldown));
}

#[test]
fn default_service_has_seen_no_message() {
    let s = CooldownService::default();
    assert_eq!(s.messages_seen(), 0);
    let mut s = CooldownService::new();
    let m = message("u", 0);
    let _ = s.check_update_cooldown(&m, "cmd", &ChatCooldown::MESSAGES(0), &ChatCooldown::MESSAGES(0));
    assert_eq!(s.messages_seen(), 1);
}

#[test]
fn user_refusal_does_not_consume_the_global_cooldown() {
    let mut s = CooldownService::new();
    let user_cd = ChatCooldown::MESSAGES(10);
    let global_cd = ChatCooldown::MESSAGES(1);
    assert_eq!(s.check_update_cooldown(&message("alice", 0), "t", &user_cd, &global_cd), None);
    assert_eq!(s.check_update_cooldown(&message("bob", 0), "t", &user_cd, &global_cd), Some(RejectionReason::GlobalCooldown));
    // alice passes the global cooldown but is refused by her own; nothing is recorded
    assert_eq!(s.check_update_cooldown(&message("alice", 0), "t", &user_cd, &global_cd), Some(RejectionReason::UserCooldown));
    // so bob is not held back by the call that never ran
    assert_eq!(s.check_update_cooldown(&message("bob", 0), "t", &user_cd, &global_cd), None);
}
