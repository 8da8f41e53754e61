use talium::chat::{chat_message_from_event, ChatMessage, TwitchUser, TwitchUserPermission};
use talium::commands::{
    command_from_row, make_cooldown, parse_bool, search_text, Command, CommandRowError, CommandTable, CooldownType,
    MessagePattern, SearchQuery, StringTemplate,
};
use talium::cooldown::ChatCooldown;
use talium::executor::{CommandExecutorService, TriggerAction};
use talium::patterns::{compile_pattern, convert_patterns, CommandWithRegex};

fn pattern(p: &str, is_regex: bool, is_enabled: bool) -> MessagePattern {
    MessagePattern { pattern: p.to_string(), is_regex, is_visible: true, is_enabled }
}

fn command(id: &str, patterns: Vec<MessagePattern>, permission: TwitchUserPermission, global: u16) -> Command {
    Command {
        id: id.to_string(),
        description: "d".to_string(),
        patterns,
        permission,
        is_auto_generated: false,
        global_cooldown_amount: global,
        global_cooldown_type: CooldownType::MESSAGES,
        user_cooldown_amount: 0,
        user_cooldown_type: CooldownType::MESSAGES,
        template: Some(StringTemplate { id: id.to_string(), template: "hi".to_string(), message_color: None }),
    }
}

fn message(text: &str, permission: TwitchUserPermission) -> ChatMessage {
    ChatMessage {
        message_id: "id".to_string(),
        message: text.to_string(),
        user: TwitchUser { id: "u".to_string(), name: "u".to_string(), permission, subscriber_months: 0, subscription_tier: 0 },
        get_custom_reward_id: None,
        reply_to_message_id: None,
        channel_id: "c".to_string(),
        received_at: 0,
    }
}

fn row(permission: u8, global_type: u8, user_type: u8) -> CommandTable {
    CommandTable {
        id: "hello".to_string(),
        description: "greets".to_string(),
        permission,
        global_cooldown_amount: 3,
        global_cooldown_type: global_type,
        user_cooldown_amount: 4,
        user_cooldown_type: user_type,
        is_auto_generated: true,
        template_id: Some("tpl".to_string()),
        template: None,
        message_color: Some("red".to_string()),
    }
}

#[test]
fn permission_numbers_round_trip() {
    for n in 0..=10u8 {
        assert_eq!(TwitchUserPermission::from_u8(n).unwrap().rank(), n);
    }
    assert_eq!(TwitchUserPermission::from_u8(11), None);
    assert_eq!(TwitchUserPermission::from_u8(7), Some(TwitchUserPermission::Moderator));
    assert!(TwitchUserPermission::Vip.at_least(&TwitchUserPermission::Subscriber));
    assert!(!TwitchUserPermission::Subscriber.at_least(&TwitchUserPermission::Vip));
    assert_eq!(CooldownType::from_u8(0), Some(CooldownType::SECONDS));
    assert_eq!(CooldownType::from_u8(1), Some(CooldownType::MESSAGES));
    assert_eq!(CooldownType::from_u8(2), None);
    assert_eq!(CooldownType::MESSAGES.to_u8(), 1);
    assert_eq!(make_cooldown(CooldownType::SECONDS, 9), ChatCooldown::SECONDS(9));
}

#[test]
fn row_becomes_command() {
    let c = command_from_row(row(3, 0, 1), vec![pattern("!hi", false, true)]).ok().unwrap();
    assert_eq!(c.id, "hello");
    assert_eq!(c.permission, TwitchUserPermission::Subscriber);
    assert_eq!(c.global_cooldown_type, CooldownType::SECONDS);
    assert_eq!(c.user_cooldown_type, CooldownType::MESSAGES);
    assert_eq!(c.patterns.len(), 1);
    let t = c.template.unwrap();
    assert_eq!((t.id.as_str(), t.template.as_str()), ("tpl", ""));
    assert_eq!(t.message_color.as_deref(), Some("red"));
    let mut no_template = row(0, 0, 0);
    no_template.template_id = None;
    no_template.template = Some("ignored".to_string());
    assert!(command_from_row(no_template, vec![]).ok().unwrap().template.is_none());
}

#[test]
fn row_errors_come_in_order() {
    let e = command_from_row(row(11, 5, 5), vec![]).err().unwrap();
    assert_eq!(e, CommandRowError::InvalidPermission(11));
    assert_eq!(e.message(), "Invalid TwitchUserPermission enum variant form db");
    let e = command_from_row(row(1, 5, 5), vec![]).err().unwrap();
    assert_eq!(e, CommandRowError::InvalidGlobalCooldownType(5));
    assert_eq!(e.message(), "Invalid CooldownType enum variant form db");
    assert_eq!(command_from_row(row(1, 0, 2), vec![]).err().unwrap(), CommandRowError::InvalidUserCooldownType(2));
}

#[test]
fn search_text_treats_empty_as_none() {
    assert_eq!(search_text(&SearchQuery { search: None }), None);
    assert_eq!(search_text(&SearchQuery { search: Some(String::new()) }), None);
    assert_eq!(search_text(&SearchQuery { search: Some("x".to_string()) }), Some("x"));
}

#[test]
fn word_patterns_match_at_start_regardless_of_case() {
    let p = compile_pattern(&pattern("!hello", false, true)).ok().unwrap();
    assert!(p.is_match("!HELLO"));
    assert!(p.is_match("!hello there"));
    assert!(!p.is_match("!hellothere"));
    assert!(!p.is_match("say !hello"));
    let r = compile_pattern(&pattern("wo+w", true, true)).ok().unwrap();
    assert!(r.is_match("a woooow"));
    assert!(!r.is_match("WOW"));
}

#[test]
fn invalid_regex_is_reported() {
    let e = compile_pattern(&pattern("(", true, true)).err().unwrap();
    assert_eq!(e.pattern, "(");
    let e = convert_patterns(&[pattern("ok", false, true), pattern("[", true, true)]).err().unwrap();
    assert_eq!(e.pattern, "[");
}

#[test]
fn disabled_patterns_are_skipped() {
    let v = convert_patterns(&[pattern("(", true, false), pattern("!a", false, true)]).ok().unwrap();
    assert_eq!(v.len(), 1);
    assert!(v[0].is_match("!A"));
}

#[test]
fn executor_fires_matching_permitted_triggers_in_order() {
    let mut ex = CommandExecutorService::new();
    ex.upsert_command(CommandWithRegex::try_from(&command("a", vec![pattern("!go", false, true)], TwitchUserPermission::Everyone, 0)).ok().unwrap());
    ex.upsert_command(CommandWithRegex::try_from(&command("b", vec![pattern("go", true, true)], TwitchUserPermission::Everyone, 0)).ok().unwrap());
    ex.upsert_command(CommandWithRegex::try_from(&command("c", vec![pattern("!go", false, true)], TwitchUserPermission::Moderator, 0)).ok().unwrap());
    let fired = ex.process_chat_message(&message("!go now", TwitchUserPermission::Vip));
    assert_eq!(fired, vec!["a".to_string(), "b".to_string()]);
    let fired = ex.process_chat_message(&message("!go", TwitchUserPermission::Broadcaster));
    assert_eq!(fired, vec!["a".to_string(), "b".to_string(), "c".to_string()]);
    let fired = ex.process_chat_message(&message("nothing", TwitchUserPermission::System));
    assert!(fired.is_empty());
}

#[test]
fn executor_applies_cooldowns() {
    let mut ex = CommandExecutorService::new();
    ex.upsert_command(CommandWithRegex::try_from(&command("a", vec![pattern("!go", false, true)], TwitchUserPermission::Everyone, 1)).ok().unwrap());
    assert_eq!(ex.process_chat_message(&message("!go", TwitchUserPermission::Everyone)).len(), 1);
    assert_eq!(ex.process_chat_message(&message("!go", TwitchUserPermission::Everyone)).len(), 0);
    assert_eq!(ex.process_chat_message(&message("!go", TwitchUserPermission::Everyone)).len(), 1);
}

#[test]
fn upsert_replaces_and_remove_deletes() {
    let mut ex = CommandExecutorService::new();
    ex.upsert_command(CommandWithRegex::try_from(&command("a", vec![pattern("!one", false, true)], TwitchUserPermission::Everyone, 0)).ok().unwrap());
    ex.upsert_command(CommandWithRegex::try_from(&command("a", vec![pattern("!two", false, true)], TwitchUserPermission::Everyone, 0)).ok().unwrap());
    assert!(ex.process_chat_message(&message("!one", TwitchUserPermission::Everyone)).is_empty());
    assert_eq!(ex.process_chat_message(&message("!two", TwitchUserPermission::Everyone)), vec!["a".to_string()]);
    ex.remove_command("a");
    assert!(ex.process_chat_message(&message("!two", TwitchUserPermission::Everyone)).is_empty());
    assert_eq!(TriggerAction::TextCommand, TriggerAction::TextCommand);
}

#[test]
fn chat_event_becomes_message() {
    let m = chat_message_from_event(
        "mid".to_string(), "hi".to_string(), "42".to_string(), "Alice".to_string(),
        None, Some("parent".to_string()), None, "home".to_string(), 7,
    );
    assert_eq!(m.channel_id, "home");
    assert_eq!(m.user.permission, TwitchUserPermission::Everyone);
    assert_eq!(m.reply_to_message_id.as_deref(), Some("parent"));
    assert_eq!(m.received_at, 7);
    let m = chat_message_from_event(
        "mid".to_string(), "hi".to_string(), "42".to_string(), "Alice".to_string(),
        Some("r".to_string()), None, Some("src".to_string()), "home".to_string(), 7,
    );
    assert_eq!(m.channel_id, "src");
    assert_eq!(m.get_custom_reward_id.as_deref(), Some("r"));
}

#[test]
fn request_bodies_read_as_booleans() {
    assert_eq!(parse_bool("true"), Some(true));
    assert_eq!(parse_bool("false"), Some(false));
    assert_eq!(parse_bool("True"), None);
    assert_eq!(parse_bool(" true"), None);
    assert_eq!(parse_bool(""), None);
    assert_eq!(parse_bool("1"), None);
}

#[test]
fn fresh_executor_has_room_for_messages() {
    let mut service = CommandExecutorService::new();
    assert!(service.can_process_message());
    let fired = service.process_chat_message(&message("!hi", TwitchUserPermission::Everyone));
    assert!(fired.is_empty());
    assert!(service.can_process_message());
}

#[test]
fn first_invalid_pattern_is_the_error() {
    let e = convert_patterns(&[pattern("(", true, true), pattern("[", true, true)]).err().unwrap();
    assert_eq!(e.pattern, "(");
    let e = convert_patterns(&[pattern("(", true, false), pattern("a(", false, true)]).err().unwrap();
    assert_eq!(e.pattern, "^a((?: |$).*");
}

#[test]
fn compiled_command_keeps_its_template() {
    let c = command("greet", vec![pattern("!hi", false, true)], TwitchUserPermission::Vip, 2);
    let compiled = CommandWithRegex::try_from(&c).ok().unwrap();
    let t = compiled.template.unwrap();
    assert_eq!(t.id, "greet");
    assert_eq!(t.template, "hi");
    assert_eq!(t.message_color, None);
    assert_eq!(compiled.permission, TwitchUserPermission::Vip);
    assert_eq!(compiled.global_cooldown_amount, 2);
}

#[test]
fn unmatched_messages_do_not_count_for_cooldowns() {
    let mut ex = CommandExecutorService::new();
    ex.upsert_command(CommandWithRegex::try_from(&command("a", vec![pattern("!go", false, true)], TwitchUserPermission::Moderator, 1)).ok().unwrap());
    assert_eq!(ex.process_chat_message(&message("!go", TwitchUserPermission::Moderator)).len(), 1);
    assert!(ex.process_chat_message(&message("other", TwitchUserPermission::Moderator)).is_empty());
    assert!(ex.process_chat_message(&message("!go", TwitchUserPermission::Everyone)).is_empty());
    assert!(ex.process_chat_message(&message("!go", TwitchUserPermission::Moderator)).is_empty());
    assert_eq!(ex.process_chat_message(&message("!go", TwitchUserPermission::Moderator)).len(), 1);
}
