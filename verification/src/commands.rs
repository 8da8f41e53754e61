//! Chat commands as the panel edits them and the database stores them.
use crate::chat::{permission_rank, TwitchUserPermission};
use crate::cooldown::ChatCooldown;
use crate::text::{chars_equal, chars_of};
use vstd::prelude::*;

verus! {

/// One pattern that triggers a command: a regular expression, or a word that a
/// message must start with.
#[derive(Clone, Debug)]
pub struct MessagePattern {
    pub pattern: String,
    pub is_regex: bool,
    pub is_visible: bool,
    pub is_enabled: bool,
}

/// The template a command answers with.
#[derive(Clone, Debug)]
pub struct StringTemplate {
    pub id: String,
    pub template: String,
    pub message_color: Option<String>,
}

/// What a cooldown amount counts. The order of the variants is the number
/// under which the database stores them.
#[derive(Clone, Copy, Debug, PartialEq, Eq, Structural)]
pub enum CooldownType {
    SECONDS,
    MESSAGES,
}

/// The number under which a cooldown type is stored.
pub open spec fn cooldown_type_number(t: CooldownType) -> u8 {
    match t {
        CooldownType::SECONDS => 0,
        CooldownType::MESSAGES => 1,
    }
}

impl CooldownType {
    /// The cooldown type stored under `n`; `None` for other numbers.
    pub fn from_u8(n: u8) -> (r: Option<CooldownType>)
        ensures
            r is Some <==> n <= 1,
            r matches Some(t) ==> cooldown_type_number(t) == n,
    {
        match n {
            0 => Some(CooldownType::SECONDS),
            1 => Some(CooldownType::MESSAGES),
            _ => None,
        }
    }

    /// The number under which this type is stored.
    pub fn to_u8(&self) -> (n: u8)
        ensures
            n == cooldown_type_number(*self),
    {
        match self {
            CooldownType::SECONDS => 0,
            CooldownType::MESSAGES => 1,
        }
    }
}

/// The cooldown of `amount` counted in `kind`.
pub open spec fn cooldown_of(kind: CooldownType, amount: u16) -> ChatCooldown {
    match kind {
        CooldownType::SECONDS => ChatCooldown::SECONDS(amount),
        CooldownType::MESSAGES => ChatCooldown::MESSAGES(amount),
    }
}

/// The cooldown of `amount` counted in `kind`.
pub fn make_cooldown(kind: CooldownType, amount: u16) -> (c: ChatCooldown)
    ensures
        c == cooldown_of(kind, amount),
{
    match kind {
        CooldownType::SECONDS => ChatCooldown::SECONDS(amount),
        CooldownType::MESSAGES => ChatCooldown::MESSAGES(amount),
    }
}

/// A chat command.
#[derive(Clone, Debug)]
pub struct Command {
    pub id: String,
    pub description: String,
    pub patterns: Vec<MessagePattern>,
    pub permission: TwitchUserPermission,
    pub is_auto_generated: bool,
    pub global_cooldown_amount: u16,
    pub global_cooldown_type: CooldownType,
    pub user_cooldown_amount: u16,
    pub user_cooldown_type: CooldownType,
    pub template: Option<StringTemplate>,
}

/// A row of the command table, joined with the command's template.
#[derive(Clone, Debug)]
pub struct CommandTable {
    pub id: String,
    pub description: String,
    pub permission: u8,
    pub global_cooldown_amount: u16,
    pub global_cooldown_type: u8,
    pub user_cooldown_amount: u16,
    pub user_cooldown_type: u8,
    pub is_auto_generated: bool,
    pub template_id: Option<String>,
    pub template: Option<String>,
    pub message_color: Option<String>,
}

/// The search the command listing was asked for.
#[derive(Clone, Debug)]
pub struct SearchQuery {
    pub search: Option<String>,
}

/// Which listing a search asks for: every command, or those matching a search
/// text (an empty search text lists every command).
pub fn search_text(query: &SearchQuery) -> (r: Option<&str>)
    ensures
        match query.search {
            None => r is None,
            Some(s) => if s@.len() == 0 {
                r is None
            } else {
                r matches Some(t) && t@ == s@
            },
        },
{
    match &query.search {
        None => None,
        Some(s) => {
            let t = s.as_str();
            if t.is_empty() {
                None
            } else {
                Some(t)
            }
        },
    }
}

/// Why a stored command could not be read back.
#[derive(Clone, Copy, Debug, PartialEq, Eq, Structural)]
pub enum CommandRowError {
    InvalidPermission(u8),
    InvalidGlobalCooldownType(u8),
    InvalidUserCooldownType(u8),
}

impl CommandRowError {
    /// The text that reports this error.
    pub fn message(&self) -> (m: &'static str)
        ensures
            m@ == (match *self {
                CommandRowError::InvalidPermission(_) => "Invalid TwitchUserPermission enum variant form db"@,
                _ => "Invalid CooldownType enum variant form db"@,
            }),
    {
        match self {
            CommandRowError::InvalidPermission(_) => "Invalid TwitchUserPermission enum variant form db",
            _ => "Invalid CooldownType enum variant form db",
        }
    }
}

/// Builds the command of a stored row and its patterns. The permission is read
/// first, then the global cooldown type, then the user cooldown type; the first
/// number that names nothing is the error. The command has a template exactly
/// when the row names one; a missing template text reads as empty.
pub fn command_from_row(row: CommandTable, patterns: Vec<MessagePattern>) -> (r: Result<
    Command,
    CommandRowError,
>)
    ensures
        if row.permission > 10 {
            r == Err::<Command, CommandRowError>(CommandRowError::InvalidPermission(row.permission))
        } else if row.global_cooldown_type > 1 {
            r == Err::<Command, CommandRowError>(
                CommandRowError::InvalidGlobalCooldownType(row.global_cooldown_type),
            )
        } else if row.user_cooldown_type > 1 {
            r == Err::<Command, CommandRowError>(
                CommandRowError::InvalidUserCooldownType(row.user_cooldown_type),
            )
        } else {
            r matches Ok(c) && {
                &&& c.id@ == row.id@
                &&& c.description@ == row.description@
                &&& c.patterns@ == patterns@
                &&& permission_rank(c.permission) == row.permission
                &&& c.is_auto_generated == row.is_auto_generated
                &&& c.global_cooldown_amount == row.global_cooldown_amount
                &&& cooldown_type_number(c.global_cooldown_type) == row.global_cooldown_type
                &&& c.user_cooldown_amount == row.user_cooldown_amount
                &&& cooldown_type_number(c.user_cooldown_type) == row.user_cooldown_type
                &&& match row.template_id {
                    None => c.template is None,
                    Some(tid) => c.template matches Some(t) && t.id@ == tid@ && t.template@ == (
                    match row.template {
                        Some(text) => text@,
                        None => Seq::<char>::empty(),
                    }) && t.message_color == row.message_color,
                }
            }
        },
{
    let template = match row.template_id {
        Some(id) => Some(
            StringTemplate {
                id,
                template: match row.template {
                    Some(text) => text,
                    None => String::new(),
                },
                message_color: row.message_color,
            },
        ),
        None => None,
    };
    let permission = match TwitchUserPermission::from_u8(row.permission) {
        Some(p) => p,
        None => {
            return Err(CommandRowError::InvalidPermission(row.permission));
        },
    };
    let global_cooldown_type = match CooldownType::from_u8(row.global_cooldown_type) {
        Some(t) => t,
        None => {
            return Err(CommandRowError::InvalidGlobalCooldownType(row.global_cooldown_type));
        },
    };
    let user_cooldown_type = match CooldownType::from_u8(row.user_cooldown_type) {
        Some(t) => t,
        None => {
            return Err(CommandRowError::InvalidUserCooldownType(row.user_cooldown_type));
        },
    };
    Ok(
        Command {
            id: row.id,
            description: row.description,
            patterns,
            permission,
            is_auto_generated: row.is_auto_generated,
            global_cooldown_amount: row.global_cooldown_amount,
            global_cooldown_type,
            user_cooldown_amount: row.user_cooldown_amount,
            user_cooldown_type,
            template,
        },
    )
}

/// Reads a request body as a boolean the way `bool::from_str` does: exactly
/// `true` or `false`; anything else is `None`.
pub fn parse_bool(body: &str) -> (r: Option<bool>)
    ensures
        r == (if body@ == "true"@ {
            Some(true)
        } else if body@ == "false"@ {
            Some(false)
        } else {
            None::<bool>
        }),
{
    let chars = chars_of(body);
    let t = chars_of("true");
    let f = chars_of("false");
    if chars_equal(chars.as_slice(), t.as_slice()) {
        Some(true)
    } else if chars_equal(chars.as_slice(), f.as_slice()) {
        Some(false)
    } else {
        None
    }
}


} // verus!
