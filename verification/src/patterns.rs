//! Compiling the patterns of a command into regular expressions, and matching
//! chat messages against them.
use crate::chat::TwitchUserPermission;
use crate::commands::{Command, CooldownType, MessagePattern, StringTemplate};
use crate::compiled::{compile_regex, regex_compiles};
pub use crate::compiled::CompiledPattern;
use vstd::prelude::*;

verus! {

/// A pattern that did not compile, with the reason the `regex` crate gave.
pub struct InvalidPattern {
    pub pattern: String,
    pub cause: regex::Error,
}

/// The expression a pattern stands for: a regular expression as written, or
/// else a word that must open the message, followed by a space or the end,
/// matched regardless of case.
pub open spec fn pattern_source(pattern: Seq<char>, is_regex: bool) -> (Seq<char>, bool) {
    if is_regex {
        (pattern, false)
    } else {
        ("^"@ + pattern + "(?: |$).*"@, true)
    }
}

/// The view of the expression that a stored pattern stands for.
pub open spec fn expression_of(p: MessagePattern) -> (Seq<char>, bool) {
    pattern_source(p.pattern@, p.is_regex)
}

/// The enabled patterns, in order.
pub open spec fn enabled_patterns(patterns: Seq<MessagePattern>) -> Seq<MessagePattern> {
    patterns.filter(|p: MessagePattern| p.is_enabled)
}

/// Compiles one stored pattern.
pub fn compile_pattern(p: &MessagePattern) -> (r: Result<CompiledPattern, InvalidPattern>)
    ensures
        r is Ok <==> regex_compiles(expression_of(*p).0, expression_of(*p).1),
        r matches Ok(c) ==> c@ == expression_of(*p),
        r matches Err(e) ==> e.pattern@ == expression_of(*p).0,
        p.is_regex ==> (r matches Ok(c) ==> c@ == (p.pattern@, false)),
        !p.is_regex ==> (r matches Ok(c) ==> c@ == ("^"@ + p.pattern@ + "(?: |$).*"@, true)),
{
    let source = if p.is_regex {
        p.pattern.clone()
    } else {
        let mut s = String::from_str("^");
        s.append(p.pattern.as_str());
        s.append("(?: |$).*");
        s
    };
    let case_insensitive = !p.is_regex;
    let kept = source.clone();
    match compile_regex(source, case_insensitive) {
        Ok(c) => Ok(c),
        Err(cause) => Err(InvalidPattern { pattern: kept, cause }),
    }
}


/// The `k`-th pattern is the first that does not compile.
pub open spec fn first_failing(patterns: Seq<MessagePattern>, k: int) -> bool {
    &&& !regex_compiles(expression_of(patterns[k]).0, expression_of(patterns[k]).1)
    &&& forall|j: int|
        0 <= j < k ==> regex_compiles(
            #[trigger] expression_of(patterns[j]).0,
            expression_of(patterns[j]).1,
        )
}

/// Compiles the enabled patterns, in order; the first that does not compile is
/// the error.
pub fn convert_patterns(patterns: &[MessagePattern]) -> (r: Result<Vec<CompiledPattern>, InvalidPattern>)
    ensures
        r is Ok <==> forall|i: int|
            0 <= i < enabled_patterns(patterns@).len() ==> regex_compiles(
                #[trigger] expression_of(enabled_patterns(patterns@)[i]).0,
                expression_of(enabled_patterns(patterns@)[i]).1,
            ),
        r matches Ok(v) ==> v@.len() == enabled_patterns(patterns@).len() && forall|i: int|
            0 <= i < v@.len() ==> (#[trigger] v@[i])@ == expression_of(
                enabled_patterns(patterns@)[i],
            ),
        r matches Err(e) ==> exists|k: int|
            0 <= k < enabled_patterns(patterns@).len() && first_failing(
                enabled_patterns(patterns@),
                k,
            ) && e.pattern@ == expression_of(enabled_patterns(patterns@)[k]).0,
{
    let ghost pred = |p: MessagePattern| p.is_enabled;
    let mut out: Vec<CompiledPattern> = Vec::new();
    let mut i: usize = 0;
    while i < patterns.len()
        invariant
            pred == (|p: MessagePattern| p.is_enabled),
            i <= patterns@.len(),
            out@.len() == patterns@.take(i as int).filter(pred).len(),
            forall|j: int|
                0 <= j < out@.len() ==> (#[trigger] out@[j])@ == expression_of(
                    patterns@.take(i as int).filter(pred)[j],
                ),
            forall|j: int|
                0 <= j < out@.len() ==> regex_compiles(
                    #[trigger] expression_of(patterns@.take(i as int).filter(pred)[j]).0,
                    expression_of(patterns@.take(i as int).filter(pred)[j]).1,
                ),
        decreases patterns@.len() - i,
    {
        let ghost prefix = patterns@.take(i as int);
        proof {
            assert(patterns@.take(i + 1) == prefix.push(patterns@[i as int]));
            crate::seqs::lemma_filter_push(prefix, pred, patterns@[i as int]);
        }
        if patterns[i].is_enabled {
            match compile_pattern(&patterns[i]) {
                Ok(c) => {
                    out.push(c);
                },
                Err(e) => {
                    proof {
                        let en = enabled_patterns(patterns@);
                        let k = out@.len() as int;
                        assert(patterns@ == patterns@.take(i + 1) + patterns@.skip(i + 1));
                        lemma_filter_prefix(patterns@, pred, i + 1);
                        assert(en[k] == patterns@[i as int]);
                        assert(!regex_compiles(expression_of(en[k]).0, expression_of(en[k]).1));
                        assert forall|j: int| 0 <= j < k implies regex_compiles(
                            #[trigger] expression_of(en[j]).0,
                            expression_of(en[j]).1,
                        ) by {
                            assert(prefix.filter(pred)[j] == en[j]);
                        }
                        assert(first_failing(en, k));
                    }
                    return Err(e);
                },
            }
        }
        i = i + 1;
    }
    assert(patterns@.take(patterns@.len() as int) =~= patterns@);
    Ok(out)
}

proof fn lemma_filter_prefix<A>(s: Seq<A>, pred: spec_fn(A) -> bool, n: int)
    requires
        0 <= n <= s.len(),
    ensures
        s.take(n).filter(pred).len() <= s.filter(pred).len(),
        forall|j: int|
            0 <= j < s.take(n).filter(pred).len() ==> #[trigger] s.take(n).filter(pred)[j]
                == s.filter(pred)[j],
    decreases s.len() - n,
{
    if n < s.len() {
        lemma_filter_prefix(s, pred, n + 1);
        assert(s.take(n + 1) == s.take(n).push(s[n]));
        crate::seqs::lemma_filter_push(s.take(n), pred, s[n]);
        assert forall|j: int| 0 <= j < s.take(n).filter(pred).len() implies #[trigger] s.take(
            n,
        ).filter(pred)[j] == s.filter(pred)[j] by {
            assert(s.take(n + 1).filter(pred)[j] == s.filter(pred)[j]);
        }
    } else {
        assert(s.take(n) =~= s);
    }
}

/// A command whose enabled patterns have been compiled.
pub struct CommandWithRegex {
    pub id: String,
    pub description: String,
    pub patterns: Vec<CompiledPattern>,
    pub permission: TwitchUserPermission,
    pub is_auto_generated: bool,
    pub global_cooldown_amount: u16,
    pub global_cooldown_type: CooldownType,
    pub user_cooldown_amount: u16,
    pub user_cooldown_type: CooldownType,
    pub template: Option<StringTemplate>,
}

impl CommandWithRegex {
    /// Compiles the enabled patterns of `value` and keeps its other fields.
    pub fn try_from(value: &Command) -> (r: Result<CommandWithRegex, InvalidPattern>)
        ensures
            r is Ok <==> forall|i: int|
                0 <= i < enabled_patterns(value.patterns@).len() ==> regex_compiles(
                    #[trigger] expression_of(enabled_patterns(value.patterns@)[i]).0,
                    expression_of(enabled_patterns(value.patterns@)[i]).1,
                ),
            r matches Ok(c) ==> {
                &&& c.id@ == value.id@
                &&& c.description@ == value.description@
                &&& c.patterns@.len() == enabled_patterns(value.patterns@).len()
                &&& forall|i: int|
                    0 <= i < c.patterns@.len() ==> (#[trigger] c.patterns@[i])@ == expression_of(
                        enabled_patterns(value.patterns@)[i],
                    )
                &&& c.permission == value.permission
                &&& c.is_auto_generated == value.is_auto_generated
                &&& c.global_cooldown_amount == value.global_cooldown_amount
                &&& c.global_cooldown_type == value.global_cooldown_type
                &&& c.user_cooldown_amount == value.user_cooldown_amount
                &&& c.user_cooldown_type == value.user_cooldown_type
                &&& c.template == value.template
            },
            r matches Err(e) ==> exists|k: int|
                0 <= k < enabled_patterns(value.patterns@).len() && first_failing(
                    enabled_patterns(value.patterns@),
                    k,
                ) && e.pattern@ == expression_of(enabled_patterns(value.patterns@)[k]).0,
    {
        let patterns = convert_patterns(value.patterns.as_slice())?;
        Ok(
            CommandWithRegex {
                patterns,
                permission: value.permission,
                global_cooldown_amount: value.global_cooldown_amount,
                global_cooldown_type: value.global_cooldown_type,
                id: value.id.clone(),
                template: match &value.template {
                    Some(t) => Some(
                        StringTemplate {
                            id: t.id.clone(),
                            template: t.template.clone(),
                            message_color: match &t.message_color {
                                Some(color) => Some(color.clone()),
                                None => None,
                            },
                        },
                    ),
                    None => None,
                },
                is_auto_generated: value.is_auto_generated,
                description: value.description.clone(),
                user_cooldown_amount: value.user_cooldown_amount,
                user_cooldown_type: value.user_cooldown_type,
            },
        )
    }
}

/// What a pattern compiles to depends on its text and on whether it is a
/// regular expression, and on nothing else (not on whether it is listed): a
/// regular expression is used as written and matched with case, a word becomes
/// an anchored, case-blind expression.
pub proof fn lemma_expression_depends_on_text_and_kind(p: MessagePattern, q: MessagePattern)
    ensures
        p.pattern@ == q.pattern@ && p.is_regex == q.is_regex ==> expression_of(p) == expression_of(q),
        p.is_regex ==> expression_of(p) == (p.pattern@, false),
        !p.is_regex ==> expression_of(p) == ("^"@ + p.pattern@ + "(?: |$).*"@, true),
{
}

} // verus!
