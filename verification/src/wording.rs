//! The wording of a successful reply: the backend's text made safe for the
//! chat's markup, and the line on token usage with its advisory.

use crate::openai_client::{CompletionView, Usage};
use crate::text::{decimal, decimal_text};
use crate::trusted::{escape_markup, markup_escaped};
use vstd::prelude::*;
use vstd::string::*;

verus! {

/// Above this many tokens in total, a reply advises a reset.
pub const ADVISORY_THRESHOLD: u32 = 6000;

pub const USAGE_HEAD: &'static str = "\n\n`usage ";

pub const USAGE_TOTAL_TAIL: &'static str = " tokens = ";

pub const USAGE_PROMPT_TAIL: &'static str = " prompt + ";

pub const USAGE_COMPLETION_TAIL: &'static str = " completion`";

pub const ADVISORY: &'static str = "\n`Reaching 8k limit, consider running /reset soon`";

/// The texts of all choices, one after the other.
pub open spec fn joined(choices: Seq<Seq<char>>) -> Seq<char>
    decreases choices.len(),
{
    if choices.len() == 0 {
        Seq::<char>::empty()
    } else {
        joined(choices.drop_last()) + choices.last()
    }
}

/// The line that breaks the usage down:
/// `usage T tokens = P prompt + C completion`, after an empty line.
pub open spec fn usage_line(usage: Usage) -> Seq<char> {
    USAGE_HEAD@ + decimal(usage.total_tokens as nat) + USAGE_TOTAL_TAIL@ + decimal(
        usage.prompt_tokens as nat,
    ) + USAGE_PROMPT_TAIL@ + decimal(usage.completion_tokens as nat) + USAGE_COMPLETION_TAIL@
}

/// Whether a reply with this usage advises a reset.
pub open spec fn advisory_due(usage: Usage) -> bool {
    usage.total_tokens > ADVISORY_THRESHOLD
}

/// What follows the answer in a chat reply: nothing where no usage was
/// reported; else the usage line, and after it the advisory where the total
/// is above the threshold.
pub open spec fn usage_footer(usage: Option<Usage>) -> Seq<char> {
    match usage {
        None => Seq::<char>::empty(),
        Some(u) => if advisory_due(u) {
            usage_line(u) + ADVISORY@
        } else {
            usage_line(u)
        },
    }
}

/// The reply to a question about the group: the answer, escaped.
pub open spec fn group_reply_text(answer: CompletionView) -> Seq<char> {
    markup_escaped(joined(answer.choices))
}

/// The reply to a chat command: the answer, escaped, and the usage footer
/// (which is markup itself and is not escaped).
pub open spec fn chat_reply_text(answer: CompletionView) -> Seq<char> {
    markup_escaped(joined(answer.choices)) + usage_footer(answer.usage)
}

/// Joins the texts of all choices.
pub fn join_choices(choices: &Vec<String>) -> (text: String)
    ensures
        text@ == joined(choices.deep_view()),
{
    let ghost all = choices.deep_view();
    let mut text = String::new();
    let mut i: usize = 0;
    while i < choices.len()
        invariant
            i <= choices.len(),
            all == choices.deep_view(),
            text@ == joined(all.take(i as int)),
        decreases choices.len() - i,
    {
        text.append(choices[i].as_str());
        assert(all.take(i + 1).drop_last() =~= all.take(i as int));
        assert(all.take(i + 1).last() == choices[i as int]@);
        i = i + 1;
    }
    assert(all.take(choices.len() as int) =~= all);
    text
}

/// Writes the usage footer.
pub fn usage_footer_text(usage: Option<Usage>) -> (text: String)
    ensures
        text@ == usage_footer(usage),
{
    let mut text = String::new();
    if let Some(u) = usage {
        text.append(USAGE_HEAD);
        text.append(decimal_text(u.total_tokens).as_str());
        text.append(USAGE_TOTAL_TAIL);
        text.append(decimal_text(u.prompt_tokens).as_str());
        text.append(USAGE_PROMPT_TAIL);
        text.append(decimal_text(u.completion_tokens).as_str());
        text.append(USAGE_COMPLETION_TAIL);
        assert(text@ =~= usage_line(u));
        if u.total_tokens > ADVISORY_THRESHOLD {
            text.append(ADVISORY);
        }
    }
    text
}

/// Words the reply to a question about the group.
pub fn group_reply_wording(choices: &Vec<String>) -> (text: String)
    ensures
        text@ == markup_escaped(joined(choices.deep_view())),
{
    let reply_text = join_choices(choices);
    escape_markup(reply_text.as_str())
}

/// Words the reply to a chat command.
pub fn chat_reply_wording(choices: &Vec<String>, usage: Option<Usage>) -> (text: String)
    ensures
        text@ == markup_escaped(joined(choices.deep_view())) + usage_footer(usage),
{
    let reply_text = join_choices(choices);
    let mut reply_txt = escape_markup(reply_text.as_str());
    reply_txt.append(usage_footer_text(usage).as_str());
    reply_txt
}

/// The advisory stands in the footer exactly when the reported total is
/// above the threshold: then the footer is the usage line and the advisory,
/// otherwise the usage line alone.
pub proof fn advisory_exactly_above_threshold(usage: Usage)
    ensures
        usage.total_tokens > 6000 ==> usage_footer(Some(usage)) == usage_line(usage) + ADVISORY@,
        usage.total_tokens <= 6000 ==> usage_footer(Some(usage)) == usage_line(usage),
        usage_footer(Some(usage)).subrange(0, usage_line(usage).len() as int) == usage_line(usage),
{
    assert(usage_footer(Some(usage)).subrange(0, usage_line(usage).len() as int) =~= usage_line(
        usage,
    ));
}

} // verus!
