//! What is asked of the text backend, and what it answers: the request for
//! a running dialogue, and the one-shot request over a group's transcript.

use crate::telegram_bot::{BotMessage, GroupMessage, Observed, Role, Turn};
use crate::trusted::{render_timestamp, timestamp_rendering};
use vstd::prelude::*;
use vstd::string::*;

verus! {

pub const DEFAULT_MODEL: &'static str = "gpt-4";

/// The cap on the tokens the backend may write in one answer.
pub const MAX_TOKENS: u16 = 512;

pub const DEFAULT_SYSTEM_PROMPT: &'static str = "You are GTP-4 a Telegram chat bot";

pub const GROUP_SYSTEM_PROMPT: &'static str =
    "You are a Telegram chat bot that helps humans to understand what is happening or has happened in group chats";

pub const GROUP_PROMPT_HEAD: &'static str = "Use the following conversation as context: \n\n ###";

pub const GROUP_PROMPT_MIDDLE: &'static str = "###  \n\n ";

pub const GROUP_PROMPT_TAIL: &'static str = " ";

/// One request to the text backend.
#[derive(Debug, PartialEq, Eq)]
pub struct ChatRequest {
    pub model: String,
    pub max_tokens: u16,
    pub messages: Vec<BotMessage>,
}

/// A request as a mathematical value.
pub struct ChatRequestView {
    pub model: Seq<char>,
    pub max_tokens: int,
    pub messages: Seq<Turn>,
}

impl View for ChatRequest {
    type V = ChatRequestView;

    open spec fn view(&self) -> ChatRequestView {
        ChatRequestView {
            model: self.model@,
            max_tokens: self.max_tokens as int,
            messages: self.messages.deep_view(),
        }
    }
}

impl DeepView for ChatRequest {
    type V = ChatRequestView;

    open spec fn deep_view(&self) -> ChatRequestView {
        self@
    }
}

/// The backend's count of the tokens one exchange took.
#[derive(Debug, Clone, Copy, PartialEq, Eq, Structural)]
pub struct Usage {
    pub prompt_tokens: u32,
    pub completion_tokens: u32,
    pub total_tokens: u32,
}

/// What the text backend answered: the text of each choice, in order, and
/// the usage where it reported one.
#[derive(Debug, PartialEq, Eq)]
pub struct Completion {
    pub choices: Vec<String>,
    pub usage: Option<Usage>,
}

/// An answer as a mathematical value.
pub struct CompletionView {
    pub choices: Seq<Seq<char>>,
    pub usage: Option<Usage>,
}

impl View for Completion {
    type V = CompletionView;

    open spec fn view(&self) -> CompletionView {
        CompletionView { choices: self.choices.deep_view(), usage: self.usage }
    }
}

impl DeepView for Completion {
    type V = CompletionView;

    open spec fn deep_view(&self) -> CompletionView {
        self@
    }
}

/// The synthetic turn that opens every request: it speaks for the system
/// and has no speaker.
pub open spec fn system_turn(prompt: Seq<char>) -> Turn {
    Turn { role: Role::System, content: prompt, speaker_name: None }
}

/// The request for a running dialogue: a system turn (the given prompt, or
/// the default one) before the whole dialogue, oldest turn first, for the
/// given model (or the default one), under the fixed cap on output.
pub open spec fn reply_request(
    dialogue: Seq<Turn>,
    system: Option<Seq<char>>,
    model: Option<Seq<char>>,
) -> ChatRequestView {
    ChatRequestView {
        model: match model {
            Some(m) => m,
            None => DEFAULT_MODEL@,
        },
        max_tokens: MAX_TOKENS as int,
        messages: seq![
            system_turn(
                match system {
                    Some(s) => s,
                    None => DEFAULT_SYSTEM_PROMPT@,
                },
            ),
        ] + dialogue,
    }
}

/// Builds the request that continues a dialogue.
pub fn reply(messages: &[BotMessage], system: Option<&str>, model: Option<&str>) -> (request:
    ChatRequest)
    ensures
        request@ == reply_request(messages.deep_view(), system.deep_view(), model.deep_view()),
{
    let system_text = match system {
        Some(s) => s,
        None => DEFAULT_SYSTEM_PROMPT,
    };
    let model_name = match model {
        Some(m) => m,
        None => DEFAULT_MODEL,
    };
    let system_msg = BotMessage {
        role: Role::System,
        content: String::from_str(system_text),
        name: None,
    };
    let ghost first = system_msg@;
    let mut request_messages: Vec<BotMessage> = Vec::new();
    request_messages.push(system_msg);
    assert(request_messages.deep_view() =~= seq![first]);
    let mut i: usize = 0;
    while i < messages.len()
        invariant
            i <= messages.len(),
            request_messages.deep_view() == seq![first] + messages.deep_view().take(i as int),
        decreases messages.len() - i,
    {
        let ghost before = request_messages.deep_view();
        let copy = messages[i].clone();
        request_messages.push(copy);
        assert(request_messages.deep_view() =~= before.push(messages[i as int]@));
        assert(messages.deep_view().take(i + 1) =~= messages.deep_view().take(i as int).push(
            messages[i as int]@,
        ));
        assert(request_messages.deep_view() =~= seq![first] + messages.deep_view().take(i + 1));
        i = i + 1;
    }
    assert(messages.deep_view().take(messages.len() as int) =~= messages.deep_view());
    ChatRequest {
        model: String::from_str(model_name),
        max_tokens: MAX_TOKENS,
        messages: request_messages,
    }
}

/// How one seen message reads in the transcript: `name [time]: text` and a
/// line end. A message that has no sender name, no text, or a moment that
/// cannot be written as a date, leaves no line.
pub open spec fn transcript_line(m: Observed) -> Seq<char> {
    match (m.sender, m.text, timestamp_rendering(m.timestamp)) {
        (Some(name), Some(text), Some(time)) => written_line(name, time, text),
        _ => Seq::<char>::empty(),
    }
}

/// A transcript line for a message whose sender, moment and text are all
/// at hand: `name [time]: text` and a line end.
pub open spec fn written_line(name: Seq<char>, time: Seq<char>, text: Seq<char>) -> Seq<char> {
    name + " ["@ + time + "]: "@ + text + "\n"@
}

/// Writes the transcript line of a message sent by `name` at the moment
/// that reads `time`, saying `text`.
pub fn write_line(name: &str, time: &str, text: &str) -> (line: String)
    ensures
        line@ == written_line(name@, time@, text@),
{
    let mut line = String::from_str(name);
    line.append(" [");
    line.append(time);
    line.append("]: ");
    line.append(text);
    line.append("\n");
    line
}

/// The transcript of a group log: the lines of its messages in the order
/// in which they were seen.
pub open spec fn transcript(log: Seq<Observed>) -> Seq<char>
    decreases log.len(),
{
    if log.len() == 0 {
        Seq::<char>::empty()
    } else {
        transcript(log.drop_last()) + transcript_line(log.last())
    }
}

/// The single user turn of a group question: the transcript between fixed
/// marks, then the question.
pub open spec fn group_prompt(log: Seq<Observed>, question: Seq<char>) -> Seq<char> {
    GROUP_PROMPT_HEAD@ + transcript(log) + GROUP_PROMPT_MIDDLE@ + question + GROUP_PROMPT_TAIL@
}

/// The one-shot request that puts `question` before the backend with the
/// whole group log as context.
pub open spec fn group_request(log: Seq<Observed>, question: Seq<char>) -> ChatRequestView {
    ChatRequestView {
        model: DEFAULT_MODEL@,
        max_tokens: MAX_TOKENS as int,
        messages: seq![
            system_turn(GROUP_SYSTEM_PROMPT@),
            Turn { role: Role::User, content: group_prompt(log, question), speaker_name: None },
        ],
    }
}

/// Appends the transcript line of `message` to `out`.
fn push_transcript_line(out: &mut String, message: &GroupMessage)
    ensures
        final(out)@ == old(out)@ + transcript_line(message@),
{
    match (&message.sender, &message.text) {
        (Some(username), Some(message_text)) => {
            match render_timestamp(message.timestamp) {
                Some(message_time) => {
                    let line = write_line(
                        username.as_str(),
                        message_time.as_str(),
                        message_text.as_str(),
                    );
                    out.append(line.as_str());
                },
                None => {
                    assert(old(out)@ + transcript_line(message@) =~= old(out)@);
                },
            }
        },
        _ => {
            assert(old(out)@ + transcript_line(message@) =~= old(out)@);
        },
    }
}

/// Writes the transcript of `messages`.
pub fn transcript_text(messages: &[GroupMessage]) -> (text: String)
    ensures
        text@ == transcript(messages.deep_view()),
{
    let ghost log = messages.deep_view();
    let mut chat_history = String::new();
    let mut i: usize = 0;
    while i < messages.len()
        invariant
            i <= messages.len(),
            log == messages.deep_view(),
            chat_history@ == transcript(log.take(i as int)),
        decreases messages.len() - i,
    {
        push_transcript_line(&mut chat_history, &messages[i]);
        assert(log.take(i + 1).drop_last() =~= log.take(i as int));
        assert(log.take(i + 1).last() == messages[i as int]@);
        i = i + 1;
    }
    assert(log.take(messages.len() as int) =~= log);
    chat_history
}

/// Builds the request that asks `question` about what was said in the
/// group.
pub fn group_question(messages: &[GroupMessage], question: String) -> (request: ChatRequest)
    ensures
        request@ == group_request(messages.deep_view(), question@),
{
    let system_message = BotMessage {
        role: Role::System,
        content: String::from_str(GROUP_SYSTEM_PROMPT),
        name: None,
    };
    let chat_history = transcript_text(messages);
    let mut content = String::from_str(GROUP_PROMPT_HEAD);
    content.append(chat_history.as_str());
    content.append(GROUP_PROMPT_MIDDLE);
    content.append(question.as_str());
    content.append(GROUP_PROMPT_TAIL);
    let task_message = BotMessage { role: Role::User, content, name: None };
    let ghost expected = group_request(messages.deep_view(), question@);
    let mut request_messages: Vec<BotMessage> = Vec::new();
    request_messages.push(system_message);
    request_messages.push(task_message);
    assert(request_messages.deep_view() =~= expected.messages);
    ChatRequest {
        model: String::from_str(DEFAULT_MODEL),
        max_tokens: MAX_TOKENS,
        messages: request_messages,
    }
}

} // verus!
