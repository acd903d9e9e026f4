//! The per-chat session: its two logs, its two states, the commands it
//! understands and the routing of an incoming message.

use crate::command::parse_command;
use crate::correlation::{correlate, failure_notice, FailureRecord, FailureReport};
use crate::openai_client::{
    group_question, group_request, reply, reply_request, ChatRequest, ChatRequestView,
    Completion, CompletionView,
};
use crate::replicate_client::{
    media_urls, usable_urls, ImageResponse, ImageResponseView, NO_OUTPUT,
};
use crate::trusted::is_correlation_id;
use crate::wording::{
    chat_reply_text, chat_reply_wording, group_reply_text, group_reply_wording,
};
use vstd::prelude::*;
use vstd::string::*;

verus! {

/// Who speaks in a turn of the dialogue with the assistant.
#[derive(Debug, Clone, Copy, PartialEq, Eq, Structural)]
pub enum Role {
    System,
    User,
    Assistant,
}

/// One turn of the dialogue with the assistant.
#[derive(Debug, PartialEq, Eq)]
pub struct BotMessage {
    pub role: Role,
    pub content: String,
    pub name: Option<String>,
}

/// A turn as a mathematical value.
pub struct Turn {
    pub role: Role,
    pub content: Seq<char>,
    pub speaker_name: Option<Seq<char>>,
}

impl View for BotMessage {
    type V = Turn;

    open spec fn view(&self) -> Turn {
        Turn { role: self.role, content: self.content@, speaker_name: self.name.deep_view() }
    }
}

impl DeepView for BotMessage {
    type V = Turn;

    open spec fn deep_view(&self) -> Turn {
        self@
    }
}

impl Clone for BotMessage {
    fn clone(&self) -> (copy: Self)
        ensures
            copy@ == self@,
    {
        BotMessage {
            role: self.role,
            content: self.content.clone(),
            name: match &self.name {
                Some(n) => Some(n.clone()),
                None => None,
            },
        }
    }
}

/// A message seen in the chat: who sent it, when (seconds since the Unix
/// epoch) and what it said. Senders without a name and messages without
/// text occur.
#[derive(Debug, PartialEq, Eq)]
pub struct GroupMessage {
    pub sender: Option<String>,
    pub timestamp: i64,
    pub text: Option<String>,
}

/// A seen message as a mathematical value.
pub struct Observed {
    pub sender: Option<Seq<char>>,
    pub timestamp: int,
    pub text: Option<Seq<char>>,
}

impl View for GroupMessage {
    type V = Observed;

    open spec fn view(&self) -> Observed {
        Observed {
            sender: self.sender.deep_view(),
            timestamp: self.timestamp as int,
            text: self.text.deep_view(),
        }
    }
}

impl DeepView for GroupMessage {
    type V = Observed;

    open spec fn deep_view(&self) -> Observed {
        self@
    }
}

impl Clone for GroupMessage {
    fn clone(&self) -> (copy: Self)
        ensures
            copy@ == self@,
    {
        GroupMessage {
            sender: match &self.sender {
                Some(s) => Some(s.clone()),
                None => None,
            },
            timestamp: self.timestamp,
            text: match &self.text {
                Some(t) => Some(t.clone()),
                None => None,
            },
        }
    }
}

/// What a user can ask of the assistant.
#[derive(Debug, PartialEq, Eq)]
pub enum Command {
    /// Keep the conversation going; the context is kept until a reset.
    Chat { text: String },
    /// Create an image from a description.
    Image { text: String },
    /// Ask a question in the context of the group's conversation.
    Group { text: String },
    /// Wipe the dialogue from the assistant's memory.
    Reset,
}

/// A command as a mathematical value.
pub enum CommandView {
    Chat { text: Seq<char> },
    Image { text: Seq<char> },
    Group { text: Seq<char> },
    Reset,
}

impl View for Command {
    type V = CommandView;

    open spec fn view(&self) -> CommandView {
        match self {
            Command::Chat { text } => CommandView::Chat { text: text@ },
            Command::Image { text } => CommandView::Image { text: text@ },
            Command::Group { text } => CommandView::Group { text: text@ },
            Command::Reset => CommandView::Reset,
        }
    }
}

impl Clone for Command {
    fn clone(&self) -> (copy: Self)
        ensures
            copy@ == self@,
    {
        match self {
            Command::Chat { text } => Command::Chat { text: text.clone() },
            Command::Image { text } => Command::Image { text: text.clone() },
            Command::Group { text } => Command::Group { text: text.clone() },
            Command::Reset => Command::Reset,
        }
    }
}

impl DeepView for Command {
    type V = CommandView;

    open spec fn deep_view(&self) -> CommandView {
        self@
    }
}

pub const RESET_CONFIRMATION: &'static str = "`Bot chat history has been erased` \u{2705}";

pub const OFFLINE_LABEL: &'static str = "`sate ` \u{274c}";

pub const ONLINE_LABEL: &'static str = "`state` \u{2705}";

/// The memory of one chat: what was seen in the group, and the dialogue
/// with the assistant. Both grow at the end only; a reset empties the
/// dialogue and nothing else.
#[derive(Debug, PartialEq, Eq)]
pub struct History {
    group_history: Vec<GroupMessage>,
    bot_history: Vec<BotMessage>,
}

/// A history as a mathematical value: its two logs, oldest entry first.
pub struct HistoryView {
    pub group_log: Seq<Observed>,
    pub dialogue_log: Seq<Turn>,
}

impl View for History {
    type V = HistoryView;

    closed spec fn view(&self) -> HistoryView {
        HistoryView {
            group_log: self.group_history.deep_view(),
            dialogue_log: self.bot_history.deep_view(),
        }
    }
}

impl DeepView for History {
    type V = HistoryView;

    open spec fn deep_view(&self) -> HistoryView {
        self@
    }
}

/// The history of a chat in which nothing has happened yet.
pub open spec fn empty_history() -> HistoryView {
    HistoryView { group_log: Seq::<Observed>::empty(), dialogue_log: Seq::<Turn>::empty() }
}

/// `h` after `message` was seen: one more entry in the group log.
pub open spec fn recorded(h: HistoryView, message: Observed) -> HistoryView {
    HistoryView { group_log: h.group_log.push(message), dialogue_log: h.dialogue_log }
}

/// `h` after a reset: the dialogue is empty, the group log is as it was.
pub open spec fn erased(h: HistoryView) -> HistoryView {
    HistoryView { group_log: h.group_log, dialogue_log: Seq::<Turn>::empty() }
}

/// The turn in which a user says `text`.
pub open spec fn user_turn(text: Seq<char>, username: Option<Seq<char>>) -> Turn {
    Turn { role: Role::User, content: text, speaker_name: username }
}

/// The turns in which the assistant, known as `bot_name`, gives `choices`.
pub open spec fn assistant_turns(choices: Seq<Seq<char>>, bot_name: Option<Seq<char>>) -> Seq<
    Turn,
> {
    Seq::new(
        choices.len(),
        |i: int| Turn { role: Role::Assistant, content: choices[i], speaker_name: bot_name },
    )
}

/// `h` after a chat command was answered: the user's turn and then one
/// assistant turn for each choice are added to the dialogue.
pub open spec fn answered(
    h: HistoryView,
    turn: Turn,
    choices: Seq<Seq<char>>,
    bot_name: Option<Seq<char>>,
) -> HistoryView {
    HistoryView {
        group_log: h.group_log,
        dialogue_log: h.dialogue_log.push(turn) + assistant_turns(choices, bot_name),
    }
}

impl History {
    /// A history with two empty logs.
    pub fn new() -> (history: History)
        ensures
            history@ == empty_history(),
    {
        let history = History { group_history: Vec::new(), bot_history: Vec::new() };
        assert(history@.group_log =~= Seq::<Observed>::empty());
        assert(history@.dialogue_log =~= Seq::<Turn>::empty());
        history
    }

    /// The messages seen in the group, oldest first.
    pub fn group_log(&self) -> (log: &[GroupMessage])
        ensures
            log.deep_view() == self@.group_log,
    {
        let log = self.group_history.as_slice();
        assert(log.deep_view() =~= self@.group_log);
        log
    }

    /// The dialogue with the assistant, oldest turn first.
    pub fn dialogue_log(&self) -> (log: &[BotMessage])
        ensures
            log.deep_view() == self@.dialogue_log,
    {
        let log = self.bot_history.as_slice();
        assert(log.deep_view() =~= self@.dialogue_log);
        log
    }
}

impl Clone for History {
    fn clone(&self) -> (copy: Self)
        ensures
            copy@ == self@,
    {
        let mut group_history: Vec<GroupMessage> = Vec::new();
        let mut i: usize = 0;
        while i < self.group_history.len()
            invariant
                i <= self.group_history.len(),
                group_history.deep_view() == self.group_history.deep_view().take(i as int),
            decreases self.group_history.len() - i,
        {
            let ghost before = group_history.deep_view();
            group_history.push(self.group_history[i].clone());
            assert(group_history.deep_view() =~= before.push(self.group_history[i as int]@));
            assert(self.group_history.deep_view().take(i + 1) =~= before.push(
                self.group_history[i as int]@,
            ));
            i = i + 1;
        }
        assert(self.group_history.deep_view().take(self.group_history.len() as int)
            =~= self.group_history.deep_view());
        let mut bot_history: Vec<BotMessage> = Vec::new();
        let mut j: usize = 0;
        while j < self.bot_history.len()
            invariant
                j <= self.bot_history.len(),
                bot_history.deep_view() == self.bot_history.deep_view().take(j as int),
            decreases self.bot_history.len() - j,
        {
            let ghost before = bot_history.deep_view();
            bot_history.push(self.bot_history[j].clone());
            assert(bot_history.deep_view() =~= before.push(self.bot_history[j as int]@));
            assert(self.bot_history.deep_view().take(j + 1) =~= before.push(
                self.bot_history[j as int]@,
            ));
            j = j + 1;
        }
        assert(self.bot_history.deep_view().take(self.bot_history.len() as int)
            =~= self.bot_history.deep_view());
        History { group_history, bot_history }
    }
}

impl Default for History {
    fn default() -> (history: History)
        ensures
            history@ == empty_history(),
    {
        History::new()
    }
}

/// Passive observation: `new_message` is added to the group log.
pub fn record(history: &mut History, new_message: GroupMessage)
    ensures
        final(history)@ == recorded(old(history)@, new_message@),
{
    let ghost before = history.group_history.deep_view();
    history.group_history.push(new_message);
    assert(history.group_history.deep_view() =~= before.push(new_message@));
}

/// Wipes the dialogue and words the confirmation.
pub fn reset(history: &mut History) -> (confirmation: String)
    ensures
        final(history)@ == erased(old(history)@),
        confirmation@ == RESET_CONFIRMATION@,
{
    history.bot_history = Vec::new();
    assert(history.bot_history.deep_view() =~= Seq::<Turn>::empty());
    String::from_str(RESET_CONFIRMATION)
}

/// The request that puts `text` before the backend with the whole group
/// log as context. The history is only read.
pub fn group(history: &History, text: String) -> (request: ChatRequest)
    ensures
        request@ == group_request(history@.group_log, text@),
{
    group_question(history.group_history.as_slice(), text)
}

/// Opens a chat exchange: makes the user's turn out of `text` and the
/// sender's name, and the request that holds the whole dialogue so far with
/// that turn at its end. The history is only read; the turn enters it when
/// the answer has come.
pub fn chat(history: &History, text: String, username: Option<String>) -> (opened: (
    BotMessage,
    ChatRequest,
))
    ensures
        opened.0@ == user_turn(text@, username.deep_view()),
        opened.1@ == reply_request(
            history@.dialogue_log.push(user_turn(text@, username.deep_view())),
            None,
            None,
        ),
{
    let turn = BotMessage { role: Role::User, content: text, name: username };
    let mut context: Vec<BotMessage> = Vec::new();
    let mut i: usize = 0;
    while i < history.bot_history.len()
        invariant
            i <= history.bot_history.len(),
            context.deep_view() == history.bot_history.deep_view().take(i as int),
        decreases history.bot_history.len() - i,
    {
        let ghost before = context.deep_view();
        context.push(history.bot_history[i].clone());
        assert(context.deep_view() =~= before.push(history.bot_history[i as int]@));
        assert(history.bot_history.deep_view().take(i + 1) =~= history.bot_history.deep_view().take(
            i as int,
        ).push(history.bot_history[i as int]@));
        i = i + 1;
    }
    assert(history.bot_history.deep_view().take(history.bot_history.len() as int)
        =~= history.bot_history.deep_view());
    let ghost before = context.deep_view();
    context.push(turn.clone());
    assert(context.deep_view() =~= before.push(turn@));
    let dialogue = context.as_slice();
    assert(dialogue.deep_view() =~= context.deep_view());
    let request = reply(dialogue, None, None);
    (turn, request)
}

/// What is handed to the transport at the end of a handler.
#[derive(Debug, PartialEq, Eq)]
pub enum Outbound {
    /// Nothing is sent.
    Nothing,
    /// One text message, in the chat's markup.
    Text { text: String },
    /// One group of images, by their addresses.
    Media { urls: Vec<String> },
    /// A backend failed: `report` goes to the operator's log, `text` to
    /// the user.
    Failure { report: FailureReport, text: String },
}

/// What is handed to the transport, as a mathematical value.
pub enum Sent {
    Nothing,
    Text { text: Seq<char> },
    Media { urls: Seq<Seq<char>> },
    Failure { report: FailureRecord, text: Seq<char> },
}

impl View for Outbound {
    type V = Sent;

    open spec fn view(&self) -> Sent {
        match self {
            Outbound::Nothing => Sent::Nothing,
            Outbound::Text { text } => Sent::Text { text: text@ },
            Outbound::Media { urls } => Sent::Media { urls: urls.deep_view() },
            Outbound::Failure { report, text } => Sent::Failure { report: report@, text: text@ },
        }
    }
}

impl DeepView for Outbound {
    type V = Sent;

    open spec fn deep_view(&self) -> Sent {
        self@
    }
}

/// Whether `sent` is the outcome of a failure with this cause: the cause
/// is filed under an identifier of the usual form, and the user is shown
/// the notice that names this identifier and nothing else.
pub open spec fn failed_with(sent: Sent, cause: Seq<char>) -> bool {
    &&& sent matches Sent::Failure { report, text }
    &&& report.cause == cause
    &&& is_correlation_id(report.error_id)
    &&& text == failure_notice(report.error_id)
}

/// Turns a backend failure into what is logged and what is shown.
pub fn fail(cause: String) -> (sent: Outbound)
    ensures
        failed_with(sent@, cause@),
{
    let (report, text) = correlate(cause);
    Outbound::Failure { report, text }
}

/// Closes a question about the group: the answer is worded for the chat,
/// a failure is filed and shown by its identifier.
pub fn group_reply(outcome: Result<Completion, String>) -> (sent: Outbound)
    ensures
        match outcome {
            Ok(answer) => sent@ == (Sent::Text { text: group_reply_text(answer@) }),
            Err(cause) => failed_with(sent@, cause@),
        },
{
    match outcome {
        Err(e) => fail(e),
        Ok(responses) => Outbound::Text { text: group_reply_wording(&responses.choices) },
    }
}

/// Closes a chat exchange. On an answer, the user's turn and one assistant
/// turn for each choice, under the bot's own name, enter the dialogue, and
/// the answer is worded for the chat with its usage footer. On a failure
/// the history stays exactly as it was, and the failure is filed and shown
/// by its identifier.
pub fn chat_reply(
    history: &mut History,
    turn: BotMessage,
    outcome: Result<Completion, String>,
    bot_name: Option<String>,
) -> (sent: Outbound)
    ensures
        match outcome {
            Ok(answer) => {
                &&& final(history)@ == answered(
                    old(history)@,
                    turn@,
                    answer@.choices,
                    bot_name.deep_view(),
                )
                &&& sent@ == (Sent::Text { text: chat_reply_text(answer@) })
            },
            Err(cause) => {
                &&& final(history)@ == old(history)@
                &&& failed_with(sent@, cause@)
            },
        },
{
    match outcome {
        Err(e) => fail(e),
        Ok(results) => {
            let ghost start = history.bot_history.deep_view();
            let ghost choices = results.choices.deep_view();
            let ghost name = bot_name.deep_view();
            history.bot_history.push(turn);
            assert(history.bot_history.deep_view() =~= start.push(turn@) + assistant_turns(
                choices.take(0),
                name,
            ));
            let mut i: usize = 0;
            while i < results.choices.len()
                invariant
                    i <= results.choices.len(),
                    choices == results.choices.deep_view(),
                    name == bot_name.deep_view(),
                    history.group_history == old(history).group_history,
                    history.bot_history.deep_view() == start.push(turn@) + assistant_turns(
                        choices.take(i as int),
                        name,
                    ),
                decreases results.choices.len() - i,
            {
                let ghost before = history.bot_history.deep_view();
                let answer = BotMessage {
                    role: Role::Assistant,
                    content: results.choices[i].clone(),
                    name: match &bot_name {
                        Some(n) => Some(n.clone()),
                        None => None,
                    },
                };
                history.bot_history.push(answer);
                assert(history.bot_history.deep_view() =~= before.push(answer@));
                assert(before.push(answer@) =~= start.push(turn@) + assistant_turns(
                    choices.take(i + 1),
                    name,
                ));
                i = i + 1;
            }
            assert(choices.take(results.choices.len() as int) =~= choices);
            Outbound::Text { text: chat_reply_wording(&results.choices, results.usage) }
        },
    }
}

/// The images of an answer that can be shown.
pub open spec fn image_media(response: ImageResponseView) -> Seq<Seq<char>> {
    match response.output {
        Some(outputs) => usable_urls(outputs),
        None => Seq::<Seq<char>>::empty(),
    }
}

/// What is logged where an answer holds no image that can be shown: the
/// backend's own error, or a fixed text where it gave none.
pub open spec fn image_failure_cause(response: ImageResponseView) -> Seq<char> {
    match response.error {
        Some(e) => e,
        None => NO_OUTPUT@,
    }
}

/// Closes an image command: the images that can be shown are sent as one
/// group; where there is none, that is a failure like any other, filed
/// and shown by its identifier.
pub fn image_reply(response: ImageResponse) -> (sent: Outbound)
    ensures
        image_media(response@).len() > 0 ==> sent@ == (Sent::Media {
            urls: image_media(response@),
        }),
        image_media(response@).len() == 0 ==> failed_with(sent@, image_failure_cause(response@)),
{
    let media = match &response.output {
        Some(outputs) => media_urls(outputs),
        None => Vec::new(),
    };
    assert(media.deep_view() =~= image_media(response@));
    if media.len() > 0 {
        Outbound::Media { urls: media }
    } else {
        match response.error {
            Some(e) => fail(e),
            None => fail(String::from_str(NO_OUTPUT)),
        }
    }
}

/// The state of one chat's session. `Offline` is a kill switch that is set
/// from outside: nothing here leads into it or out of it.
#[derive(Debug, PartialEq, Eq)]
pub enum State {
    Offline,
    Online(History),
}

/// A session as a mathematical value.
pub enum Session {
    Offline,
    Online(HistoryView),
}

impl View for State {
    type V = Session;

    open spec fn view(&self) -> Session {
        match self {
            State::Offline => Session::Offline,
            State::Online(history) => Session::Online(history@),
        }
    }
}

impl DeepView for State {
    type V = Session;

    open spec fn deep_view(&self) -> Session {
        self@
    }
}

impl Clone for State {
    fn clone(&self) -> (copy: Self)
        ensures
            copy@ == self@,
    {
        match self {
            State::Offline => State::Offline,
            State::Online(history) => State::Online(history.clone()),
        }
    }
}

impl Default for State {
    /// A chat starts online, with nothing remembered.
    fn default() -> (state: State)
        ensures
            state@ == Session::Online(empty_history()),
    {
        State::Online(History::new())
    }
}

/// The handler that takes an incoming message.
#[derive(Debug, PartialEq, Eq)]
pub enum Handler {
    /// The message is dropped: nothing changes, nothing is sent.
    DoNothing,
    /// The message is kept in the group log; nothing is sent.
    Record,
    /// The message is this command, and its handler runs.
    Run(Command),
}

/// A routing decision as a mathematical value.
pub enum Route {
    DoNothing,
    Record,
    Run(CommandView),
}

impl View for Handler {
    type V = Route;

    open spec fn view(&self) -> Route {
        match self {
            Handler::DoNothing => Route::DoNothing,
            Handler::Record => Route::Record,
            Handler::Run(command) => Route::Run(command@),
        }
    }
}

impl DeepView for Handler {
    type V = Route;

    open spec fn deep_view(&self) -> Route {
        self@
    }
}

/// The routing policy, first match first: an offline session drops
/// everything; a message whose text reads as a command for this bot runs
/// that command; any other message is recorded.
pub open spec fn route(session: Session, text: Option<Seq<char>>, bot_name: Seq<char>) -> Route {
    match session {
        Session::Offline => Route::DoNothing,
        Session::Online(_) => match text {
            Some(t) => match parse_command(t, bot_name) {
                Some(command) => Route::Run(command),
                None => Route::Record,
            },
            None => Route::Record,
        },
    }
}

/// Routes `message`, received by the bot called `bot_name`, against the
/// state of its chat's session.
pub fn schema(state: &State, message: &GroupMessage, bot_name: &str) -> (handler: Handler)
    ensures
        handler@ == route(state@, message@.text, bot_name@),
{
    match state {
        State::Offline => Handler::DoNothing,
        State::Online(_) => match &message.text {
            Some(text) => match Command::parse(text.as_str(), bot_name) {
                Some(command) => Handler::Run(command),
                None => Handler::Record,
            },
            None => Handler::Record,
        },
    }
}

/// The sign of work in progress that the chat is shown.
#[derive(Debug, Clone, Copy, PartialEq, Eq, Structural)]
pub enum ChatAction {
    Typing,
    UploadPhoto,
}

/// The indicator that goes out before the handler of a route does its
/// work: every command shows one, an image command that of an upload; a
/// dropped or recorded message shows none.
pub open spec fn indicator_of(route: Route) -> Option<ChatAction> {
    match route {
        Route::DoNothing => None,
        Route::Record => None,
        Route::Run(CommandView::Image { .. }) => Some(ChatAction::UploadPhoto),
        Route::Run(_) => Some(ChatAction::Typing),
    }
}

impl Handler {
    /// The indicator to show before this handler does its work.
    pub fn indicator(&self) -> (action: Option<ChatAction>)
        ensures
            action == indicator_of(self@),
    {
        match self {
            Handler::DoNothing => None,
            Handler::Record => None,
            Handler::Run(Command::Image { .. }) => Some(ChatAction::UploadPhoto),
            Handler::Run(_) => Some(ChatAction::Typing),
        }
    }
}

/// What a text request was made for, kept until its answer comes.
#[derive(Debug, PartialEq, Eq)]
pub enum Pending {
    /// A question about the group.
    Group,
    /// A chat exchange, opened by this turn of the user.
    Chat { turn: BotMessage },
}

/// A pending exchange as a mathematical value.
pub enum PendingView {
    Group,
    Chat { turn: Turn },
}

impl View for Pending {
    type V = PendingView;

    open spec fn view(&self) -> PendingView {
        match self {
            Pending::Group => PendingView::Group,
            Pending::Chat { turn } => PendingView::Chat { turn: turn@ },
        }
    }
}

impl DeepView for Pending {
    type V = PendingView;

    open spec fn deep_view(&self) -> PendingView {
        self@
    }
}

/// What is to be done once a handler has taken a message.
#[derive(Debug, PartialEq, Eq)]
pub enum Step {
    /// Nothing: no message goes out and no backend is asked.
    Idle,
    /// Send this text.
    Say { text: String },
    /// Put this request before the text backend, and come back with its
    /// answer and with `pending`.
    AskText { request: ChatRequest, pending: Pending },
    /// Put this prompt before the image backend, and come back with its
    /// answer.
    AskImage { prompt: String },
}

/// A step as a mathematical value.
pub enum StepView {
    Idle,
    Say { text: Seq<char> },
    AskText { request: ChatRequestView, pending: PendingView },
    AskImage { prompt: Seq<char> },
}

impl View for Step {
    type V = StepView;

    open spec fn view(&self) -> StepView {
        match self {
            Step::Idle => StepView::Idle,
            Step::Say { text } => StepView::Say { text: text@ },
            Step::AskText { request, pending } => StepView::AskText {
                request: request@,
                pending: pending@,
            },
            Step::AskImage { prompt } => StepView::AskImage { prompt: prompt@ },
        }
    }
}

impl DeepView for Step {
    type V = StepView;

    open spec fn deep_view(&self) -> StepView {
        self@
    }
}

/// The session after a handler took `message`, and what is to be done
/// next. Offline, nothing happens whatever the handler. Online, a recorded
/// message enters the group log, a reset empties the dialogue and is
/// confirmed, and the other commands leave the session as it is and ask a
/// backend.
pub open spec fn step_of(session: Session, route: Route, message: Observed) -> (Session, StepView) {
    match session {
        Session::Offline => (session, StepView::Idle),
        Session::Online(h) => match route {
            Route::DoNothing => (session, StepView::Idle),
            Route::Record => (Session::Online(recorded(h, message)), StepView::Idle),
            Route::Run(CommandView::Reset) => (
                Session::Online(erased(h)),
                StepView::Say { text: RESET_CONFIRMATION@ },
            ),
            Route::Run(CommandView::Group { text }) => (
                session,
                StepView::AskText {
                    request: group_request(h.group_log, text),
                    pending: PendingView::Group,
                },
            ),
            Route::Run(CommandView::Chat { text }) => (
                session,
                StepView::AskText {
                    request: reply_request(
                        h.dialogue_log.push(user_turn(text, message.sender)),
                        None,
                        None,
                    ),
                    pending: PendingView::Chat { turn: user_turn(text, message.sender) },
                },
            ),
            Route::Run(CommandView::Image { text }) => (
                session,
                StepView::AskImage { prompt: text },
            ),
        },
    }
}

/// The session after the text backend answered a pending exchange, and
/// what is sent. Offline, nothing. Online, the answer to a group question
/// leaves the session as it is; the answer to a chat exchange enters the
/// dialogue behind the user's turn.
pub open spec fn text_answer_of(
    session: Session,
    pending: PendingView,
    answer: CompletionView,
    bot_name: Option<Seq<char>>,
) -> (Session, Sent) {
    match session {
        Session::Offline => (session, Sent::Nothing),
        Session::Online(h) => match pending {
            PendingView::Group => (session, Sent::Text { text: group_reply_text(answer) }),
            PendingView::Chat { turn } => (
                Session::Online(answered(h, turn, answer.choices, bot_name)),
                Sent::Text { text: chat_reply_text(answer) },
            ),
        },
    }
}

impl State {
    /// How the state shows in a status line.
    pub fn label(&self) -> (text: String)
        ensures
            text@ == (match self@ {
                Session::Offline => OFFLINE_LABEL@,
                Session::Online(_) => ONLINE_LABEL@,
            }),
    {
        match self {
            State::Offline => String::from_str(OFFLINE_LABEL),
            State::Online(_) => String::from_str(ONLINE_LABEL),
        }
    }

    /// Lets `handler` take `message`: changes the session as the handler
    /// does at once, and tells what is to be done next.
    pub fn step(&mut self, handler: Handler, message: GroupMessage) -> (step: Step)
        ensures
            (final(self)@, step@) == step_of(old(self)@, handler@, message@),
    {
        match self {
            State::Offline => Step::Idle,
            State::Online(history) => match handler {
                Handler::DoNothing => Step::Idle,
                Handler::Record => {
                    record(history, message);
                    Step::Idle
                },
                Handler::Run(Command::Reset) => {
                    let text = reset(history);
                    Step::Say { text }
                },
                Handler::Run(Command::Group { text }) => {
                    let request = group(history, text);
                    Step::AskText { request, pending: Pending::Group }
                },
                Handler::Run(Command::Chat { text }) => {
                    let (turn, request) = chat(history, text, message.sender);
                    Step::AskText { request, pending: Pending::Chat { turn } }
                },
                Handler::Run(Command::Image { text }) => Step::AskImage { prompt: text },
            },
        }
    }

    /// Takes the text backend's `outcome` for a pending exchange. An
    /// answer changes the session and is worded as `text_answer_of` says. A
    /// failure leaves the session exactly as it was; online it is filed
    /// and shown by its identifier, offline nothing is sent.
    pub fn text_replied(
        &mut self,
        pending: Pending,
        outcome: Result<Completion, String>,
        bot_name: Option<String>,
    ) -> (sent: Outbound)
        ensures
            match outcome {
                Ok(answer) => (final(self)@, sent@) == text_answer_of(
                    old(self)@,
                    pending@,
                    answer@,
                    bot_name.deep_view(),
                ),
                Err(cause) => {
                    &&& final(self)@ == old(self)@
                    &&& old(self)@ is Offline ==> sent@ == Sent::Nothing
                    &&& old(self)@ is Online ==> failed_with(sent@, cause@)
                },
            },
    {
        match self {
            State::Offline => Outbound::Nothing,
            State::Online(history) => match pending {
                Pending::Group => group_reply(outcome),
                Pending::Chat { turn } => chat_reply(history, turn, outcome, bot_name),
            },
        }
    }

    /// Takes the image backend's answer. Offline nothing is sent; online
    /// the images that can be shown are, and an answer without any is a
    /// failure. The session is only read.
    pub fn image_replied(&self, response: ImageResponse) -> (sent: Outbound)
        ensures
            self@ is Offline ==> sent@ == Sent::Nothing,
            self@ is Online && image_media(response@).len() > 0 ==> sent@ == (Sent::Media {
                urls: image_media(response@),
            }),
            self@ is Online && image_media(response@).len() == 0 ==> failed_with(
                sent@,
                image_failure_cause(response@),
            ),
    {
        match self {
            State::Offline => Outbound::Nothing,
            State::Online(_) => image_reply(response),
        }
    }
}

} // verus!
