//! What holds of the session whatever comes in, stated over the same
//! functions the contracts of the handlers use.

use crate::command::parse_command;
use crate::openai_client::{group_request, reply_request, CompletionView};
use crate::telegram_bot::{
    answered, assistant_turns, erased, indicator_of, recorded, route, step_of, text_answer_of,
    user_turn, CommandView, HistoryView, Observed, PendingView, Route, Sent, Session, StepView,
    Turn,
};
use crate::wording::{chat_reply_text, group_reply_text};
use vstd::prelude::*;

verus! {

/// State gating. An offline session drops every message: the router sends
/// it nowhere and no indicator is shown. Whatever handler is run on it, and
/// whatever answer comes back from a backend, the session stays as it is
/// and nothing is sent.
pub proof fn offline_is_silent(
    text: Option<Seq<char>>,
    bot_name: Seq<char>,
    handler: Route,
    message: Observed,
    pending: PendingView,
    answer: CompletionView,
    speaker: Option<Seq<char>>,
)
    ensures
        route(Session::Offline, text, bot_name) == Route::DoNothing,
        indicator_of(route(Session::Offline, text, bot_name)) == None::<
            crate::telegram_bot::ChatAction,
        >,
        step_of(Session::Offline, handler, message) == (Session::Offline, StepView::Idle),
        text_answer_of(Session::Offline, pending, answer, speaker) == (
            Session::Offline,
            Sent::Nothing,
        ),
{
}

/// Whether a message is plain: it has no text, or its text is no command
/// for this bot.
pub open spec fn is_plain(message: Observed, bot_name: Seq<char>) -> bool {
    match message.text {
        Some(t) => parse_command(t, bot_name) is None,
        None => true,
    }
}

/// Passive accumulation. A plain message that reaches an online session is
/// routed to the recorder, which shows no indicator; recording it adds
/// exactly that message at the end of the group log, leaves the dialogue as
/// it was, and sends nothing.
pub proof fn plain_message_is_recorded(h: HistoryView, message: Observed, bot_name: Seq<char>)
    requires
        is_plain(message, bot_name),
    ensures
        route(Session::Online(h), message.text, bot_name) == Route::Record,
        indicator_of(Route::Record) == None::<crate::telegram_bot::ChatAction>,
        step_of(Session::Online(h), Route::Record, message) == (
            Session::Online(recorded(h, message)),
            StepView::Idle,
        ),
        recorded(h, message).group_log.len() == h.group_log.len() + 1,
        recorded(h, message).group_log.last() == message,
        recorded(h, message).group_log.drop_last() == h.group_log,
        recorded(h, message).dialogue_log == h.dialogue_log,
{
    assert(recorded(h, message).group_log.drop_last() =~= h.group_log);
}

/// Reset isolation. A reset on an online session leaves an empty dialogue
/// and the group log as it was, in length and in content.
pub proof fn reset_clears_dialogue_only(h: HistoryView, message: Observed)
    ensures
        step_of(Session::Online(h), Route::Run(CommandView::Reset), message).0 == Session::Online(
            erased(h),
        ),
        erased(h).dialogue_log.len() == 0,
        erased(h).group_log == h.group_log,
{
}

/// One chat exchange as it is closed: the user's turn and the answer.
pub struct Exchange {
    pub turn: Turn,
    pub answer: CompletionView,
}

/// The history after a run of answered chat exchanges, oldest first.
pub open spec fn after_exchanges(
    h: HistoryView,
    exchanges: Seq<Exchange>,
    bot_name: Option<Seq<char>>,
) -> HistoryView
    decreases exchanges.len(),
{
    if exchanges.len() == 0 {
        h
    } else {
        answered(
            after_exchanges(h, exchanges.drop_last(), bot_name),
            exchanges.last().turn,
            exchanges.last().answer.choices,
            bot_name,
        )
    }
}

/// An answered chat exchange is what `text_answer_of` makes of an online
/// session and a pending chat.
pub proof fn answered_is_the_chat_transition(
    h: HistoryView,
    exchange: Exchange,
    bot_name: Option<Seq<char>>,
)
    ensures
        text_answer_of(
            Session::Online(h),
            PendingView::Chat { turn: exchange.turn },
            exchange.answer,
            bot_name,
        ).0 == Session::Online(answered(h, exchange.turn, exchange.answer.choices, bot_name)),
{
}

/// Monotonic chat context. After any number of answered chat exchanges
/// that each brought exactly one choice, the dialogue is longer by two
/// turns for each exchange, what it held before still stands at its front,
/// and the group log is as it was.
pub proof fn dialogue_grows_by_two(
    h: HistoryView,
    exchanges: Seq<Exchange>,
    bot_name: Option<Seq<char>>,
)
    requires
        forall|i: int| 0 <= i < exchanges.len() ==> (#[trigger] exchanges[i]).answer.choices.len()
            == 1,
    ensures
        after_exchanges(h, exchanges, bot_name).dialogue_log.len() == h.dialogue_log.len() + 2
            * exchanges.len(),
        after_exchanges(h, exchanges, bot_name).dialogue_log.subrange(
            0,
            h.dialogue_log.len() as int,
        ) == h.dialogue_log,
        after_exchanges(h, exchanges, bot_name).group_log == h.group_log,
    decreases exchanges.len(),
{
    if exchanges.len() == 0 {
        assert(h.dialogue_log.subrange(0, h.dialogue_log.len() as int) =~= h.dialogue_log);
    } else {
        let earlier = exchanges.drop_last();
        assert forall|i: int| 0 <= i < earlier.len() implies (#[trigger] earlier[i]).answer.choices.len()
            == 1 by {
            assert(earlier[i] == exchanges[i]);
        }
        dialogue_grows_by_two(h, earlier, bot_name);
        let before = after_exchanges(h, earlier, bot_name);
        let last = exchanges.last();
        assert(last == exchanges[exchanges.len() - 1]);
        let after = after_exchanges(h, exchanges, bot_name);
        assert(assistant_turns(last.answer.choices, bot_name).len() == 1);
        assert(after.dialogue_log.subrange(0, h.dialogue_log.len() as int)
            =~= before.dialogue_log.subrange(0, h.dialogue_log.len() as int));
    }
}

/// Every answered chat exchange, whatever it brought, only adds to the
/// dialogue: what stood there stays, in place, followed by the user's turn.
pub proof fn chat_only_appends(
    h: HistoryView,
    turn: Turn,
    choices: Seq<Seq<char>>,
    bot_name: Option<Seq<char>>,
)
    ensures
        answered(h, turn, choices, bot_name).dialogue_log.len() == h.dialogue_log.len() + 1
            + choices.len(),
        answered(h, turn, choices, bot_name).dialogue_log.subrange(
            0,
            h.dialogue_log.len() as int,
        ) == h.dialogue_log,
        answered(h, turn, choices, bot_name).dialogue_log[h.dialogue_log.len() as int] == turn,
        answered(h, turn, choices, bot_name).group_log == h.group_log,
{
    assert(answered(h, turn, choices, bot_name).dialogue_log.subrange(
        0,
        h.dialogue_log.len() as int,
    ) =~= h.dialogue_log);
}

/// A chat command from its message to its answer. The request holds, behind
/// the system turn, the whole dialogue so far and then the user's turn; the
/// session waits unchanged for the answer; the answer puts the user's turn
/// and the assistant's turns into the dialogue and is sent with its usage
/// footer.
pub proof fn chat_round_trip(
    h: HistoryView,
    text: Seq<char>,
    message: Observed,
    answer: CompletionView,
    bot_name: Option<Seq<char>>,
)
    ensures
        ({
            let turn = user_turn(text, message.sender);
            let request = reply_request(h.dialogue_log.push(turn), None, None);
            &&& step_of(Session::Online(h), Route::Run(CommandView::Chat { text }), message) == (
                Session::Online(h),
                StepView::AskText { request, pending: PendingView::Chat { turn } },
            )
            &&& request.messages.len() == h.dialogue_log.len() + 2
            &&& request.messages.subrange(1, h.dialogue_log.len() as int + 1) == h.dialogue_log
            &&& request.messages.last() == turn
            &&& text_answer_of(Session::Online(h), PendingView::Chat { turn }, answer, bot_name)
                == (
                Session::Online(answered(h, turn, answer.choices, bot_name)),
                Sent::Text { text: chat_reply_text(answer) },
            )
        }),
{
    let turn = user_turn(text, message.sender);
    let request = reply_request(h.dialogue_log.push(turn), None, None);
    assert(request.messages.subrange(1, h.dialogue_log.len() as int + 1) =~= h.dialogue_log);
}

/// A question about the group and an image command read the session and
/// leave it as it is, before the backend is asked and after it answered.
pub proof fn group_and_image_only_read(
    h: HistoryView,
    text: Seq<char>,
    message: Observed,
    answer: CompletionView,
    bot_name: Option<Seq<char>>,
)
    ensures
        step_of(Session::Online(h), Route::Run(CommandView::Group { text }), message) == (
            Session::Online(h),
            StepView::AskText {
                request: group_request(h.group_log, text),
                pending: PendingView::Group,
            },
        ),
        text_answer_of(Session::Online(h), PendingView::Group, answer, bot_name) == (
            Session::Online(h),
            Sent::Text { text: group_reply_text(answer) },
        ),
        step_of(Session::Online(h), Route::Run(CommandView::Image { text }), message) == (
            Session::Online(h),
            StepView::AskImage { prompt: text },
        ),
{
}

/// No handler and no answer takes a session offline or brings it back:
/// the session is offline afterwards exactly when it was before.
pub proof fn no_transition_crosses_the_switch(
    session: Session,
    handler: Route,
    message: Observed,
    pending: PendingView,
    answer: CompletionView,
    bot_name: Option<Seq<char>>,
)
    ensures
        step_of(session, handler, message).0 is Offline <==> session is Offline,
        text_answer_of(session, pending, answer, bot_name).0 is Offline <==> session is Offline,
{
}

/// The group log never shrinks and never changes what it holds: after any
/// handler and any answer, the log as it was stands at the front of the
/// log as it is.
pub proof fn group_log_only_grows(
    h: HistoryView,
    handler: Route,
    message: Observed,
    pending: PendingView,
    answer: CompletionView,
    bot_name: Option<Seq<char>>,
)
    ensures
        step_of(Session::Online(h), handler, message).0 matches Session::Online(after)
            && after.group_log.len() >= h.group_log.len() && after.group_log.subrange(
            0,
            h.group_log.len() as int,
        ) == h.group_log,
        text_answer_of(Session::Online(h), pending, answer, bot_name).0 matches Session::Online(
            after,
        ) && after.group_log == h.group_log,
{
    let after = step_of(Session::Online(h), handler, message).0->Online_0;
    assert(after.group_log.subrange(0, h.group_log.len() as int) =~= h.group_log);
}

} // verus!
