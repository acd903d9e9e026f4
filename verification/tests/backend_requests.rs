use gpt_telegram_bot::openai_client::{
    group_question, reply, transcript_text, write_line, ChatRequest, DEFAULT_MODEL,
    DEFAULT_SYSTEM_PROMPT, GROUP_SYSTEM_PROMPT, MAX_TOKENS,
};
use gpt_telegram_bot::telegram_bot::{BotMessage, GroupMessage, Role};

fn turn(role: Role, content: &str, name: Option<&str>) -> BotMessage {
    BotMessage { role, content: content.to_string(), name: name.map(|n| n.to_string()) }
}

fn seen(sender: Option<&str>, timestamp: i64, text: Option<&str>) -> GroupMessage {
    GroupMessage {
        sender: sender.map(|s| s.to_string()),
        timestamp,
        text: text.map(|t| t.to_string()),
    }
}

#[test]
fn reply_puts_the_default_system_turn_first() {
    let dialogue = vec![
        turn(Role::User, "hello", Some("alice")),
        turn(Role::Assistant, "hi", Some("gptbot")),
    ];
    let request = reply(&dialogue, None, None);
    assert_eq!(
        request,
        ChatRequest {
            model: "gpt-4".to_string(),
            max_tokens: 512,
            messages: vec![
                turn(Role::System, "You are GTP-4 a Telegram chat bot", None),
                turn(Role::User, "hello", Some("alice")),
                turn(Role::Assistant, "hi", Some("gptbot")),
            ],
        }
    );
}

#[test]
fn reply_takes_a_system_prompt_and_a_model() {
    let dialogue = vec![turn(Role::User, "hello", None)];
    let request = reply(&dialogue, Some("Be brief"), Some("gpt-3.5-turbo"));
    assert_eq!(request.model, "gpt-3.5-turbo");
    assert_eq!(request.max_tokens, 512);
    assert_eq!(
        request.messages,
        vec![turn(Role::System, "Be brief", None), turn(Role::User, "hello", None)]
    );
}

#[test]
fn reply_on_an_empty_dialogue_holds_the_system_turn_alone() {
    let request = reply(&[], None, None);
    assert_eq!(request.messages, vec![turn(Role::System, DEFAULT_SYSTEM_PROMPT, None)]);
    assert_eq!(request.model, DEFAULT_MODEL);
    assert_eq!(request.max_tokens, MAX_TOKENS);
}

#[test]
fn transcript_line_has_name_time_and_text() {
    assert_eq!(
        write_line("alice", "2023-03-15 17:00:00", "left at 5"),
        "alice [2023-03-15 17:00:00]: left at 5\n"
    );
}

#[test]
fn transcript_writes_the_time_as_date_and_time_of_day() {
    let log = vec![seen(Some("alice"), 1678899600, Some("left at 5"))];
    assert_eq!(transcript_text(&log), "alice [2023-03-15 17:00:00]: left at 5\n");
    let epoch = vec![seen(Some("bob"), 0, Some("x"))];
    assert_eq!(transcript_text(&epoch), "bob [1970-01-01 00:00:00]: x\n");
}

#[test]
fn transcript_skips_messages_without_sender_or_text() {
    let log = vec![
        seen(None, 1678899600, Some("anonymous")),
        seen(Some("alice"), 1678899600, None),
        seen(None, 1678899600, None),
        seen(Some("bob"), 1678903200, Some("arrived at 6")),
    ];
    assert_eq!(transcript_text(&log), "bob [2023-03-15 18:00:00]: arrived at 6\n");
}

#[test]
fn transcript_skips_messages_whose_moment_cannot_be_written() {
    let log = vec![
        seen(Some("alice"), i64::MAX, Some("from the far future")),
        seen(Some("bob"), 1678903200, Some("arrived at 6")),
        seen(Some("carol"), i64::MIN, Some("from the far past")),
    ];
    assert_eq!(transcript_text(&log), "bob [2023-03-15 18:00:00]: arrived at 6\n");
}

#[test]
fn transcript_of_nothing_is_empty() {
    assert_eq!(transcript_text(&[]), "");
}

#[test]
fn group_question_embeds_the_transcript_then_the_question() {
    let log = vec![
        seen(Some("alice"), 1678899600, Some("left at 5")),
        seen(Some("bob"), 1678903200, Some("arrived at 6")),
    ];
    let request = group_question(&log, "what happened".to_string());
    assert_eq!(request.model, "gpt-4");
    assert_eq!(request.max_tokens, 512);
    assert_eq!(
        request.messages,
        vec![
            turn(Role::System, GROUP_SYSTEM_PROMPT, None),
            turn(
                Role::User,
                "Use the following conversation as context: \n\n ###alice [2023-03-15 17:00:00]: left at 5\nbob [2023-03-15 18:00:00]: arrived at 6\n###  \n\n what happened ",
                None
            ),
        ]
    );
}

#[test]
fn group_question_over_an_empty_log_keeps_the_marks() {
    let request = group_question(&[], "anyone there?".to_string());
    assert_eq!(
        request.messages[1].content,
        "Use the following conversation as context: \n\n ######  \n\n anyone there? "
    );
    assert_eq!(
        request.messages[0].content,
        "You are a Telegram chat bot that helps humans to understand what is happening or has happened in group chats"
    );
}
