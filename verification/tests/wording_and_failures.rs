use gpt_telegram_bot::correlation::{correlate, failure_text, file_failure};
use gpt_telegram_bot::openai_client::Usage;
use gpt_telegram_bot::wording::{
    chat_reply_wording, group_reply_wording, join_choices, usage_footer_text, ADVISORY,
    ADVISORY_THRESHOLD,
};

fn usage(prompt_tokens: u32, completion_tokens: u32, total_tokens: u32) -> Option<Usage> {
    Some(Usage { prompt_tokens, completion_tokens, total_tokens })
}

fn choices(texts: &[&str]) -> Vec<String> {
    let mut out = Vec::new();
    for t in texts {
        out.push(t.to_string());
    }
    out
}

#[test]
fn usage_line_breaks_the_total_down() {
    assert_eq!(
        usage_footer_text(usage(10, 5, 15)),
        "\n\n`usage 15 tokens = 10 prompt + 5 completion`"
    );
}

#[test]
fn no_usage_no_footer() {
    assert_eq!(usage_footer_text(None), "");
}

#[test]
fn advisory_comes_above_the_threshold_only() {
    assert_eq!(ADVISORY_THRESHOLD, 6000);
    let below = usage_footer_text(usage(5000, 999, 5999));
    assert_eq!(below, "\n\n`usage 5999 tokens = 5000 prompt + 999 completion`");
    assert!(!below.contains(ADVISORY));
    let at = usage_footer_text(usage(5000, 1000, 6000));
    assert_eq!(at, "\n\n`usage 6000 tokens = 5000 prompt + 1000 completion`");
    let above = usage_footer_text(usage(5000, 1001, 6001));
    assert_eq!(
        above,
        "\n\n`usage 6001 tokens = 5000 prompt + 1001 completion`\n`Reaching 8k limit, consider running /reset soon`"
    );
}

#[test]
fn chat_reply_with_6001_tokens_holds_usage_line_and_advisory() {
    let text = chat_reply_wording(&choices(&["ok"]), usage(6000, 1, 6001));
    assert!(text.contains("`usage 6001 tokens = 6000 prompt + 1 completion`"));
    assert!(text.contains("`Reaching 8k limit, consider running /reset soon`"));
    assert_eq!(
        text,
        "ok\n\n`usage 6001 tokens = 6000 prompt + 1 completion`\n`Reaching 8k limit, consider running /reset soon`"
    );
}

#[test]
fn chat_reply_with_5999_tokens_holds_the_usage_line_alone() {
    let text = chat_reply_wording(&choices(&["ok"]), usage(5998, 1, 5999));
    assert!(text.contains("`usage 5999 tokens = 5998 prompt + 1 completion`"));
    assert!(!text.contains("Reaching 8k limit"));
    assert_eq!(text, "ok\n\n`usage 5999 tokens = 5998 prompt + 1 completion`");
}

#[test]
fn choices_are_joined_in_order() {
    assert_eq!(join_choices(&choices(&[])), "");
    assert_eq!(join_choices(&choices(&["a"])), "a");
    assert_eq!(join_choices(&choices(&["a", "", "bc", "d"])), "abcd");
}

#[test]
fn replies_escape_every_markup_character() {
    let plain = "_*[]()~`>#+-=|{}.!";
    let escaped = "\\_\\*\\[\\]\\(\\)\\~\\`\\>\\#\\+\\-\\=\\|\\{\\}\\.\\!";
    assert_eq!(group_reply_wording(&choices(&[plain])), escaped);
    assert_eq!(chat_reply_wording(&choices(&[plain]), None), escaped);
}

#[test]
fn replies_keep_other_characters() {
    assert_eq!(group_reply_wording(&choices(&["hi there"])), "hi there");
    assert_eq!(group_reply_wording(&choices(&["a\\b"])), "a\\b");
    assert_eq!(group_reply_wording(&choices(&["1.5 < 2, ok?"])), "1\\.5 < 2, ok?");
    assert_eq!(group_reply_wording(&choices(&["\u{e9}t\u{e9} \u{2705}\n"])), "\u{e9}t\u{e9} \u{2705}\n");
    assert_eq!(group_reply_wording(&choices(&["a.", "b!"])), "a\\.b\\!");
}

#[test]
fn the_usage_footer_is_not_escaped() {
    assert_eq!(
        chat_reply_wording(&choices(&["done."]), usage(1, 2, 3)),
        "done\\.\n\n`usage 3 tokens = 1 prompt + 2 completion`"
    );
}

#[test]
fn replies_agree_with_the_escaping_of_the_markup_library() {
    for text in ["", "plain", "_a_ *b* [c](d) ~e~ `f` >g #h +i -j =k |l {m} n.o p!", "\\_", "__**"] {
        assert_eq!(
            group_reply_wording(&choices(&[text])),
            teloxide::utils::markdown::escape(text)
        );
    }
}

#[test]
fn failure_notice_names_the_identifier_only() {
    assert_eq!(
        failure_text("0123456789abcdef0123456789abcdef"),
        "there was an error processing your request, you can use this ID to track the issue `0123456789abcdef0123456789abcdef`"
    );
}

#[test]
fn filing_keeps_cause_and_identifier_together() {
    let (report, text) = file_failure("abc".to_string(), "backend exploded".to_string());
    assert_eq!(report.error_id, "abc");
    assert_eq!(report.cause, "backend exploded");
    assert_eq!(
        text,
        "there was an error processing your request, you can use this ID to track the issue `abc`"
    );
    assert!(!text.contains("backend exploded"));
}

#[test]
fn fresh_identifiers_are_thirty_two_lower_case_hex_digits() {
    let (report, text) = correlate("timeout".to_string());
    assert_eq!(report.cause, "timeout");
    assert_eq!(report.error_id.len(), 32);
    assert!(report.error_id.chars().all(|c| c.is_ascii_digit() || ('a'..='f').contains(&c)));
    assert_eq!(text, failure_text(&report.error_id));
    assert!(!text.contains("timeout"));
}

#[test]
fn two_failures_get_two_identifiers() {
    let (first, first_text) = correlate("first cause".to_string());
    let (second, second_text) = correlate("second cause".to_string());
    assert_ne!(first.error_id, second.error_id);
    assert_ne!(first_text, second_text);
    assert_eq!(first.cause, "first cause");
    assert_eq!(second.cause, "second cause");
    assert!(first_text.contains(&first.error_id));
    assert!(second_text.contains(&second.error_id));
    assert!(!first_text.contains(&second.error_id));
}
