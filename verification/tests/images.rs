use gpt_telegram_bot::replicate_client::{flag_urls, media_urls, select_urls, ImageResponse};
use gpt_telegram_bot::telegram_bot::{image_reply, Outbound, State};

fn texts(items: &[&str]) -> Vec<String> {
    let mut out = Vec::new();
    for t in items {
        out.push(t.to_string());
    }
    out
}

#[test]
fn select_keeps_the_flagged_outputs_in_order() {
    let outputs = texts(&["a", "b", "c", "d"]);
    assert_eq!(select_urls(&outputs, &vec![true, false, true, true]), texts(&["a", "c", "d"]));
    assert_eq!(select_urls(&outputs, &vec![false, false, false, false]), texts(&[]));
    assert_eq!(select_urls(&texts(&[]), &vec![]), texts(&[]));
}

#[test]
fn only_absolute_urls_are_flagged() {
    let outputs = texts(&["https://example.com/a.png", "not a url", "", "http://x.y/z", "/relative/path"]);
    assert_eq!(flag_urls(&outputs), vec![true, false, false, true, false]);
}

#[test]
fn media_are_the_outputs_that_read_as_urls() {
    let outputs = texts(&["https://example.com/a.png", "not a url", "https://example.com/b.png"]);
    assert_eq!(
        media_urls(&outputs),
        texts(&["https://example.com/a.png", "https://example.com/b.png"])
    );
}

#[test]
fn images_are_sent_as_one_group() {
    let response = ImageResponse {
        output: Some(texts(&["https://example.com/cat.png", "https://example.com/cat2.png"])),
        error: None,
    };
    assert_eq!(
        image_reply(response),
        Outbound::Media {
            urls: texts(&["https://example.com/cat.png", "https://example.com/cat2.png"])
        }
    );
}

#[test]
fn an_empty_output_list_is_a_failure_with_an_identifier() {
    let state = State::default();
    let sent = state.image_replied(ImageResponse { output: Some(texts(&[])), error: None });
    match sent {
        Outbound::Failure { report, text } => {
            assert_eq!(report.error_id.len(), 32);
            assert_eq!(report.cause, "the image backend produced no output");
            assert_eq!(
                text,
                format!(
                    "there was an error processing your request, you can use this ID to track the issue `{}`",
                    report.error_id
                )
            );
        }
        other => panic!("expected a failure, got {:?}", other),
    }
}

#[test]
fn a_missing_output_is_a_failure_that_logs_the_backend_error() {
    let sent = image_reply(ImageResponse { output: None, error: Some("NSFW content".to_string()) });
    match sent {
        Outbound::Failure { report, text } => {
            assert_eq!(report.cause, "NSFW content");
            assert!(!text.contains("NSFW"));
            assert!(text.contains(&report.error_id));
        }
        other => panic!("expected a failure, got {:?}", other),
    }
}

#[test]
fn outputs_that_are_no_urls_are_a_failure() {
    let sent = image_reply(ImageResponse { output: Some(texts(&["nope", "still no"])), error: None });
    assert!(matches!(sent, Outbound::Failure { .. }));
}

#[test]
fn offline_an_image_answer_sends_nothing() {
    let sent = State::Offline.image_replied(ImageResponse {
        output: Some(texts(&["https://example.com/cat.png"])),
        error: None,
    });
    assert_eq!(sent, Outbound::Nothing);
}

#[test]
fn select_keeps_nothing_where_the_flags_do_not_fit() {
    let outputs = texts(&["a", "b"]);
    assert_eq!(select_urls(&outputs, &vec![true]), texts(&[]));
    assert_eq!(select_urls(&outputs, &vec![true, true, true]), texts(&[]));
}
