use telegram_notify::bot::{get_photo_body_map, get_text_body_map, plan_chat_calls, ChatApiCall};
use telegram_notify::messages::Message;

fn message_with_images(n: usize) -> Message {
    Message {
        text: "hello".to_string(),
        images: (0..n).map(|i| format!("https://img.example/{}", i)).collect(),
    }
}

fn pairs(v: &[(String, String)]) -> Vec<(&str, &str)> {
    v.iter().map(|(k, val)| (k.as_str(), val.as_str())).collect()
}

#[test]
fn text_body_map_fields() {
    let body = get_text_body_map("hi there", "42");
    assert_eq!(
        pairs(&body),
        vec![
            ("chat_id", "42"),
            ("parse_mode", "MarkdownV2"),
            ("disable_web_page_preview", "true"),
            ("text", "hi there"),
        ]
    );
}

#[test]
fn photo_body_map_fields() {
    let body = get_photo_body_map("https://img.example/0", "42");
    assert_eq!(
        pairs(&body),
        vec![("chat_id", "42"), ("photo", "https://img.example/0")]
    );
}

#[test]
fn no_images_gives_one_text_call() {
    let calls = plan_chat_calls(message_with_images(0), "42");
    assert_eq!(calls.len(), 1);
    match &calls[0] {
        ChatApiCall::SendMessage { chat_id, parse_mode, disable_web_page_preview, text } => {
            assert_eq!(chat_id, "42");
            assert_eq!(parse_mode, "MarkdownV2");
            assert!(*disable_web_page_preview);
            assert_eq!(text, "hello");
        }
        _ => panic!("first call must send the text"),
    }
}

#[test]
fn one_image_gives_text_then_photo_call() {
    let calls = plan_chat_calls(message_with_images(1), "42");
    assert_eq!(calls.len(), 2);
    assert!(matches!(calls[0], ChatApiCall::SendMessage { .. }));
    match &calls[1] {
        ChatApiCall::SendPhoto { chat_id, photo } => {
            assert_eq!(chat_id, "42");
            assert_eq!(photo, "https://img.example/0");
        }
        _ => panic!("second call must send the photo"),
    }
}

#[test]
fn three_images_give_text_then_media_group_call() {
    let calls = plan_chat_calls(message_with_images(3), "42");
    assert_eq!(calls.len(), 2);
    assert!(matches!(calls[0], ChatApiCall::SendMessage { .. }));
    match &calls[1] {
        ChatApiCall::SendMediaGroup { chat_id, media } => {
            assert_eq!(chat_id, "42");
            assert_eq!(media.len(), 3);
            for (i, entry) in media.iter().enumerate() {
                assert_eq!(entry.kind, "photo");
                assert_eq!(entry.media, format!("https://img.example/{}", i));
            }
        }
        _ => panic!("second call must send the media group"),
    }
}
