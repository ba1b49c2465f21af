use recipe_relay::json::{chat_payload, json_escape, ChatMessage};

#[test]
fn escape_leaves_plain_text_unchanged() {
    assert_eq!(json_escape("plain text, no specials"), "plain text, no specials");
}

#[test]
fn escape_handles_quote_backslash_and_newline() {
    assert_eq!(json_escape("a\"b\\c\nd"), "a\\\"b\\\\c\\nd");
}

#[test]
fn escape_handles_tab_return_and_control_characters() {
    assert_eq!(json_escape("x\ty\rz"), "x\\ty\\rz");
    assert_eq!(json_escape("\u{0}\u{1}\u{1f}"), "\\u0000\\u0001\\u001f");
}

#[test]
fn escape_keeps_non_ascii_characters_verbatim() {
    assert_eq!(json_escape("crème brûlée ❤"), "crème brûlée ❤");
}

#[test]
fn payload_of_no_messages_is_exact() {
    let messages: Vec<ChatMessage> = Vec::new();
    assert_eq!(chat_payload("m", &messages), "{\"model\":\"m\",\"messages\":[]}");
}

#[test]
fn payload_of_two_messages_is_exact() {
    let messages = vec![
        ChatMessage { role: "system".to_string(), content: "be brief".to_string() },
        ChatMessage { role: "user".to_string(), content: "say \"hi\"".to_string() },
    ];
    assert_eq!(
        chat_payload("gpt-3.5-turbo", &messages),
        "{\"model\":\"gpt-3.5-turbo\",\"messages\":[{\"role\":\"system\",\"content\":\"be brief\"},{\"role\":\"user\",\"content\":\"say \\\"hi\\\"\"}]}"
    );
}

#[test]
fn payload_is_valid_json_and_round_trips() {
    let messages = vec![
        ChatMessage { role: "system".to_string(), content: "line one\nline \"two\"\\end".to_string() },
        ChatMessage { role: "user".to_string(), content: "façade\t\u{2} fin".to_string() },
    ];
    let payload = chat_payload("gpt-3.5-turbo", &messages);
    let value: serde_json::Value = serde_json::from_str(&payload).expect("payload must be valid JSON");
    assert_eq!(value["model"].as_str().unwrap(), "gpt-3.5-turbo");
    let parsed = value["messages"].as_array().unwrap();
    assert_eq!(parsed.len(), 2);
    assert_eq!(parsed[0]["role"].as_str().unwrap(), "system");
    assert_eq!(parsed[0]["content"].as_str().unwrap(), "line one\nline \"two\"\\end");
    assert_eq!(parsed[1]["role"].as_str().unwrap(), "user");
    assert_eq!(parsed[1]["content"].as_str().unwrap(), "façade\t\u{2} fin");
}
