use recipe_relay::prompt::get_prompt;
use recipe_relay::relay::{
    plan_models_request, plan_recipe_request, relay_reply, HttpMethod, RelayError,
};

#[test]
fn recipe_plan_without_credential_fails_without_a_request() {
    let items = vec!["eggs".to_string()];
    let planned = plan_recipe_request(&None, &items);
    assert!(matches!(planned, Err(RelayError::MissingCredential)));
}

#[test]
fn models_plan_without_credential_fails_without_a_request() {
    let planned = plan_models_request(&None);
    assert!(matches!(planned, Err(RelayError::MissingCredential)));
}

#[test]
fn missing_credential_reply_is_a_server_error() {
    let reply = relay_reply(Err(RelayError::MissingCredential));
    assert_eq!(reply.status, 500);
    assert_eq!(reply.body, "API key not set");
}

#[test]
fn recipe_plan_with_credential_targets_chat_completions() {
    let items = vec!["eggs".to_string(), "flour".to_string()];
    let key = Some("SECRET-REDACTED".to_string());
    let planned = plan_recipe_request(&key, &items).expect("a credential must yield a plan");
    assert!(matches!(planned.method, HttpMethod::Post));
    assert_eq!(planned.url, "https://api.openai.com/v1/chat/completions");
    assert_eq!(planned.auth_header, "Bearer SECRET-REDACTED");
    let body = planned.json_body.expect("the chat call must carry a body");
    let value: serde_json::Value = serde_json::from_str(&body).expect("body must be valid JSON");
    assert_eq!(value["model"].as_str().unwrap(), "gpt-3.5-turbo");
    let messages = value["messages"].as_array().unwrap();
    assert_eq!(messages.len(), 2);
    assert_eq!(messages[0]["role"].as_str().unwrap(), "system");
    assert_eq!(messages[0]["content"].as_str().unwrap(), "You are a helpful assistant.");
    assert_eq!(messages[1]["role"].as_str().unwrap(), "user");
    assert_eq!(messages[1]["content"].as_str().unwrap(), get_prompt(&items));
}

#[test]
fn models_plan_with_credential_targets_model_listing() {
    let key = Some("SECRET-REDACTED".to_string());
    let planned = plan_models_request(&key).expect("a credential must yield a plan");
    assert!(matches!(planned.method, HttpMethod::Get));
    assert_eq!(planned.url, "https://api.openai.com/v1/models");
    assert_eq!(planned.auth_header, "Bearer SECRET-REDACTED");
    assert!(planned.json_body.is_none());
}

#[test]
fn successful_upstream_body_is_relayed_verbatim() {
    let reply = relay_reply(Ok("{\"choices\":[]}".to_string()));
    assert_eq!(reply.status, 200);
    assert_eq!(reply.body, "{\"choices\":[]}");
}

#[test]
fn transport_failure_reply_describes_the_failure() {
    let reply = relay_reply(Err(RelayError::UpstreamTransport(
        "connection refused".to_string(),
    )));
    assert_eq!(reply.status, 500);
    assert_eq!(reply.body, "Error contacting OpenAI API: connection refused");
}

#[test]
fn body_read_failure_reply_describes_the_failure() {
    let reply = relay_reply(Err(RelayError::UpstreamBodyRead(
        "unexpected end of stream".to_string(),
    )));
    assert_eq!(reply.status, 500);
    assert_eq!(reply.body, "Error reading response from OpenAI API: unexpected end of stream");
}

#[test]
fn plans_for_distinct_item_lists_do_not_interfere() {
    let key = Some("SECRET-REDACTED".to_string());
    let first_items = vec!["eggs".to_string()];
    let second_items = vec!["tofu".to_string()];
    let first = plan_recipe_request(&key, &first_items).unwrap().json_body.unwrap();
    let second = plan_recipe_request(&key, &second_items).unwrap().json_body.unwrap();
    assert!(first.contains("eggs") && !first.contains("tofu"));
    assert!(second.contains("tofu") && !second.contains("eggs"));
    let first_again = plan_recipe_request(&key, &first_items).unwrap().json_body.unwrap();
    assert_eq!(first, first_again);
}
