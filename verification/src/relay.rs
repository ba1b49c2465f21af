//! The relay's decisions: which outbound request each endpoint plans, what
//! error each failure maps to, and what reply the caller receives for each
//! outcome of the single upstream call. The embedding application only
//! performs the planned call and hands its outcome back.
use vstd::prelude::*;

use crate::json::{chat_payload, chat_payload_text, ChatMessage};
use crate::prompt::{get_prompt, prompt_text};

verus! {

/// Why a relayed request failed before or during the upstream call.
#[derive(Debug)]
pub enum RelayError {
    /// The server-held credential is absent from the configuration.
    MissingCredential,
    /// The upstream could not be contacted; the payload describes the
    /// transport failure.
    UpstreamTransport(String),
    /// The upstream answered but its response body could not be read; the
    /// payload describes the failure.
    UpstreamBodyRead(String),
}

/// The reply handed back to the inbound caller: a status code and a body.
pub struct HttpReply {
    pub status: u16,
    pub body: String,
}

/// The body sent when the credential is missing.
pub open spec fn missing_credential_text() -> Seq<char> {
    "API key not set"@
}

/// The body sent when the upstream could not be contacted, given the
/// transport failure's description.
pub open spec fn transport_failure_text(e: Seq<char>) -> Seq<char> {
    "Error contacting OpenAI API: "@ + e
}

/// The body sent when the upstream's response body could not be read, given
/// the failure's description.
pub open spec fn body_read_failure_text(e: Seq<char>) -> Seq<char> {
    "Error reading response from OpenAI API: "@ + e
}

/// The HTTP method of the planned outbound call.
pub enum HttpMethod {
    Get,
    Post,
}

/// Everything the upstream call needs: the method and address, the
/// authorization header's value, and — for a call that sends one — the JSON
/// body. Planning a request performs no network work.
pub struct OutboundRequest {
    pub method: HttpMethod,
    pub url: String,
    pub auth_header: String,
    pub json_body: Option<String>,
}

/// The upstream chat-completion address.
pub open spec fn chat_completions_url() -> Seq<char> {
    "https://api.openai.com/v1/chat/completions"@
}

/// The upstream model-listing address.
pub open spec fn models_url() -> Seq<char> {
    "https://api.openai.com/v1/models"@
}

/// The authorization header's value for a given credential.
pub open spec fn bearer_header(key: Seq<char>) -> Seq<char> {
    "Bearer "@ + key
}

/// The model every chat-completion call names.
pub open spec fn model_name() -> Seq<char> {
    "gpt-3.5-turbo"@
}

/// The fixed system message that opens every conversation.
pub open spec fn system_instruction() -> Seq<char> {
    "You are a helpful assistant."@
}

/// The two-message conversation sent for an item list: the fixed system
/// instruction, then the built prompt as the user message.
pub open spec fn recipe_messages(items: Seq<Seq<char>>) -> Seq<(Seq<char>, Seq<char>)> {
    seq![("system"@, system_instruction()), ("user"@, prompt_text(items))]
}

/// The outbound payload planned for an item list: a function of that list
/// alone.
pub open spec fn recipe_payload_text(items: Seq<Seq<char>>) -> Seq<char> {
    chat_payload_text(model_name(), recipe_messages(items))
}

/// Concurrent requests cannot interfere through the library: the payload
/// planned for a request is a function of that request's own item list alone,
/// so equal lists plan equal payloads and no other request's list enters into
/// it.
pub proof fn lemma_payload_depends_on_own_items(a: Seq<Seq<char>>, b: Seq<Seq<char>>)
    requires
        a == b,
    ensures
        recipe_payload_text(a) == recipe_payload_text(b),
{
}

/// Plans the upstream call for the recipe endpoint. Without a credential it
/// fails at once — no request is produced, so no outbound call can be
/// attempted; with one, it plans exactly one POST to the chat-completion
/// address carrying the bearer header and the payload built from the items.
pub fn plan_recipe_request(api_key: &Option<String>, items: &Vec<String>) -> (r: Result<
    OutboundRequest,
    RelayError,
>)
    ensures
        r is Err <==> api_key is None,
        api_key is None ==> r == Err::<OutboundRequest, RelayError>(RelayError::MissingCredential),
        api_key matches Some(key) ==> (r matches Ok(req) && req.method is Post && req.url@
            == chat_completions_url() && req.auth_header@ == bearer_header(key@)
            && (req.json_body matches Some(body) && body@ == recipe_payload_text(
            items.deep_view(),
        ))),
{
    match api_key {
        None => Err(RelayError::MissingCredential),
        Some(key) => {
            let mut auth = String::from_str("Bearer ");
            auth.append(key.as_str());
            let mut messages: Vec<ChatMessage> = Vec::new();
            messages.push(
                ChatMessage {
                    role: String::from_str("system"),
                    content: String::from_str("You are a helpful assistant."),
                },
            );
            messages.push(
                ChatMessage { role: String::from_str("user"), content: get_prompt(items) },
            );
            proof {
                assert(messages.deep_view() =~~= recipe_messages(items.deep_view()));
            }
            let body = chat_payload("gpt-3.5-turbo", &messages);
            Ok(
                OutboundRequest {
                    method: HttpMethod::Post,
                    url: String::from_str("https://api.openai.com/v1/chat/completions"),
                    auth_header: auth,
                    json_body: Some(body),
                },
            )
        },
    }
}

/// Plans the upstream call for the model-listing endpoint. Without a
/// credential it fails at once — no request is produced, so no outbound call
/// can be attempted; with one, it plans exactly one bodyless GET to the
/// model-listing address carrying the bearer header.
pub fn plan_models_request(api_key: &Option<String>) -> (r: Result<OutboundRequest, RelayError>)
    ensures
        r is Err <==> api_key is None,
        api_key is None ==> r == Err::<OutboundRequest, RelayError>(RelayError::MissingCredential),
        api_key matches Some(key) ==> (r matches Ok(req) && req.method is Get && req.url@
            == models_url() && req.auth_header@ == bearer_header(key@) && req.json_body is None),
{
    match api_key {
        None => Err(RelayError::MissingCredential),
        Some(key) => {
            let mut auth = String::from_str("Bearer ");
            auth.append(key.as_str());
            Ok(
                OutboundRequest {
                    method: HttpMethod::Get,
                    url: String::from_str("https://api.openai.com/v1/models"),
                    auth_header: auth,
                    json_body: None,
                },
            )
        },
    }
}

/// Turns the outcome of one upstream call into the reply for the inbound
/// caller: a successful read is relayed verbatim with status 200, every
/// failure becomes a 500 with a descriptive body.
pub fn relay_reply(outcome: Result<String, RelayError>) -> (r: HttpReply)
    ensures
        outcome matches Ok(text) ==> r.status == 200 && r.body@ == text@,
        outcome matches Err(RelayError::MissingCredential) ==> r.status == 500 && r.body@
            == missing_credential_text(),
        outcome matches Err(RelayError::UpstreamTransport(e)) ==> r.status == 500 && r.body@
            == transport_failure_text(e@),
        outcome matches Err(RelayError::UpstreamBodyRead(e)) ==> r.status == 500 && r.body@
            == body_read_failure_text(e@),
{
    match outcome {
        Ok(text) => HttpReply { status: 200, body: text },
        Err(RelayError::MissingCredential) => HttpReply {
            status: 500,
            body: String::from_str("API key not set"),
        },
        Err(RelayError::UpstreamTransport(e)) => {
            let mut body = String::from_str("Error contacting OpenAI API: ");
            body.append(e.as_str());
            HttpReply { status: 500, body }
        },
        Err(RelayError::UpstreamBodyRead(e)) => {
            let mut body = String::from_str("Error reading response from OpenAI API: ");
            body.append(e.as_str());
            HttpReply { status: 500, body }
        },
    }
}

} // verus!
