//! A small HTTP relay library: it builds the prompt and the outbound request
//! for a chat-completion upstream, and maps the outcome of that call to the
//! reply the caller sees. The network itself is driven by the embedding
//! application; everything the library decides is specified and verified.
pub mod config;
pub mod json;
pub mod prompt;
pub mod relay;
