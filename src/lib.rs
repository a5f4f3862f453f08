//! A webhook relay for an HTTP-triggered component, built around a typed
//! request/response adapter.
//!
//! - `headers`: a header multimap whose names compare ignoring ASCII case.
//! - `settings`: the configuration read from the reserved settings header.
//! - `body`: the codecs that turn bodies into typed values and back.
//! - `adapter`: runs a typed handler and answers each request exactly once,
//!   with a uniform error report on every failure.
//! - `builder`: a step-by-step response builder.
//! - `reader`: the decisions of reading a request body in chunks.
//! - `head`: checks the host's description of a request.
//! - `relay`: the handler that posts a request's message to a webhook.
pub mod adapter;
pub mod body;
pub mod builder;
pub mod head;
pub mod headers;
pub mod json;
pub mod message;
pub mod reader;
pub mod relay;
pub mod settings;
pub mod text;
