//! Authentication and typed dispatch of signed webhook deliveries.
//!
//! `signature` checks the `sha256=<hex>` HMAC header of a delivery against a
//! shared secret. `payload` decodes the body strictly into the shape that the
//! event-type header names, reading members through `json`; `envelope` is the
//! generic decode through octocrab's webhook envelope. `webhook` composes the
//! check and the decode into one decision per request.
pub mod envelope;
pub mod json;
pub mod payload;
pub mod signature;
pub mod text;
pub mod webhook;

pub use payload::{
    Action, EventKind, IssueCommentPayload, IssuePayload, Payload, PayloadError, PullRequestPayload,
    PushPayload,
};
pub use signature::SignatureError;
pub use webhook::{dispatch, response_status, GithubWebhook, GithubWebhookImpl, Rejection};

