//! The generic decode: octocrab's webhook envelope, whose event-type header
//! picks the payload variant and catches types it does not know.
use vstd::prelude::*;

use crate::payload::{event_kind_named, EventKind, PayloadError};
use octocrab::models::webhook_events::{WebhookEvent, WebhookEventPayload};

verus! {

#[verifier::external_type_specification]
#[verifier::external_body]
pub struct ExWebhookEvent(WebhookEvent);

#[verifier::external_type_specification]
#[verifier::external_body]
pub struct ExJsonError(serde_json::Error);

/// Whether octocrab's envelope decodes `body` under the event-type header
/// `event_type`.
pub uninterp spec fn envelope_decodes(event_type: Seq<char>, body: Seq<char>) -> bool;

/// A header value read as the bare type name: no quote and no backslash.
pub open spec fn is_plain_event_type(t: Seq<char>) -> bool {
    forall|i: int| 0 <= i < t.len() ==> #[trigger] t[i] != '"' && t[i] != '\\'
}

/// Relies on `WebhookEvent::try_from_header_and_body`: a bare header names
/// the payload variant by its snake_case name, any other name falls into a
/// catch-all variant, and the body must decode as the variant named.
#[verifier::external_body]
fn decode_envelope(event_type: &str, body: &str) -> (r: Result<
    (Option<EventKind>, WebhookEvent),
    serde_json::Error,
>)
    ensures
        r is Ok <==> envelope_decodes(event_type@, body@),
        r is Ok && is_plain_event_type(event_type@) ==> r->Ok_0.0 == event_kind_named(
            event_type@,
        ),
{
    let event = WebhookEvent::try_from_header_and_body(event_type, body)?;
    let kind = match &event.specific {
        WebhookEventPayload::Ping(_) => Some(EventKind::Ping),
        WebhookEventPayload::Issues(_) => Some(EventKind::Issues),
        WebhookEventPayload::IssueComment(_) => Some(EventKind::IssueComment),
        WebhookEventPayload::PullRequest(_) => Some(EventKind::PullRequest),
        WebhookEventPayload::Push(_) => Some(EventKind::Push),
        _ => None,
    };
    Ok((kind, event))
}

/// The result refuses the event type `t` by name.
pub open spec fn refuses_type<T>(r: Result<T, PayloadError>, t: Seq<char>) -> bool {
    match r {
        Err(PayloadError::UnhandledEventType(n)) => n@ == t,
        _ => false,
    }
}

/// Decodes a verified delivery through octocrab's generic envelope and keeps
/// it only if its type is one of the handled kinds.
pub fn dispatch_envelope(event_type: Option<&str>, body: &str) -> (r: Result<
    (EventKind, WebhookEvent),
    PayloadError,
>)
    ensures
        event_type is None ==> (r is Err && r->Err_0 is MissingEventType),
        event_type matches Some(t) ==> {
            &&& !envelope_decodes(t@, body@) ==> (r is Err && r->Err_0 is InvalidBody)
            &&& envelope_decodes(t@, body@) ==> (r is Ok || refuses_type(r, t@))
            &&& envelope_decodes(t@, body@) && is_plain_event_type(t@) ==> match event_kind_named(
                t@,
            ) {
                Some(k) => r is Ok && r->Ok_0.0 == k,
                None => refuses_type(r, t@),
            }
        },
{
    match event_type {
        None => Err(PayloadError::MissingEventType),
        Some(t) => match decode_envelope(t, body) {
            Err(_) => Err(PayloadError::InvalidBody),
            Ok((Some(kind), event)) => Ok((kind, event)),
            Ok((None, _)) => Err(PayloadError::UnhandledEventType(t.to_owned())),
        },
    }
}

} // verus!
