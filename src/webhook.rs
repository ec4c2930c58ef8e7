//! The per-request pipeline: authenticate the delivery, then decode and route
//! its event. Every failure is a client error; the only state is the secret.
use vstd::prelude::*;

use crate::payload::{payload_outcome, Payload, PayloadError, PayloadErrorView, PayloadView};
use crate::json::string_member_of;
use crate::payload::{action_named, decode_of, event_kind_named, issue_comment_of};
use crate::signature::{
    is_hex_text, law_signed_body_accepted, signature_header, signature_prefix, signature_verdict,
    verify_signature, SignatureError,
};
use crate::text::{text_of, utf8_text};

verus! {

/// The event dispatcher: the event-type header picks the payload shape that
/// the body must have. A missing header is refused.
pub open spec fn dispatch_outcome(event_type: Option<Seq<char>>, body: Seq<char>) -> Result<
    PayloadView,
    PayloadErrorView,
> {
    match event_type {
        None => Err(PayloadErrorView::MissingEventType),
        Some(t) => payload_outcome(body, t),
    }
}

/// Decodes and routes one verified delivery by its event-type header.
pub fn dispatch(event_type: Option<&str>, body: &str) -> (r: Result<Payload, PayloadError>)
    ensures
        crate::payload::payload_result_view(r) == dispatch_outcome(text_of(event_type), body@),
{
    match event_type {
        None => Err(PayloadError::MissingEventType),
        Some(t) => Payload::from(body, t),
    }
}

/// Why a request was refused. Each becomes the same `400 Bad Request`.
#[derive(Debug)]
pub enum Rejection {
    /// The delivery failed authentication.
    Signature(SignatureError),
    /// The body is not UTF-8 text.
    NotUtf8,
    /// The event could not be decoded or is of an unhandled type.
    Event(PayloadError),
}

pub enum RejectionView {
    Signature(SignatureError),
    NotUtf8,
    Event(PayloadErrorView),
}

impl View for Rejection {
    type V = RejectionView;

    open spec fn view(&self) -> RejectionView {
        match self {
            Rejection::Signature(e) => RejectionView::Signature(*e),
            Rejection::NotUtf8 => RejectionView::NotUtf8,
            Rejection::Event(e) => RejectionView::Event(e@),
        }
    }
}

pub open spec fn request_result_view(r: Result<Payload, Rejection>) -> Result<
    PayloadView,
    RejectionView,
> {
    match r {
        Ok(p) => Ok(p@),
        Err(e) => Err(e@),
    }
}

/// What one request comes to: the signature is checked over the raw body
/// first, and only an authenticated UTF-8 body is dispatched.
pub open spec fn request_outcome(
    key: Seq<u8>,
    signature: Option<Seq<char>>,
    event_type: Option<Seq<char>>,
    body: Seq<u8>,
) -> Result<PayloadView, RejectionView> {
    match signature_verdict(key, signature, body) {
        Err(e) => Err(RejectionView::Signature(e)),
        Ok(()) => if !vstd::utf8::valid_utf8(body) {
            Err(RejectionView::NotUtf8)
        } else {
            match dispatch_outcome(event_type, vstd::utf8::decode_utf8(body)) {
                Ok(v) => Ok(v),
                Err(e) => Err(RejectionView::Event(e)),
            }
        },
    }
}

/// The HTTP status of an outcome: `200` for a handled event, `400` otherwise.
pub open spec fn status_of<T, E>(r: Result<T, E>) -> u16 {
    if r is Ok {
        200
    } else {
        400
    }
}

/// The HTTP status that answers a request.
pub fn response_status(r: &Result<Payload, Rejection>) -> (s: u16)
    ensures
        s == status_of(*r),
{
    match r {
        Ok(_) => 200,
        Err(_) => 400,
    }
}

/// The webhook receiver, configured with the shared secret.
pub struct GithubWebhook {
    secret: String,
}

/// The receiver in front of a downstream handler `E`: only authenticated
/// deliveries reach it.
pub struct GithubWebhookImpl<E> {
    next: E,
    secret: String,
}

impl GithubWebhook {
    /// The configured secret.
    pub closed spec fn secret_text(&self) -> Seq<char> {
        self.secret@
    }

    /// The HMAC key: the secret's UTF-8 bytes.
    pub open spec fn key(&self) -> Seq<u8> {
        vstd::utf8::encode_utf8(self.secret_text())
    }

    pub fn new(secret: &str) -> (r: Self)
        ensures
            r.secret_text() == secret@,
    {
        GithubWebhook { secret: secret.to_owned() }
    }

    /// Puts the signature check in front of `next`, with this secret.
    pub fn transform<E>(&self, next: E) -> (r: GithubWebhookImpl<E>)
        ensures
            r.endpoint() == next,
            r.secret_text() == self.secret_text(),
    {
        GithubWebhookImpl { next, secret: self.secret.clone() }
    }

    /// Checks a delivery's signature header against its raw body.
    pub fn verify(&self, signature: Option<&str>, body: &[u8]) -> (r: Result<(), SignatureError>)
        ensures
            r == signature_verdict(self.key(), text_of(signature), body@),
    {
        verify_signature(self.secret.as_str().as_bytes(), signature, body)
    }

    /// Answers one request: authenticates it, then decodes and routes its
    /// event. The result depends on this request's headers and body alone.
    pub fn handle(&self, signature: Option<&str>, event_type: Option<&str>, body: &[u8]) -> (r:
        Result<Payload, Rejection>)
        ensures
            request_result_view(r) == request_outcome(
                self.key(),
                text_of(signature),
                text_of(event_type),
                body@,
            ),
    {
        match self.verify(signature, body) {
            Err(e) => Err(Rejection::Signature(e)),
            Ok(()) => match utf8_text(body) {
                None => Err(Rejection::NotUtf8),
                Some(text) => match dispatch(event_type, text) {
                    Ok(p) => Ok(p),
                    Err(e) => Err(Rejection::Event(e)),
                },
            },
        }
    }
}

impl<E> GithubWebhookImpl<E> {
    pub closed spec fn endpoint(&self) -> E {
        self.next
    }

    pub closed spec fn secret_text(&self) -> Seq<char> {
        self.secret@
    }

    pub open spec fn key(&self) -> Seq<u8> {
        vstd::utf8::encode_utf8(self.secret_text())
    }

    /// The downstream handler.
    pub fn next(&self) -> (r: &E)
        ensures
            *r == self.endpoint(),
    {
        &self.next
    }

    /// Decides whether a delivery may go on to the downstream handler.
    pub fn authorize(&self, signature: Option<&str>, body: &[u8]) -> (r: Result<
        (),
        SignatureError,
    >)
        ensures
            r == signature_verdict(self.key(), text_of(signature), body@),
    {
        verify_signature(self.secret.as_str().as_bytes(), signature, body)
    }
}

/// A request without a signature header is refused with `400`, whatever its
/// body and event type.
pub proof fn law_unsigned_request_refused(
    key: Seq<u8>,
    event_type: Option<Seq<char>>,
    body: Seq<u8>,
)
    ensures
        request_outcome(key, None, event_type, body) == Err::<PayloadView, RejectionView>(
            RejectionView::Signature(SignatureError::Missing),
        ),
        status_of(request_outcome(key, None, event_type, body)) == 400,
{
}

/// A signature header that does not start with `sha256=` is refused with `400`.
pub proof fn law_unprefixed_signature_refused(
    key: Seq<u8>,
    signature: Seq<char>,
    event_type: Option<Seq<char>>,
    body: Seq<u8>,
)
    requires
        !signature_prefix().is_prefix_of(signature),
    ensures
        request_outcome(key, Some(signature), event_type, body) == Err::<
            PayloadView,
            RejectionView,
        >(RejectionView::Signature(SignatureError::BadFormat)),
        status_of(request_outcome(key, Some(signature), event_type, body)) == 400,
{
}

/// A signature header whose digest after `sha256=` is not hex is refused with
/// `400`.
pub proof fn law_bad_hex_refused(
    key: Seq<u8>,
    digest: Seq<char>,
    event_type: Option<Seq<char>>,
    body: Seq<u8>,
)
    requires
        !is_hex_text(digest),
    ensures
        request_outcome(key, Some(signature_prefix() + digest), event_type, body) == Err::<
            PayloadView,
            RejectionView,
        >(RejectionView::Signature(SignatureError::BadHex)),
        status_of(request_outcome(key, Some(signature_prefix() + digest), event_type, body))
            == 400,
{
    let h = signature_prefix() + digest;
    assert(h.subrange(0, 7) =~= signature_prefix());
    assert(h.skip(7) =~= digest);
}

/// A signed `ping` is answered with `200`, whatever fields its body has.
pub proof fn law_signed_ping_accepted(key: Seq<u8>, body: Seq<u8>)
    requires
        vstd::utf8::valid_utf8(body),
    ensures
        request_outcome(key, Some(signature_header(key, body)), Some("ping"@), body) == Ok::<
            PayloadView,
            RejectionView,
        >(PayloadView::Ping),
        status_of(request_outcome(key, Some(signature_header(key, body)), Some("ping"@), body))
            == 200,
{
    law_signed_body_accepted(key, body);
}

/// A signed `issue_comment` whose body has the issue-comment fields is
/// answered with `200`, and the decoded action is the one that the body's
/// `action` member names.
pub proof fn law_signed_issue_comment_accepted(key: Seq<u8>, body: Seq<u8>)
    requires
        vstd::utf8::valid_utf8(body),
        issue_comment_of(vstd::utf8::decode_utf8(body)) is Some,
    ensures
        ({
            let r = request_outcome(
                key,
                Some(signature_header(key, body)),
                Some("issue_comment"@),
                body,
            );
            &&& status_of(r) == 200
            &&& r matches Ok(PayloadView::IssueComment(f))
            &&& string_member_of(vstd::utf8::decode_utf8(body), "action"@) matches Some(name)
            &&& action_named(name) == Some(f.0)
        }),
{
    law_signed_body_accepted(key, body);
    reveal_strlit("issue_comment");
    reveal_strlit("ping");
    reveal_strlit("issues");
    assert("issue_comment"@.len() == 13);
    assert("ping"@.len() == 4);
    assert("issues"@.len() == 6);
    assert("issue_comment"@ != "ping"@);
    assert("issue_comment"@ != "issues"@);
    let text = vstd::utf8::decode_utf8(body);
    assert(event_kind_named("issue_comment"@) == Some(crate::payload::EventKind::IssueComment));
    let f = issue_comment_of(text)->0;
    assert(crate::payload::action_of(text) == Some(f.0));
}

/// A signed delivery of a handled event type whose body lacks a field that
/// the type asks for is refused with `400`.
pub proof fn law_misshapen_body_refused(key: Seq<u8>, event_type: Seq<char>, body: Seq<u8>)
    requires
        event_kind_named(event_type) matches Some(kind) && decode_of(
            kind,
            vstd::utf8::decode_utf8(body),
        ) is None,
    ensures
        status_of(request_outcome(key, Some(signature_header(key, body)), Some(event_type), body))
            == 400,
        vstd::utf8::valid_utf8(body) ==> request_outcome(
            key,
            Some(signature_header(key, body)),
            Some(event_type),
            body,
        ) == Err::<PayloadView, RejectionView>(
            RejectionView::Event(PayloadErrorView::InvalidBody),
        ),
{
    law_signed_body_accepted(key, body);
}

/// A signed delivery of an event type without a payload shape is refused
/// with `400`, naming the type in the server's log.
pub proof fn law_unhandled_event_refused(key: Seq<u8>, event_type: Seq<char>, body: Seq<u8>)
    requires
        event_kind_named(event_type) is None,
    ensures
        status_of(request_outcome(key, Some(signature_header(key, body)), Some(event_type), body))
            == 400,
        vstd::utf8::valid_utf8(body) ==> request_outcome(
            key,
            Some(signature_header(key, body)),
            Some(event_type),
            body,
        ) == Err::<PayloadView, RejectionView>(
            RejectionView::Event(PayloadErrorView::UnhandledEventType(event_type)),
        ),
{
    law_signed_body_accepted(key, body);
}

} // verus!
