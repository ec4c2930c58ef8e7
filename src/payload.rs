//! The typed events: the action verbs, one payload shape per event type, and
//! the decode from the event-type header and the JSON body.
use vstd::prelude::*;

use crate::json::{
    bool_member, bool_member_of, nested_string, nested_string_of, nested_u64, nested_u64_of,
    string_member, string_member_of,
};
use crate::text::same_text;

verus! {

/// The action that the webhook was sent for, named in lower case in the body.
#[derive(Debug, Clone, Copy, PartialEq, Eq, Structural)]
pub enum Action {
    /// The something was created.
    Created,
    /// The something has been edited.
    Edited,
    /// The something has been deleted.
    Deleted,
    /// The something has been opened.
    Opened,
    /// The something has been closed.
    Closed,
    /// The something has been reopened.
    Reopened,
    /// The something has been synchronized.
    Synchronized,
}

pub open spec fn action_named(n: Seq<char>) -> Option<Action> {
    if n == "created"@ {
        Some(Action::Created)
    } else if n == "edited"@ {
        Some(Action::Edited)
    } else if n == "deleted"@ {
        Some(Action::Deleted)
    } else if n == "opened"@ {
        Some(Action::Opened)
    } else if n == "closed"@ {
        Some(Action::Closed)
    } else if n == "reopened"@ {
        Some(Action::Reopened)
    } else if n == "synchronized"@ {
        Some(Action::Synchronized)
    } else {
        None
    }
}

impl Action {
    /// The action with this lower-case name.
    pub fn from_name(name: &str) -> (r: Option<Action>)
        ensures
            r == action_named(name@),
    {
        if same_text(name, "created") {
            Some(Action::Created)
        } else if same_text(name, "edited") {
            Some(Action::Edited)
        } else if same_text(name, "deleted") {
            Some(Action::Deleted)
        } else if same_text(name, "opened") {
            Some(Action::Opened)
        } else if same_text(name, "closed") {
            Some(Action::Closed)
        } else if same_text(name, "reopened") {
            Some(Action::Reopened)
        } else if same_text(name, "synchronized") {
            Some(Action::Synchronized)
        } else {
            None
        }
    }
}

/// The event types that have a payload shape, keyed by the event-type header.
#[derive(Debug, Clone, Copy, PartialEq, Eq, Structural)]
pub enum EventKind {
    Ping,
    Issues,
    IssueComment,
    PullRequest,
    Push,
}

pub open spec fn event_kind_named(n: Seq<char>) -> Option<EventKind> {
    if n == "ping"@ {
        Some(EventKind::Ping)
    } else if n == "issues"@ {
        Some(EventKind::Issues)
    } else if n == "issue_comment"@ {
        Some(EventKind::IssueComment)
    } else if n == "pull_request"@ {
        Some(EventKind::PullRequest)
    } else if n == "push"@ {
        Some(EventKind::Push)
    } else {
        None
    }
}

impl EventKind {
    /// The event kind that an event-type header names; `None` for any type
    /// without a payload shape.
    pub fn from_name(name: &str) -> (r: Option<EventKind>)
        ensures
            r == event_kind_named(name@),
    {
        if same_text(name, "ping") {
            Some(EventKind::Ping)
        } else if same_text(name, "issues") {
            Some(EventKind::Issues)
        } else if same_text(name, "issue_comment") {
            Some(EventKind::IssueComment)
        } else if same_text(name, "pull_request") {
            Some(EventKind::PullRequest)
        } else if same_text(name, "push") {
            Some(EventKind::Push)
        } else {
            None
        }
    }
}

/// A comment was created, edited or deleted on an issue.
#[derive(Debug)]
pub struct IssueCommentPayload {
    /// The action that triggered the webhook.
    pub action: Action,
    /// Login of the account that triggered the action (`sender.login`).
    pub sender: String,
    /// Number of the issue the comment was placed on (`issue.number`).
    pub issue: u64,
    /// Id of the comment involved (`comment.id`).
    pub comment: u64,
    /// Full name of the repository (`repository.full_name`).
    pub repository: String,
}

/// Something happened to an issue.
#[derive(Debug)]
pub struct IssuePayload {
    /// The action that triggered the webhook.
    pub action: Action,
    /// Login of the account that triggered the action (`sender.login`).
    pub sender: String,
    /// Number of the issue (`issue.number`).
    pub issue: u64,
    /// Full name of the repository (`repository.full_name`).
    pub repository: String,
}

/// Something happened to a pull request.
#[derive(Debug)]
pub struct PullRequestPayload {
    /// The action that triggered the webhook.
    pub action: Action,
    /// Login of the account that triggered the action (`sender.login`).
    pub sender: String,
    /// Number of the pull request (`pull_request.number`).
    pub pull_request: u64,
    /// Full name of the repository (`repository.full_name`).
    pub repository: String,
}

/// Commits were pushed to a ref.
#[derive(Debug)]
pub struct PushPayload {
    /// The full ref that was pushed (`ref`), such as `refs/heads/main`.
    pub git_ref: String,
    /// The commit the ref pointed to before the push.
    pub before: String,
    /// The commit the ref points to after the push.
    pub after: String,
    /// Whether the push created the ref.
    pub created: bool,
    /// Whether the push deleted the ref.
    pub deleted: bool,
    /// Whether the push was forced.
    pub forced: bool,
    /// URL comparing the commits before and after the push.
    pub compare: String,
}

/// The fields of an issue comment: action, sender, issue, comment, repository.
pub type IssueCommentFields = (Action, Seq<char>, u64, u64, Seq<char>);

/// The fields of an issue or a pull request: action, sender, number, repository.
pub type ItemFields = (Action, Seq<char>, u64, Seq<char>);

/// The fields of a push: ref, before, after, created, deleted, forced, compare.
pub type PushFields = (Seq<char>, Seq<char>, Seq<char>, bool, bool, bool, Seq<char>);

impl View for IssueCommentPayload {
    type V = IssueCommentFields;

    open spec fn view(&self) -> IssueCommentFields {
        (self.action, self.sender@, self.issue, self.comment, self.repository@)
    }
}

impl View for IssuePayload {
    type V = ItemFields;

    open spec fn view(&self) -> ItemFields {
        (self.action, self.sender@, self.issue, self.repository@)
    }
}

impl View for PullRequestPayload {
    type V = ItemFields;

    open spec fn view(&self) -> ItemFields {
        (self.action, self.sender@, self.pull_request, self.repository@)
    }
}

impl View for PushPayload {
    type V = PushFields;

    open spec fn view(&self) -> PushFields {
        (
            self.git_ref@,
            self.before@,
            self.after@,
            self.created,
            self.deleted,
            self.forced,
            self.compare@,
        )
    }
}

/// A decoded event: exactly one of the handled event types.
#[derive(Debug)]
pub enum Payload {
    Ping,
    Issue(IssuePayload),
    IssueComment(IssueCommentPayload),
    PullRequest(PullRequestPayload),
    Push(PushPayload),
}

/// What a decoded event holds, as plain values.
pub enum PayloadView {
    Ping,
    Issue(ItemFields),
    IssueComment(IssueCommentFields),
    PullRequest(ItemFields),
    Push(PushFields),
}

impl View for Payload {
    type V = PayloadView;

    open spec fn view(&self) -> PayloadView {
        match self {
            Payload::Ping => PayloadView::Ping,
            Payload::Issue(p) => PayloadView::Issue(p@),
            Payload::IssueComment(p) => PayloadView::IssueComment(p@),
            Payload::PullRequest(p) => PayloadView::PullRequest(p@),
            Payload::Push(p) => PayloadView::Push(p@),
        }
    }
}

/// Why a body could not become an event.
#[derive(Debug)]
pub enum PayloadError {
    /// The request carries no event-type header.
    MissingEventType,
    /// The event-type header names a type without a payload shape.
    UnhandledEventType(String),
    /// The body does not have the shape that its event type asks for.
    InvalidBody,
}

/// The action named by the body's `action` member.
pub open spec fn action_of(body: Seq<char>) -> Option<Action> {
    match string_member_of(body, "action"@) {
        Some(n) => action_named(n),
        None => None,
    }
}

pub open spec fn issue_comment_of(body: Seq<char>) -> Option<IssueCommentFields> {
    match (
        action_of(body),
        nested_string_of(body, "sender"@, "login"@),
        nested_u64_of(body, "issue"@, "number"@),
        nested_u64_of(body, "comment"@, "id"@),
        nested_string_of(body, "repository"@, "full_name"@),
    ) {
        (Some(a), Some(s), Some(i), Some(c), Some(r)) => Some((a, s, i, c, r)),
        _ => None,
    }
}

/// The fields of an issue or pull request event; `item` names the member that
/// holds the number.
pub open spec fn item_of(body: Seq<char>, item: Seq<char>) -> Option<ItemFields> {
    match (
        action_of(body),
        nested_string_of(body, "sender"@, "login"@),
        nested_u64_of(body, item, "number"@),
        nested_string_of(body, "repository"@, "full_name"@),
    ) {
        (Some(a), Some(s), Some(n), Some(r)) => Some((a, s, n, r)),
        _ => None,
    }
}

pub open spec fn push_of(body: Seq<char>) -> Option<PushFields> {
    match (
        string_member_of(body, "ref"@),
        string_member_of(body, "before"@),
        string_member_of(body, "after"@),
        bool_member_of(body, "created"@),
        bool_member_of(body, "deleted"@),
        bool_member_of(body, "forced"@),
        string_member_of(body, "compare"@),
    ) {
        (Some(g), Some(b), Some(a), Some(c), Some(d), Some(f), Some(u)) => Some(
            (g, b, a, c, d, f, u),
        ),
        _ => None,
    }
}

/// What a body decodes to under an event kind; `None` where it lacks a field
/// that the kind asks for. A ping asks for none.
pub open spec fn decode_of(kind: EventKind, body: Seq<char>) -> Option<PayloadView> {
    match kind {
        EventKind::Ping => Some(PayloadView::Ping),
        EventKind::Issues => match item_of(body, "issue"@) {
            Some(f) => Some(PayloadView::Issue(f)),
            None => None,
        },
        EventKind::IssueComment => match issue_comment_of(body) {
            Some(f) => Some(PayloadView::IssueComment(f)),
            None => None,
        },
        EventKind::PullRequest => match item_of(body, "pull_request"@) {
            Some(f) => Some(PayloadView::PullRequest(f)),
            None => None,
        },
        EventKind::Push => match push_of(body) {
            Some(f) => Some(PayloadView::Push(f)),
            None => None,
        },
    }
}

/// A decode error as plain values.
pub enum PayloadErrorView {
    MissingEventType,
    UnhandledEventType(Seq<char>),
    InvalidBody,
}

/// The outcome of decoding `body` under the event-type header `event_type`.
pub open spec fn payload_outcome(body: Seq<char>, event_type: Seq<char>) -> Result<
    PayloadView,
    PayloadErrorView,
> {
    match event_kind_named(event_type) {
        None => Err(PayloadErrorView::UnhandledEventType(event_type)),
        Some(kind) => match decode_of(kind, body) {
            Some(v) => Ok(v),
            None => Err(PayloadErrorView::InvalidBody),
        },
    }
}

impl View for PayloadError {
    type V = PayloadErrorView;

    open spec fn view(&self) -> PayloadErrorView {
        match self {
            PayloadError::MissingEventType => PayloadErrorView::MissingEventType,
            PayloadError::UnhandledEventType(t) => PayloadErrorView::UnhandledEventType(t@),
            PayloadError::InvalidBody => PayloadErrorView::InvalidBody,
        }
    }
}

pub open spec fn payload_result_view(r: Result<Payload, PayloadError>) -> Result<
    PayloadView,
    PayloadErrorView,
> {
    match r {
        Ok(p) => Ok(p@),
        Err(e) => Err(e@),
    }
}

fn action_member(body: &str) -> (r: Option<Action>)
    ensures
        r == action_of(body@),
{
    match string_member(body, "action") {
        Some(n) => Action::from_name(n.as_str()),
        None => None,
    }
}

fn decode_issue_comment(body: &str) -> (r: Option<IssueCommentPayload>)
    ensures
        r is Some <==> issue_comment_of(body@) is Some,
        r matches Some(p) ==> issue_comment_of(body@) == Some(p@),
{
    let action = action_member(body);
    let sender = nested_string(body, "sender", "login");
    let issue = nested_u64(body, "issue", "number");
    let comment = nested_u64(body, "comment", "id");
    let repository = nested_string(body, "repository", "full_name");
    match (action, sender, issue, comment, repository) {
        (Some(action), Some(sender), Some(issue), Some(comment), Some(repository)) => Some(
            IssueCommentPayload { action, sender, issue, comment, repository },
        ),
        _ => None,
    }
}

fn decode_item(body: &str, item: &str) -> (r: Option<(Action, String, u64, String)>)
    ensures
        r is Some <==> item_of(body@, item@) is Some,
        r matches Some(f) ==> item_of(body@, item@) == Some((f.0, f.1@, f.2, f.3@)),
{
    let action = action_member(body);
    let sender = nested_string(body, "sender", "login");
    let number = nested_u64(body, item, "number");
    let repository = nested_string(body, "repository", "full_name");
    match (action, sender, number, repository) {
        (Some(action), Some(sender), Some(number), Some(repository)) => Some(
            (action, sender, number, repository),
        ),
        _ => None,
    }
}

fn decode_push(body: &str) -> (r: Option<PushPayload>)
    ensures
        r is Some <==> push_of(body@) is Some,
        r matches Some(p) ==> push_of(body@) == Some(p@),
{
    let git_ref = string_member(body, "ref");
    let before = string_member(body, "before");
    let after = string_member(body, "after");
    let created = bool_member(body, "created");
    let deleted = bool_member(body, "deleted");
    let forced = bool_member(body, "forced");
    let compare = string_member(body, "compare");
    match (git_ref, before, after, created, deleted, forced, compare) {
        (
            Some(git_ref),
            Some(before),
            Some(after),
            Some(created),
            Some(deleted),
            Some(forced),
            Some(compare),
        ) => Some(PushPayload { git_ref, before, after, created, deleted, forced, compare }),
        _ => None,
    }
}

impl Payload {
    /// Decodes `p` as the payload of the event type `event_type`: a ping asks
    /// for no fields, the other handled types for their own; any other type is
    /// refused by name.
    pub fn from(p: &str, event_type: &str) -> (r: Result<Payload, PayloadError>)
        ensures
            payload_result_view(r) == payload_outcome(p@, event_type@),
    {
        match EventKind::from_name(event_type) {
            None => Err(PayloadError::UnhandledEventType(event_type.to_owned())),
            Some(EventKind::Ping) => Ok(Payload::Ping),
            Some(EventKind::Issues) => match decode_item(p, "issue") {
                Some((action, sender, issue, repository)) => Ok(
                    Payload::Issue(IssuePayload { action, sender, issue, repository }),
                ),
                None => Err(PayloadError::InvalidBody),
            },
            Some(EventKind::IssueComment) => match decode_issue_comment(p) {
                Some(c) => Ok(Payload::IssueComment(c)),
                None => Err(PayloadError::InvalidBody),
            },
            Some(EventKind::PullRequest) => match decode_item(p, "pull_request") {
                Some((action, sender, pull_request, repository)) => Ok(
                    Payload::PullRequest(
                        PullRequestPayload { action, sender, pull_request, repository },
                    ),
                ),
                None => Err(PayloadError::InvalidBody),
            },
            Some(EventKind::Push) => match decode_push(p) {
                Some(push) => Ok(Payload::Push(push)),
                None => Err(PayloadError::InvalidBody),
            },
        }
    }
}

} // verus!
