//! Serving a request from its first step to its outcome, against a backend
//! whose answers are given beforehand, and what holds of every such run.

use crate::error::{AppError, AppErrorView};
use crate::response::{
    STATUS_FOUND, STATUS_INTERNAL_SERVER_ERROR, STATUS_NOT_FOUND, STATUS_OK,
};
use crate::routes::response_to;
use crate::s3::{
    first_step, outcome_after_fetch, outcome_after_presign, outcome_view, step_after_head,
    streamed_content_type, AfterHead, AfterHeadView, BucketClientView, FetchReply, FetchReplyView,
    FileResponse, FileResponseView, HeadReply, HeadReplyView, PresignReply, PresignReplyView,
    S3Clients, Step, StepView,
};
use crate::sdk::MAX_PRESIGN_EXPIRY_SECS;
use axum::body::Body;
use vstd::prelude::*;

verus! {

/// A call on the backend.
#[derive(Clone, Copy, Debug, PartialEq, Eq)]
pub enum Operation {
    /// The check that an object exists.
    HeadObject,
    /// The signing of a download request.
    Presign,
    /// The fetch of an object.
    GetObject,
}

/// What the backend answers to each call that may be made for one object.
pub struct Replies {
    pub head: HeadReply,
    pub presign: PresignReply,
    pub fetch: FetchReply,
}

/// [`Replies`] with their texts as sequences of characters.
pub struct RepliesView {
    pub head: HeadReplyView,
    pub presign: PresignReplyView,
    pub fetch: FetchReplyView,
}

impl View for Replies {
    type V = RepliesView;

    open spec fn view(&self) -> RepliesView {
        RepliesView { head: self.head@, presign: self.presign@, fetch: self.fetch@ }
    }
}

impl RepliesView {
    /// Each call is answered in the same way by both: found, missing or
    /// failed; signed or failed; fetched, missing or failed. The URLs, the
    /// bodies and the messages may differ.
    pub open spec fn alike(self, other: RepliesView) -> bool {
        &&& self.head is Found <==> other.head is Found
        &&& self.head is NotFound <==> other.head is NotFound
        &&& self.presign is Signed <==> other.presign is Signed
        &&& self.fetch is Fetched <==> other.fetch is Fetched
        &&& self.fetch is NoSuchKey <==> other.fetch is NoSuchKey
    }
}

/// A request as it was served: the outcome, and the calls that were made
/// on the backend, in their order.
pub struct Served {
    pub outcome: Result<FileResponse, AppError>,
    pub calls: Vec<Operation>,
}

/// A [`Served`] as the contracts see it.
pub struct ServedView {
    pub outcome: Result<FileResponseView, AppErrorView>,
    pub calls: Seq<Operation>,
}

impl View for Served {
    type V = ServedView;

    open spec fn view(&self) -> ServedView {
        ServedView { outcome: outcome_view(self.outcome), calls: self.calls@ }
    }
}

/// The ways in which serving a request can end.
pub enum OutcomeKind {
    Redirect,
    Stream,
    TenantUnknown,
    ObjectNotFound,
    BackendError,
}

/// The way in which serving a request ended.
pub open spec fn outcome_kind(outcome: Result<FileResponseView, AppErrorView>) -> OutcomeKind {
    match outcome {
        Ok(FileResponseView::Redirect(_)) => OutcomeKind::Redirect,
        Ok(FileResponseView::Stream { .. }) => OutcomeKind::Stream,
        Err(AppErrorView::ConfigNotFound(_)) => OutcomeKind::TenantUnknown,
        Err(AppErrorView::ObjectNotFound(_)) => OutcomeKind::ObjectNotFound,
        Err(AppErrorView::S3Error(_)) => OutcomeKind::BackendError,
    }
}

/// A request for `file_path` from the tenant `config_name` as it is served
/// where the backend answers with `replies`.
pub open spec fn served(
    registry: Map<Seq<char>, BucketClientView>,
    config_name: Seq<char>,
    file_path: Seq<char>,
    replies: RepliesView,
) -> ServedView {
    match first_step(registry, config_name, file_path) {
        StepView::Done(outcome) => ServedView { outcome, calls: seq![] },
        StepView::GetObject(call) => ServedView {
            outcome: outcome_after_fetch(call, replies.fetch),
            calls: seq![Operation::GetObject],
        },
        StepView::HeadObject(call) => match step_after_head(call, replies.head) {
            AfterHeadView::Done(outcome) => ServedView {
                outcome,
                calls: seq![Operation::HeadObject],
            },
            AfterHeadView::Presign(..) => ServedView {
                outcome: outcome_after_presign(replies.presign),
                calls: seq![Operation::HeadObject, Operation::Presign],
            },
        },
    }
}

impl S3Clients {
    /// Serves a request against a backend whose answers are given: the
    /// steps are taken as they are against a real backend, and each call
    /// is answered from `replies`.
    pub fn serve(&self, config_name: &str, file_path: &str, replies: Replies) -> (result: Served)
        ensures
            result@ == served(self@, config_name@, file_path@, replies@),
    {
        let Replies { head, presign, fetch } = replies;
        let mut calls: Vec<Operation> = Vec::new();
        match self.get_file(config_name, file_path) {
            Step::Done(outcome) => {
                let result = Served { outcome, calls };
                assert(result@.calls == Seq::<Operation>::empty());
                result
            },
            Step::GetObject(call) => {
                calls.push(Operation::GetObject);
                let outcome = call.after_fetch(fetch);
                let result = Served { outcome, calls };
                assert(result@.calls == seq![Operation::GetObject]);
                result
            },
            Step::HeadObject(call) => {
                calls.push(Operation::HeadObject);
                match call.after_head(head) {
                    AfterHead::Done(outcome) => {
                        let result = Served { outcome, calls };
                        assert(result@.calls == seq![Operation::HeadObject]);
                        result
                    },
                    AfterHead::Presign(call, _) => {
                        calls.push(Operation::Presign);
                        let outcome = call.after_presign(presign);
                        let result = Served { outcome, calls };
                        assert(result@.calls == seq![Operation::HeadObject, Operation::Presign]);
                        result
                    },
                }
            },
        }
    }
}

/// Serving a request ends after at most two calls on the backend, with a
/// response whose status is 200, 302, 404 or 500.
pub proof fn served_is_bounded(
    registry: Map<Seq<char>, BucketClientView>,
    config_name: Seq<char>,
    file_path: Seq<char>,
    replies: RepliesView,
)
    ensures
        served(registry, config_name, file_path, replies).calls.len() <= 2,
        ({
            let status = response_to(
                served(registry, config_name, file_path, replies).outcome,
            ).status;
            status == STATUS_OK || status == STATUS_FOUND || status == STATUS_NOT_FOUND || status
                == STATUS_INTERNAL_SERVER_ERROR
        }),
{
}

/// A request for a tenant that is not configured fails as "tenant
/// unknown", whatever the key, and no call is made on any backend.
pub proof fn unknown_tenant_is_refused(
    registry: Map<Seq<char>, BucketClientView>,
    config_name: Seq<char>,
    file_path: Seq<char>,
    replies: RepliesView,
)
    requires
        !registry.contains_key(config_name),
    ensures
        served(registry, config_name, file_path, replies) == (ServedView {
            outcome: Err(AppErrorView::ConfigNotFound(config_name)),
            calls: Seq::empty(),
        }),
        response_to(
            served(registry, config_name, file_path, replies).outcome,
        ).status == STATUS_NOT_FOUND,
{
}

/// Where a tenant delivers by redirect and the existence check reports
/// that the object is missing, the request fails as "object not found"
/// and nothing is signed: the check is the only call.
pub proof fn missing_object_is_not_signed(
    registry: Map<Seq<char>, BucketClientView>,
    config_name: Seq<char>,
    file_path: Seq<char>,
    replies: RepliesView,
)
    requires
        registry.contains_key(config_name),
        !registry[config_name].proxy,
        replies.head is NotFound,
    ensures
        served(registry, config_name, file_path, replies) == (ServedView {
            outcome: Err(AppErrorView::ObjectNotFound(file_path)),
            calls: seq![Operation::HeadObject],
        }),
        response_to(
            served(registry, config_name, file_path, replies).outcome,
        ).status == STATUS_NOT_FOUND,
{
}

/// Where a tenant delivers by redirect, the object exists and the signer
/// grants the tenant's lifetime for presigned URLs, the outcome is a
/// redirect to the very URL that the signer returned, after the check and
/// the signing in this order.
pub proof fn redirect_carries_signed_url(
    registry: Map<Seq<char>, BucketClientView>,
    config_name: Seq<char>,
    file_path: Seq<char>,
    replies: RepliesView,
    url: Seq<char>,
)
    requires
        registry.contains_key(config_name),
        !registry[config_name].proxy,
        registry[config_name].presign_expiry_secs <= MAX_PRESIGN_EXPIRY_SECS,
        replies.head is Found,
        replies.presign == PresignReplyView::Signed(url),
    ensures
        served(registry, config_name, file_path, replies) == (ServedView {
            outcome: Ok(FileResponseView::Redirect(url)),
            calls: seq![Operation::HeadObject, Operation::Presign],
        }),
{
}

/// Where a tenant streams and the fetch succeeds, the outcome carries the
/// body that the backend handed over, under the content type that the
/// backend reported, or `application/octet-stream` where it reported none.
/// The fetch is the only call.
pub proof fn stream_carries_fetched_object(
    registry: Map<Seq<char>, BucketClientView>,
    config_name: Seq<char>,
    file_path: Seq<char>,
    replies: RepliesView,
    content_type: Option<Seq<char>>,
    body: Body,
)
    requires
        registry.contains_key(config_name),
        registry[config_name].proxy,
        replies.fetch == (FetchReplyView::Fetched { content_type, body }),
    ensures
        served(registry, config_name, file_path, replies) == (ServedView {
            outcome: Ok(
                FileResponseView::Stream {
                    content_type: streamed_content_type(content_type),
                    body,
                },
            ),
            calls: seq![Operation::GetObject],
        }),
        content_type matches Some(reported) ==> streamed_content_type(content_type) == reported,
        content_type is None ==> streamed_content_type(content_type)
            == "application/octet-stream"@,
{
}

/// The delivery mode is the tenant's alone: a tenant that streams only
/// ever has objects fetched, and a tenant that redirects never has one
/// fetched, however the calls end.
pub proof fn mode_is_never_switched(
    registry: Map<Seq<char>, BucketClientView>,
    config_name: Seq<char>,
    file_path: Seq<char>,
    replies: RepliesView,
)
    requires
        registry.contains_key(config_name),
    ensures
        ({
            let calls = served(registry, config_name, file_path, replies).calls;
            if registry[config_name].proxy {
                calls == seq![Operation::GetObject]
            } else {
                calls.len() >= 1 && calls[0] == Operation::HeadObject && forall|i: int|
                    0 <= i < calls.len() ==> calls[i] != Operation::GetObject
            }
        }),
{
}

/// Serving the same request again against a backend that answers in the
/// same way ends in the same way, though the presigned URLs, the bodies
/// and the messages may differ from one time to the next.
pub proof fn same_answers_same_kind(
    registry: Map<Seq<char>, BucketClientView>,
    config_name: Seq<char>,
    file_path: Seq<char>,
    first: RepliesView,
    second: RepliesView,
)
    requires
        first.alike(second),
    ensures
        outcome_kind(served(registry, config_name, file_path, first).outcome) == outcome_kind(
            served(registry, config_name, file_path, second).outcome,
        ),
        served(registry, config_name, file_path, first).calls == served(
            registry,
            config_name,
            file_path,
            second,
        ).calls,
{
}

} // verus!
