use crate::config::{buckets_by_name, AppConfig, BucketConfig, BucketConfigView, CredentialConfig};
use crate::error::{AppError, AppErrorView};
use crate::sdk::{
    client_access_key, client_credentials_expire, client_endpoint_url, client_force_path_style,
    client_provider_name, client_region, client_secret_key, client_session_token,
    fetched_body, get_error_message, get_error_no_such_key, get_error_text,
    get_service_error, head_error_message, head_error_not_found, head_error_text,
    head_service_error, is_sdk_error_text, new_client, object_body, presigned_uri,
    presigning_config, presigning_error_message, presigning_lifetime_secs,
    reported_content_type, sdk_error_message, MAX_PRESIGN_EXPIRY_SECS, PRESIGN_REFUSAL_TEXT,
};
use aws_sdk_s3::error::SdkError;
use aws_sdk_s3::operation::get_object::{GetObjectError, GetObjectOutput};
use aws_sdk_s3::operation::head_object::{HeadObjectError, HeadObjectOutput};
use aws_sdk_s3::presigning::{PresignedRequest, PresigningConfig};
use aws_sdk_s3::Client;
use axum::body::Body;
use std::fmt::Debug;
use vstd::hash_map::StringHashMap;
use vstd::prelude::*;
use vstd::string::*;

verus! {

/// The content type of a streamed object of which the backend reports none.
pub const DEFAULT_CONTENT_TYPE: &'static str = "application/octet-stream";

/// The name under which the configured credentials are handed to the SDK.
pub const CREDENTIALS_PROVIDER_NAME: &'static str = "celia-media";

/// One configured connection to a bucket.
pub struct BucketClient {
    client: Client,
    bucket_name: String,
    proxy: bool,
    presign_expiry_secs: u64,
}

/// A [`BucketClient`] as the contracts see it.
pub struct BucketClientView {
    /// The handle through which the bucket is reached.
    pub client: Client,
    pub bucket_name: Seq<char>,
    /// Whether objects are streamed through the gateway rather than
    /// delivered by a redirect.
    pub proxy: bool,
    /// Lifetime of a presigned URL, in seconds.
    pub presign_expiry_secs: u64,
}

impl View for BucketClient {
    type V = BucketClientView;

    closed spec fn view(&self) -> BucketClientView {
        BucketClientView {
            client: self.client,
            bucket_name: self.bucket_name@,
            proxy: self.proxy,
            presign_expiry_secs: self.presign_expiry_secs,
        }
    }
}

impl BucketClientView {
    /// This backend has the bucket, the delivery mode and the lifetime of
    /// presigned URLs that the tenant's settings ask for, the lifetime
    /// being the tenant's own where it names one and else the system-wide
    /// one. Its client holds the tenant's endpoint, region and addressing
    /// flag, and signs with static credentials: the tenant's access key
    /// and secret key, no session token, and no time of expiry.
    pub open spec fn configured_by(
        self,
        bucket: BucketConfigView,
        system_wide_expiry: u64,
    ) -> bool {
        &&& self.bucket_name == bucket.bucket_name
        &&& self.proxy == bucket.proxy
        &&& self.presign_expiry_secs == bucket.effective_presign_expiry(system_wide_expiry)
        &&& client_endpoint_url(self.client) == bucket.endpoint_url
        &&& client_region(self.client) == bucket.region
        &&& client_access_key(self.client) == bucket.access_key->plain
        &&& client_secret_key(self.client) == bucket.secret_key->plain
        &&& client_session_token(self.client) is None
        &&& !client_credentials_expire(self.client)
        &&& client_provider_name(self.client) == CREDENTIALS_PROVIDER_NAME@
        &&& client_force_path_style(self.client) == bucket.force_path_style
    }
}

impl BucketClient {
    /// The handle through which the bucket is reached.
    pub fn client(&self) -> (client: &Client)
        ensures
            *client == self@.client,
    {
        &self.client
    }

    pub fn bucket_name(&self) -> (name: &str)
        ensures
            name@ == self@.bucket_name,
    {
        self.bucket_name.as_str()
    }

    /// Whether objects are streamed through the gateway rather than
    /// delivered by a redirect.
    pub fn proxy(&self) -> (proxy: bool)
        ensures
            proxy == self@.proxy,
    {
        self.proxy
    }

    /// Lifetime of a presigned URL, in seconds.
    pub fn presign_expiry_secs(&self) -> (secs: u64)
        ensures
            secs == self@.presign_expiry_secs,
    {
        self.presign_expiry_secs
    }
}

/// The registry of backends: one per tenant, by the tenant's name.
pub struct S3Clients {
    buckets: StringHashMap<BucketClient>,
}

impl View for S3Clients {
    type V = Map<Seq<char>, BucketClientView>;

    closed spec fn view(&self) -> Map<Seq<char>, BucketClientView> {
        self.buckets@.map_values(|backend: BucketClient| backend@)
    }
}

/// The secret that a resolved credential holds.
fn plain_secret(credential: &CredentialConfig) -> (secret: &str)
    requires
        credential@ is Plain,
    ensures
        secret@ == credential@->plain,
{
    match credential {
        CredentialConfig::Plain { plain } => plain.as_str(),
        _ => "",
    }
}

/// Builds the client for one tenant from its endpoint, region, addressing
/// flag and credentials. The credentials are static: access key and secret
/// key, without a session token, and they never expire.
fn build_s3_client(bc: &BucketConfig) -> (client: Client)
    requires
        bc@.credentials_resolved(),
    ensures
        client_endpoint_url(client) == bc@.endpoint_url,
        client_region(client) == bc@.region,
        client_access_key(client) == bc@.access_key->plain,
        client_secret_key(client) == bc@.secret_key->plain,
        client_session_token(client) is None,
        !client_credentials_expire(client),
        client_provider_name(client) == CREDENTIALS_PROVIDER_NAME@,
        client_force_path_style(client) == bc@.force_path_style,
{
    new_client(
        bc.endpoint_url.as_str(),
        bc.region.as_str(),
        plain_secret(&bc.access_key),
        plain_secret(&bc.secret_key),
        None,
        None,
        bc.force_path_style,
        CREDENTIALS_PROVIDER_NAME,
    )
}

impl S3Clients {
    /// Builds the registry: one backend for each tenant that the
    /// configuration names, under the tenant's name, and none besides. No
    /// backend is contacted.
    pub fn from_config(config: &AppConfig) -> (clients: S3Clients)
        requires
            config.credentials_resolved(),
        ensures
            clients@.dom() == config@.buckets.dom(),
            forall|name: Seq<char>| #[trigger]
                config@.buckets.contains_key(name) ==> clients@[name].configured_by(
                    config@.buckets[name],
                    config@.presign_expiry_secs,
                ),
    {
        let mut buckets: StringHashMap<BucketClient> = StringHashMap::new();
        let mut i: usize = 0;
        while i < config.buckets.len()
            invariant
                i <= config.buckets.len(),
                config.credentials_resolved(),
                buckets@.dom() == buckets_by_name(config.buckets@.take(i as int)).dom(),
                forall|name: Seq<char>| #[trigger]
                    buckets@.contains_key(name) ==> buckets@[name]@.configured_by(
                        buckets_by_name(config.buckets@.take(i as int))[name],
                        config.presign_expiry_secs,
                    ),
            decreases config.buckets.len() - i,
        {
            let entry = &config.buckets[i];
            let bc = &entry.1;
            let client = build_s3_client(bc);
            let presign_expiry_secs = match bc.presign_expiry_secs {
                Some(secs) => secs,
                None => config.presign_expiry_secs,
            };
            proof {
                let next = config.buckets@.take(i as int + 1);
                assert(next.drop_last() == config.buckets@.take(i as int));
                assert(next.last() == config.buckets@[i as int]);
            }
            buckets.insert(
                entry.0.clone(),
                BucketClient {
                    client,
                    bucket_name: bc.bucket_name.clone(),
                    proxy: bc.proxy,
                    presign_expiry_secs,
                },
            );
            i += 1;
        }
        proof {
            assert(config.buckets@.take(i as int) == config.buckets@);
        }
        let clients = S3Clients { buckets };
        proof {
            assert(clients@.dom() == config@.buckets.dom());
        }
        clients
    }

    /// The backend of the tenant of the given name, if one is configured.
    /// Names are compared as they are.
    pub fn lookup(&self, name: &str) -> (backend: Option<&BucketClient>)
        ensures
            backend is Some <==> self@.contains_key(name@),
            backend matches Some(found) ==> found@ == self@[name@],
    {
        self.buckets.get(name)
    }
}

/// What serving a request yields when it succeeds.
pub enum FileResponse {
    /// The client is sent to this presigned URL.
    Redirect(String),
    /// The object's bytes are forwarded under this content type.
    Stream { content_type: String, body: Body },
}

/// A [`FileResponse`] with its texts as sequences of characters.
pub enum FileResponseView {
    Redirect(Seq<char>),
    Stream { content_type: Seq<char>, body: Body },
}

impl View for FileResponse {
    type V = FileResponseView;

    open spec fn view(&self) -> FileResponseView {
        match self {
            FileResponse::Redirect(url) => FileResponseView::Redirect(url@),
            FileResponse::Stream { content_type, body } => FileResponseView::Stream {
                content_type: content_type@,
                body: *body,
            },
        }
    }
}

/// The outcome of serving a request, with its texts as sequences of
/// characters.
pub open spec fn outcome_view(outcome: Result<FileResponse, AppError>) -> Result<
    FileResponseView,
    AppErrorView,
> {
    match outcome {
        Ok(response) => Ok(response@),
        Err(error) => Err(error@),
    }
}

/// What the backend answered to an existence check.
pub enum HeadReply {
    /// The object exists.
    Found,
    /// The backend reports that the object does not exist.
    NotFound,
    /// The check failed otherwise; the text is the backend's message.
    Failed(String),
}

/// A [`HeadReply`] with its text as a sequence of characters.
pub enum HeadReplyView {
    Found,
    NotFound,
    Failed(Seq<char>),
}

impl View for HeadReply {
    type V = HeadReplyView;

    open spec fn view(&self) -> HeadReplyView {
        match self {
            HeadReply::Found => HeadReplyView::Found,
            HeadReply::NotFound => HeadReplyView::NotFound,
            HeadReply::Failed(message) => HeadReplyView::Failed(message@),
        }
    }
}

/// What came of signing a download request.
pub enum PresignReply {
    /// The presigned URL.
    Signed(String),
    /// No URL could be made; the text is the signer's message.
    Failed(String),
}

/// A [`PresignReply`] with its text as a sequence of characters.
pub enum PresignReplyView {
    Signed(Seq<char>),
    Failed(Seq<char>),
}

impl View for PresignReply {
    type V = PresignReplyView;

    open spec fn view(&self) -> PresignReplyView {
        match self {
            PresignReply::Signed(url) => PresignReplyView::Signed(url@),
            PresignReply::Failed(message) => PresignReplyView::Failed(message@),
        }
    }
}

/// What the backend answered to a fetch.
pub enum FetchReply {
    /// The object, with the content type that the backend reports, if it
    /// reports one.
    Fetched { content_type: Option<String>, body: Body },
    /// The backend reports that no object has the key.
    NoSuchKey,
    /// The fetch failed otherwise; the text is the backend's message.
    Failed(String),
}

/// A [`FetchReply`] with its texts as sequences of characters.
pub enum FetchReplyView {
    Fetched { content_type: Option<Seq<char>>, body: Body },
    NoSuchKey,
    Failed(Seq<char>),
}

impl View for FetchReply {
    type V = FetchReplyView;

    open spec fn view(&self) -> FetchReplyView {
        match self {
            FetchReply::Fetched { content_type, body } => FetchReplyView::Fetched {
                content_type: match content_type {
                    Some(reported) => Some(reported@),
                    None => None,
                },
                body: *body,
            },
            FetchReply::NoSuchKey => FetchReplyView::NoSuchKey,
            FetchReply::Failed(message) => FetchReplyView::Failed(message@),
        }
    }
}

/// A call on a tenant's backend for one object.
pub struct Call<'a> {
    backend: &'a BucketClient,
    file_path: String,
}

/// A [`Call`] as the contracts see it.
pub struct CallView {
    pub backend: BucketClientView,
    /// The object's key, as the request gave it.
    pub file_path: Seq<char>,
}

impl<'a> View for Call<'a> {
    type V = CallView;

    closed spec fn view(&self) -> CallView {
        CallView { backend: self.backend@, file_path: self.file_path@ }
    }
}

/// How serving a request begins.
pub enum Step<'a> {
    /// The caller is to check that the object exists, and to go on with
    /// [`Call::after_head`].
    HeadObject(Call<'a>),
    /// The caller is to fetch the object, and to go on with
    /// [`Call::after_fetch`].
    GetObject(Call<'a>),
    /// Nothing is asked of the backend: this is the outcome.
    Done(Result<FileResponse, AppError>),
}

/// A [`Step`] as the contracts see it.
pub enum StepView {
    HeadObject(CallView),
    GetObject(CallView),
    Done(Result<FileResponseView, AppErrorView>),
}

impl<'a> View for Step<'a> {
    type V = StepView;

    open spec fn view(&self) -> StepView {
        match self {
            Step::HeadObject(call) => StepView::HeadObject(call@),
            Step::GetObject(call) => StepView::GetObject(call@),
            Step::Done(outcome) => StepView::Done(outcome_view(*outcome)),
        }
    }
}

/// How a redirect goes on once the existence check is answered.
pub enum AfterHead<'a> {
    /// The caller is to have a download request for the object signed with
    /// this configuration, and to go on with [`Call::after_presign`].
    Presign(Call<'a>, PresigningConfig),
    /// Nothing more is asked of the backend: this is the outcome.
    Done(Result<FileResponse, AppError>),
}

/// An [`AfterHead`] as the contracts see it.
pub enum AfterHeadView {
    /// The call to make, and the lifetime in seconds that the signing
    /// configuration holds.
    Presign(CallView, u64),
    Done(Result<FileResponseView, AppErrorView>),
}

impl<'a> View for AfterHead<'a> {
    type V = AfterHeadView;

    open spec fn view(&self) -> AfterHeadView {
        match self {
            AfterHead::Presign(call, config) => AfterHeadView::Presign(
                call@,
                presigning_lifetime_secs(*config),
            ),
            AfterHead::Done(outcome) => AfterHeadView::Done(outcome_view(*outcome)),
        }
    }
}

/// How serving a request for `file_path` from the tenant `config_name`
/// begins. An unknown tenant is refused at once. A known one has its own
/// backend asked, first for the object's existence where it delivers by
/// redirect, for the object itself where it streams.
pub open spec fn first_step(
    registry: Map<Seq<char>, BucketClientView>,
    config_name: Seq<char>,
    file_path: Seq<char>,
) -> StepView {
    if registry.contains_key(config_name) {
        let call = CallView { backend: registry[config_name], file_path };
        if call.backend.proxy {
            StepView::GetObject(call)
        } else {
            StepView::HeadObject(call)
        }
    } else {
        StepView::Done(Err(AppErrorView::ConfigNotFound(config_name)))
    }
}

/// How a redirect goes on once the existence check is answered. A missing
/// object and a failed check end it. For an object that exists a download
/// request is signed with the tenant's lifetime for presigned URLs,
/// unless that is longer than the signer grants: then the signer's
/// refusal is reported as a backend failure.
pub open spec fn step_after_head(call: CallView, reply: HeadReplyView) -> AfterHeadView {
    match reply {
        HeadReplyView::Found => if call.backend.presign_expiry_secs <= MAX_PRESIGN_EXPIRY_SECS {
            AfterHeadView::Presign(call, call.backend.presign_expiry_secs)
        } else {
            AfterHeadView::Done(Err(AppErrorView::S3Error(PRESIGN_REFUSAL_TEXT@)))
        },
        HeadReplyView::NotFound => AfterHeadView::Done(
            Err(AppErrorView::ObjectNotFound(call.file_path)),
        ),
        HeadReplyView::Failed(message) => AfterHeadView::Done(Err(AppErrorView::S3Error(message))),
    }
}

/// The outcome of a redirect once the signer has answered: the presigned
/// URL as it is, or the signer's message as a backend failure.
pub open spec fn outcome_after_presign(reply: PresignReplyView) -> Result<
    FileResponseView,
    AppErrorView,
> {
    match reply {
        PresignReplyView::Signed(url) => Ok(FileResponseView::Redirect(url)),
        PresignReplyView::Failed(message) => Err(AppErrorView::S3Error(message)),
    }
}

/// The content type under which an object is streamed: the one that the
/// backend reports, or `application/octet-stream` where it reports none.
pub open spec fn streamed_content_type(reported: Option<Seq<char>>) -> Seq<char> {
    match reported {
        Some(content_type) => content_type,
        None => DEFAULT_CONTENT_TYPE@,
    }
}

/// The outcome of streaming once the fetch is answered: the object's body
/// as the backend handed it over, under its content type; a missing
/// object; or the backend's message as a backend failure.
pub open spec fn outcome_after_fetch(call: CallView, reply: FetchReplyView) -> Result<
    FileResponseView,
    AppErrorView,
> {
    match reply {
        FetchReplyView::Fetched { content_type, body } => Ok(
            FileResponseView::Stream { content_type: streamed_content_type(content_type), body },
        ),
        FetchReplyView::NoSuchKey => Err(AppErrorView::ObjectNotFound(call.file_path)),
        FetchReplyView::Failed(message) => Err(AppErrorView::S3Error(message)),
    }
}

impl<'a> Call<'a> {
    /// The handle through which the call is to be made.
    pub fn client(&self) -> (client: &Client)
        ensures
            *client == self@.backend.client,
    {
        self.backend.client()
    }

    /// The bucket that the call is to name.
    pub fn bucket_name(&self) -> (name: &str)
        ensures
            name@ == self@.backend.bucket_name,
    {
        self.backend.bucket_name()
    }

    /// The key that the call is to name.
    pub fn file_path(&self) -> (key: &str)
        ensures
            key@ == self@.file_path,
    {
        self.file_path.as_str()
    }

    /// Goes on with a redirect once the existence check is answered. The
    /// signing configuration is made only now, for an object that exists,
    /// and holds the tenant's lifetime for presigned URLs.
    pub fn after_head(self, reply: HeadReply) -> (next: AfterHead<'a>)
        ensures
            next@ == step_after_head(self@, reply@),
    {
        match reply {
            HeadReply::Found => match presigning_config(self.backend.presign_expiry_secs) {
                Ok(config) => AfterHead::Presign(self, config),
                Err(refused) => AfterHead::Done(
                    Err(AppError::S3Error(presigning_error_message(&refused))),
                ),
            },
            HeadReply::NotFound => AfterHead::Done(Err(AppError::ObjectNotFound(self.file_path))),
            HeadReply::Failed(message) => AfterHead::Done(Err(AppError::S3Error(message))),
        }
    }

    /// Ends a redirect once the signer has answered.
    pub fn after_presign(self, reply: PresignReply) -> (outcome: Result<FileResponse, AppError>)
        ensures
            outcome_view(outcome) == outcome_after_presign(reply@),
    {
        match reply {
            PresignReply::Signed(url) => Ok(FileResponse::Redirect(url)),
            PresignReply::Failed(message) => Err(AppError::S3Error(message)),
        }
    }

    /// Ends streaming once the fetch is answered.
    pub fn after_fetch(self, reply: FetchReply) -> (outcome: Result<FileResponse, AppError>)
        ensures
            outcome_view(outcome) == outcome_after_fetch(self@, reply@),
    {
        match reply {
            FetchReply::Fetched { content_type, body } => {
                let content_type = match content_type {
                    Some(reported) => reported,
                    None => DEFAULT_CONTENT_TYPE.to_owned(),
                };
                Ok(FileResponse::Stream { content_type, body })
            },
            FetchReply::NoSuchKey => Err(AppError::ObjectNotFound(self.file_path)),
            FetchReply::Failed(message) => Err(AppError::S3Error(message)),
        }
    }
}

impl S3Clients {
    /// Begins delivery by redirect: the object's existence is checked
    /// before anything is signed.
    pub fn redirect_file<'a>(bc: &'a BucketClient, file_path: &str) -> (step: Step<'a>)
        ensures
            step@ == StepView::HeadObject(CallView { backend: bc@, file_path: file_path@ }),
    {
        Step::HeadObject(Call { backend: bc, file_path: file_path.to_owned() })
    }

    /// Begins delivery by streaming: the object is fetched.
    pub fn proxy_file<'a>(bc: &'a BucketClient, file_path: &str) -> (step: Step<'a>)
        ensures
            step@ == StepView::GetObject(CallView { backend: bc@, file_path: file_path@ }),
    {
        Step::GetObject(Call { backend: bc, file_path: file_path.to_owned() })
    }

    /// Begins serving a request for `file_path` from the tenant
    /// `config_name`. The key is passed on as it is.
    pub fn get_file<'a>(&'a self, config_name: &str, file_path: &str) -> (step: Step<'a>)
        ensures
            step@ == first_step(self@, config_name@, file_path@),
    {
        match self.lookup(config_name) {
            None => Step::Done(Err(AppError::ConfigNotFound(config_name.to_owned()))),
            Some(bc) => {
                if bc.proxy {
                    S3Clients::proxy_file(bc, file_path)
                } else {
                    S3Clients::redirect_file(bc, file_path)
                }
            },
        }
    }
}

/// What a failed existence check counts as: "not found" where the service
/// reported that the object does not exist, and else a failure with the
/// error's text.
pub open spec fn head_failure(service_err: HeadObjectError) -> HeadReplyView {
    if head_error_not_found(service_err) {
        HeadReplyView::NotFound
    } else {
        HeadReplyView::Failed(head_error_text(service_err))
    }
}

/// Reads the error of a failed existence check.
pub fn head_failure_reply(service_err: HeadObjectError) -> (reply: HeadReply)
    ensures
        reply@ == head_failure(service_err),
{
    if service_err.is_not_found() {
        HeadReply::NotFound
    } else {
        HeadReply::Failed(head_error_message(&service_err))
    }
}

/// Reads the SDK's answer to an existence check: found where the call
/// succeeded, and else what the error that the SDK makes of the failure
/// counts as.
pub fn head_reply<R: Debug + Send + Sync + 'static>(
    result: Result<HeadObjectOutput, SdkError<HeadObjectError, R>>,
) -> (reply: HeadReply)
    ensures
        result is Ok ==> reply@ == HeadReplyView::Found,
        result is Err ==> exists|service_err: HeadObjectError|
            reply@ == #[trigger] head_failure(service_err),
{
    match result {
        Ok(_) => HeadReply::Found,
        Err(err) => {
            let service_err = head_service_error(err);
            let ghost reported = service_err;
            let reply = head_failure_reply(service_err);
            assert(reply@ == head_failure(reported));
            reply
        },
    }
}

/// Reads the SDK's answer to a request for a presigned download: the URI
/// that the signed request holds, or the SDK's text for the failure.
pub fn presign_reply<R>(result: Result<PresignedRequest, SdkError<GetObjectError, R>>) -> (reply:
    PresignReply)
    ensures
        result matches Ok(request) ==> reply@ == PresignReplyView::Signed(presigned_uri(request)),
        result is Err ==> (reply@ matches PresignReplyView::Failed(message) && is_sdk_error_text(
            message,
        )),
{
    match result {
        Ok(presigned) => PresignReply::Signed(presigned.uri().to_owned()),
        Err(err) => PresignReply::Failed(sdk_error_message(&err)),
    }
}

/// What a failed fetch counts as: "no such key" where the service reported
/// that no object has the key, and else a failure with the error's text.
pub open spec fn fetch_failure(service_err: GetObjectError) -> FetchReplyView {
    if get_error_no_such_key(service_err) {
        FetchReplyView::NoSuchKey
    } else {
        FetchReplyView::Failed(get_error_text(service_err))
    }
}

/// Reads the error of a failed fetch.
pub fn fetch_failure_reply(service_err: GetObjectError) -> (reply: FetchReply)
    ensures
        reply@ == fetch_failure(service_err),
{
    if service_err.is_no_such_key() {
        FetchReply::NoSuchKey
    } else {
        FetchReply::Failed(get_error_message(&service_err))
    }
}

/// Reads the SDK's answer to a fetch: the object's body, as a response
/// body, with the content type that the service reported, if any, where
/// the call succeeded, and else what the error that the SDK makes of the
/// failure counts as.
pub fn fetch_reply<R: Debug + Send + Sync + 'static>(
    result: Result<GetObjectOutput, SdkError<GetObjectError, R>>,
) -> (reply: FetchReply)
    ensures
        result matches Ok(output) ==> reply@ == (FetchReplyView::Fetched {
            content_type: reported_content_type(output),
            body: fetched_body(output),
        }),
        result is Err ==> exists|service_err: GetObjectError|
            reply@ == #[trigger] fetch_failure(service_err),
{
    match result {
        Ok(output) => {
            let content_type = match output.content_type() {
                Some(reported) => Some(reported.to_owned()),
                None => None,
            };
            let body = object_body(output);
            FetchReply::Fetched { content_type, body }
        },
        Err(err) => {
            let service_err = get_service_error(err);
            let ghost reported = service_err;
            let reply = fetch_failure_reply(service_err);
            assert(reply@ == fetch_failure(reported));
            reply
        },
    }
}

} // verus!
