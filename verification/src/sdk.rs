//! The storage SDK as the gateway uses it. Nothing in this file is proved:
//! each item states what is taken on trust from the SDK, and the rest of
//! the crate is verified against these statements. What a value of the SDK
//! holds is given a name where a contract has to speak of it; a name says
//! nothing by itself, and the items below say of each what the SDK's code
//! shows.

use aws_credential_types::Credentials;
use aws_sdk_s3::config::Region;
use aws_sdk_s3::error::SdkError;
use aws_sdk_s3::operation::get_object::{GetObjectError, GetObjectOutput};
use aws_sdk_s3::operation::head_object::{HeadObjectError, HeadObjectOutput};
use aws_sdk_s3::presigning::{PresignedRequest, PresigningConfig, PresigningConfigError};
use aws_sdk_s3::Client;
use axum::body::Body;
use std::fmt::Debug;
use std::time::{Duration, SystemTime};
use tokio_util::io::ReaderStream;
use vstd::prelude::*;

verus! {

/// The longest lifetime, in seconds, that the SDK grants a presigned
/// request: one week.
pub const MAX_PRESIGN_EXPIRY_SECS: u64 = 604_800;

/// `aws_sdk_s3::Client`: the handle to one storage endpoint.
#[verifier::external_type_specification]
#[verifier::external_body]
pub struct ExClient(Client);

/// `aws_sdk_s3::presigning::PresigningConfig`.
#[verifier::external_type_specification]
#[verifier::external_body]
pub struct ExPresigningConfig(PresigningConfig);

/// `aws_sdk_s3::presigning::PresigningConfigError`.
#[verifier::external_type_specification]
#[verifier::external_body]
pub struct ExPresigningConfigError(PresigningConfigError);

/// `aws_sdk_s3::presigning::PresignedRequest`.
#[verifier::external_type_specification]
#[verifier::external_body]
pub struct ExPresignedRequest(PresignedRequest);

/// `aws_sdk_s3::operation::head_object::HeadObjectOutput`.
#[verifier::external_type_specification]
#[verifier::external_body]
pub struct ExHeadObjectOutput(HeadObjectOutput);

/// `aws_sdk_s3::operation::head_object::HeadObjectError`.
#[verifier::external_type_specification]
#[verifier::external_body]
pub struct ExHeadObjectError(HeadObjectError);

/// `aws_sdk_s3::operation::get_object::GetObjectOutput`.
#[verifier::external_type_specification]
#[verifier::external_body]
pub struct ExGetObjectOutput(GetObjectOutput);

/// `aws_sdk_s3::operation::get_object::GetObjectError`.
#[verifier::external_type_specification]
#[verifier::external_body]
pub struct ExGetObjectError(GetObjectError);

/// `aws_sdk_s3::error::SdkError`: what a call on the SDK fails with.
#[verifier::external_type_specification]
#[verifier::external_body]
#[verifier::reject_recursive_types(E)]
#[verifier::reject_recursive_types(R)]
pub struct ExSdkError<E, R>(SdkError<E, R>);

/// `std::time::SystemTime`: a point in time, such as the one at which
/// credentials expire.
#[verifier::external_type_specification]
#[verifier::external_body]
pub struct ExSystemTime(SystemTime);

/// The endpoint URL that a client's configuration holds.
pub uninterp spec fn client_endpoint_url(client: Client) -> Seq<char>;

/// The region that a client's configuration holds.
pub uninterp spec fn client_region(client: Client) -> Seq<char>;

/// The access key of the static credentials that a client signs with.
pub uninterp spec fn client_access_key(client: Client) -> Seq<char>;

/// The secret key of the static credentials that a client signs with.
pub uninterp spec fn client_secret_key(client: Client) -> Seq<char>;

/// Whether a client's configuration forces path-style addressing.
pub uninterp spec fn client_force_path_style(client: Client) -> bool;

/// The session token of the credentials that a client signs with, if they
/// have one.
pub uninterp spec fn client_session_token(client: Client) -> Option<Seq<char>>;

/// Whether the credentials that a client signs with expire at some time.
pub uninterp spec fn client_credentials_expire(client: Client) -> bool;

/// The name of the provider that the credentials of a client are said to
/// come from.
pub uninterp spec fn client_provider_name(client: Client) -> Seq<char>;

/// A session token as a sequence of characters.
pub open spec fn session_token_view(token: Option<String>) -> Option<Seq<char>> {
    match token {
        Some(text) => Some(text@),
        None => None,
    }
}

/// Builds a client with `aws_sdk_s3::Config::builder` and
/// `Client::from_conf`, with credentials made by `Credentials::new`. The
/// client keeps its configuration: the endpoint URL, the region and the
/// addressing flag as they are given, and the credentials as what it signs
/// with, each part of them in its place: access key, secret key, session
/// token, time of expiry and provider name. Nothing else is claimed of the
/// client. `from_conf` panics where no behavior version is set or no sleep
/// implementation is at hand: the first is set here, the second comes with
/// the SDK's tokio runtime support.
#[verifier::external_body]
pub(crate) fn new_client(
    endpoint_url: &str,
    region: &str,
    access_key: &str,
    secret_key: &str,
    session_token: Option<String>,
    expires_after: Option<SystemTime>,
    force_path_style: bool,
    provider_name: &'static str,
) -> (client: Client)
    ensures
        client_endpoint_url(client) == endpoint_url@,
        client_region(client) == region@,
        client_access_key(client) == access_key@,
        client_secret_key(client) == secret_key@,
        client_session_token(client) == session_token_view(session_token),
        client_credentials_expire(client) == (expires_after is Some),
        client_force_path_style(client) == force_path_style,
        client_provider_name(client) == provider_name@,
{
    let credentials =
        Credentials::new(access_key, secret_key, session_token, expires_after, provider_name);
    let s3_config = aws_sdk_s3::Config::builder()
        .endpoint_url(endpoint_url)
        .region(Region::new(region.to_string()))
        .credentials_provider(credentials)
        .force_path_style(force_path_style)
        .behavior_version_latest()
        .build();
    Client::from_conf(s3_config)
}

/// The message with which the SDK refuses a lifetime of more than one week.
pub const PRESIGN_REFUSAL_TEXT: &'static str = "`expires_in` must be no longer than one week";

/// The lifetime, in whole seconds, that a signing configuration holds.
pub uninterp spec fn presigning_lifetime_secs(config: PresigningConfig) -> u64;

/// The text that a refusal of a signing configuration displays.
pub uninterp spec fn presigning_error_text(err: PresigningConfigError) -> Seq<char>;

/// `PresigningConfig::builder().expires_in(..).build()` for a lifetime in
/// whole seconds. The builder refuses a lifetime of more than one week and
/// no other, and its refusal of one displays as [`PRESIGN_REFUSAL_TEXT`].
/// The configuration holds the lifetime as it was given. Nothing else is
/// claimed of the configuration, which also holds the time at which it
/// was made.
#[verifier::external_body]
pub(crate) fn presigning_config(expires_in_secs: u64) -> (config: Result<
    PresigningConfig,
    PresigningConfigError,
>)
    ensures
        config is Ok <==> expires_in_secs <= MAX_PRESIGN_EXPIRY_SECS,
        config matches Ok(made) ==> presigning_lifetime_secs(made) == expires_in_secs,
        config matches Err(refused) ==> presigning_error_text(refused) == PRESIGN_REFUSAL_TEXT@,
{
    PresigningConfig::builder().expires_in(Duration::from_secs(expires_in_secs)).build()
}

/// `PresigningConfigError`'s `Display`, through `to_string`.
#[verifier::external_body]
pub(crate) fn presigning_error_message(err: &PresigningConfigError) -> (text: String)
    ensures
        text@ == presigning_error_text(*err),
{
    err.to_string()
}

/// `SdkError::into_service_error` on a failed existence check: the error
/// that the service reported, or one that wraps whatever else went wrong.
/// Nothing is claimed of the error.
#[verifier::external_body]
pub(crate) fn head_service_error<R: Debug + Send + Sync + 'static>(
    err: SdkError<HeadObjectError, R>,
) -> HeadObjectError {
    err.into_service_error()
}

/// `SdkError::into_service_error` on a failed fetch: the error that the
/// service reported, or one that wraps whatever else went wrong. Nothing
/// is claimed of the error.
#[verifier::external_body]
pub(crate) fn get_service_error<R: Debug + Send + Sync + 'static>(
    err: SdkError<GetObjectError, R>,
) -> GetObjectError {
    err.into_service_error()
}

/// Whether a failed existence check is the service's report that the
/// object does not exist.
pub uninterp spec fn head_error_not_found(err: HeadObjectError) -> bool;

/// The text that a failed existence check displays.
pub uninterp spec fn head_error_text(err: HeadObjectError) -> Seq<char>;

/// Whether a failed fetch is the service's report that no object has the
/// key.
pub uninterp spec fn get_error_no_such_key(err: GetObjectError) -> bool;

/// The text that a failed fetch displays.
pub uninterp spec fn get_error_text(err: GetObjectError) -> Seq<char>;

/// The URI that a presigned request holds.
pub uninterp spec fn presigned_uri(request: PresignedRequest) -> Seq<char>;

/// The content type that the service reported for a fetched object, if it
/// reported one.
pub uninterp spec fn reported_content_type(output: GetObjectOutput) -> Option<Seq<char>>;

/// `HeadObjectError::is_not_found`: whether the error is the service's
/// report that the object does not exist.
pub assume_specification[ HeadObjectError::is_not_found ](err: &HeadObjectError) -> (not_found:
    bool)
    ensures
        not_found == head_error_not_found(*err),
;

/// `HeadObjectError`'s `Display`, through `to_string`.
#[verifier::external_body]
pub(crate) fn head_error_message(err: &HeadObjectError) -> (text: String)
    ensures
        text@ == head_error_text(*err),
{
    err.to_string()
}

/// `GetObjectError::is_no_such_key`: whether the error is the service's
/// report that no object has the key.
pub assume_specification[ GetObjectError::is_no_such_key ](err: &GetObjectError) -> (no_such_key:
    bool)
    ensures
        no_such_key == get_error_no_such_key(*err),
;

/// `GetObjectError`'s `Display`, through `to_string`.
#[verifier::external_body]
pub(crate) fn get_error_message(err: &GetObjectError) -> (text: String)
    ensures
        text@ == get_error_text(*err),
{
    err.to_string()
}

/// A text that `SdkError` displays: one for each of the five ways in which
/// a call on the SDK fails.
pub open spec fn is_sdk_error_text(text: Seq<char>) -> bool {
    ||| text == "failed to construct request"@
    ||| text == "request has timed out"@
    ||| text == "dispatch failure"@
    ||| text == "response error"@
    ||| text == "service error"@
}

/// `SdkError`'s `Display`, through `to_string`, on a failed signing: one
/// of the five texts, by the way in which the call failed.
#[verifier::external_body]
pub(crate) fn sdk_error_message<R>(err: &SdkError<GetObjectError, R>) -> (text: String)
    ensures
        is_sdk_error_text(text@),
{
    err.to_string()
}

/// `PresignedRequest::uri`: the URI that the presigned request holds.
pub assume_specification[ PresignedRequest::uri ](request: &PresignedRequest) -> (uri: &str)
    ensures
        uri@ == presigned_uri(*request),
;

/// `GetObjectOutput::content_type`: the content type that the service
/// reported for a fetched object, if it reported one.
pub assume_specification[ GetObjectOutput::content_type ](output: &GetObjectOutput) -> (
    content_type: Option<&str>
)
    ensures
        match content_type {
            Some(reported) => reported_content_type(*output) == Some(reported@),
            None => reported_content_type(*output) is None,
        },
;

/// The response body that stands for the body of a fetched object.
pub uninterp spec fn fetched_body(output: GetObjectOutput) -> Body;

/// Hands the body of a fetched object on as a response body, through
/// `ByteStream::into_async_read`, `ReaderStream::new` and
/// `Body::from_stream`: the response body is made of the object's body
/// and of nothing else. The bytes are read when the response is sent;
/// nothing is claimed of them here.
#[verifier::external_body]
pub(crate) fn object_body(output: GetObjectOutput) -> (body: Body)
    ensures
        body == fetched_body(output),
{
    let reader = output.body.into_async_read();
    let stream = ReaderStream::new(reader);
    Body::from_stream(stream)
}

} // verus!
