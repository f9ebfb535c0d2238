use crate::error::{AppError, AppErrorView};
use crate::response::{
    HttpReply, HttpReplyView, ReplyBody, ReplyBodyView, STATUS_FOUND,
    STATUS_INTERNAL_SERVER_ERROR, STATUS_NOT_FOUND, STATUS_OK,
};
use crate::s3::{outcome_view, FileResponse, FileResponseView};
use axum::http::header::InvalidHeaderValue;
use axum::http::HeaderValue;
use vstd::prelude::*;
use vstd::string::*;
use vstd::utf8::*;

verus! {

/// Name of the header that carries the target of a redirect.
pub const LOCATION: &'static str = "Location";

/// Name of the header that carries the content type of a streamed object.
pub const CONTENT_TYPE: &'static str = "Content-Type";

/// `axum::http::HeaderValue`.
#[verifier::external_type_specification]
#[verifier::external_body]
pub struct ExHeaderValue(HeaderValue);

/// `axum::http::header::InvalidHeaderValue`.
#[verifier::external_type_specification]
#[verifier::external_body]
pub struct ExInvalidHeaderValue(InvalidHeaderValue);

/// A byte that may stand in a header's value: a tab, or anything from the
/// space upwards but the delete character.
pub open spec fn header_byte_valid(byte: u8) -> bool {
    (byte >= 32 && byte != 127) || byte == 9
}

/// A character that may stand in a header's value: a tab, or anything from
/// the space upwards but the delete character.
pub open spec fn header_char_valid(c: char) -> bool {
    (c as u32 >= 32 && c as u32 != 127) || c as u32 == 9
}

/// A text that can be sent as a header's value: each of its characters may
/// stand in one.
pub open spec fn header_text_valid(text: Seq<char>) -> bool {
    forall|i: int| 0 <= i < text.len() ==> header_char_valid(#[trigger] text[i])
}

/// `HeaderValue::from_str`: the text is accepted if and only if every byte
/// of it, as UTF-8, may stand in a header's value. Nothing is claimed of
/// the value itself.
#[verifier::external_body]
fn parse_header_value(text: &str) -> (value: Result<HeaderValue, InvalidHeaderValue>)
    ensures
        value is Ok <==> forall|i: int|
            0 <= i < text.spec_bytes().len() ==> header_byte_valid(#[trigger] text.spec_bytes()[i]),
{
    HeaderValue::from_str(text)
}

/// The message with which a text is refused as a header's value.
pub const INVALID_HEADER_TEXT: &'static str = "failed to parse header value";

/// `InvalidHeaderValue`'s `Display`, through `to_string`: the text is the
/// same for every value of the type.
#[verifier::external_body]
fn invalid_header_text(err: &InvalidHeaderValue) -> (text: String)
    ensures
        text@ == INVALID_HEADER_TEXT@,
{
    err.to_string()
}

/// The bytes of one character's encoding may all stand in a header's value
/// exactly when the character may.
proof fn lemma_encoded_char_valid(c: char)
    ensures
        header_char_valid(c) <==> forall|i: int|
            0 <= i < encode_scalar(c as u32).len() ==> header_byte_valid(
                #[trigger] encode_scalar(c as u32)[i],
            ),
{
    let s = c as u32;
    char_is_scalar(c);
    if has_width_1_encoding(s) {
        assert(leading_byte_width_1(s) == s) by (bit_vector)
            requires
                0 <= s <= 0x7F,
        ;
        assert(encode_scalar(s)[0] == leading_byte_width_1(s));
    } else {
        assert(leading_byte_width_2(s) >= 0x80) by (bit_vector);
        assert(leading_byte_width_3(s) >= 0x80) by (bit_vector);
        assert(leading_byte_width_4(s) >= 0x80) by (bit_vector);
        assert(last_continuation_byte(s) >= 0x80) by (bit_vector);
        assert(second_last_continuation_byte(s) >= 0x80) by (bit_vector);
        assert(third_last_continuation_byte(s) >= 0x80) by (bit_vector);
    }
}

/// A text's encoding is made of bytes that may stand in a header's value
/// exactly when the text is made of characters that may.
pub proof fn lemma_header_text_valid(text: Seq<char>)
    ensures
        header_text_valid(text) <==> forall|i: int|
            0 <= i < encode_utf8(text).len() ==> header_byte_valid(#[trigger] encode_utf8(text)[i]),
    decreases text.len(),
{
    if text.len() > 0 {
        let head = encode_scalar(text[0] as u32);
        let tail = encode_utf8(text.drop_first());
        lemma_encoded_char_valid(text[0]);
        lemma_header_text_valid(text.drop_first());
        assert(encode_utf8(text) == head + tail);
        if header_text_valid(text) {
            assert(header_text_valid(text.drop_first())) by {
                assert forall|i: int| 0 <= i < text.drop_first().len() implies header_char_valid(
                    #[trigger] text.drop_first()[i],
                ) by {
                    assert(text.drop_first()[i] == text[i + 1]);
                }
            }
            assert forall|i: int| 0 <= i < encode_utf8(text).len() implies header_byte_valid(
                #[trigger] encode_utf8(text)[i],
            ) by {
                if i < head.len() {
                    assert(encode_utf8(text)[i] == head[i]);
                } else {
                    assert(encode_utf8(text)[i] == tail[i - head.len()]);
                }
            }
        }
        let bytes = encode_utf8(text);
        if forall|i: int| 0 <= i < bytes.len() ==> header_byte_valid(#[trigger] bytes[i]) {
            assert forall|i: int| 0 <= i < head.len() implies header_byte_valid(
                #[trigger] head[i],
            ) by {
                assert(encode_utf8(text)[i] == head[i]);
            }
            assert forall|i: int| 0 <= i < tail.len() implies header_byte_valid(
                #[trigger] tail[i],
            ) by {
                assert(encode_utf8(text)[i + head.len()] == tail[i]);
            }
            assert forall|i: int| 0 <= i < text.len() implies header_char_valid(
                #[trigger] text[i],
            ) by {
                if i > 0 {
                    assert(text.drop_first()[i - 1] == text[i]);
                }
            }
        }
    }
}

/// Whether a text can be sent as a header's value, with the message of the
/// refusal where it cannot.
fn check_header_value(text: &str) -> (refusal: Option<String>)
    ensures
        refusal is None <==> header_text_valid(text@),
        refusal matches Some(message) ==> message@ == INVALID_HEADER_TEXT@,
{
    proof {
        lemma_header_text_valid(text@);
        assert(text.spec_bytes() == encode_utf8(text@));
    }
    match parse_header_value(text) {
        Ok(_) => None,
        Err(err) => Some(invalid_header_text(&err)),
    }
}

/// The response to a request that was served: a redirect to the presigned
/// URL, or the object's body under its content type. Where the URL or the
/// content type cannot be sent as a header's value, the request fails as
/// on a backend failure.
pub open spec fn file_response(response: FileResponseView) -> Result<HttpReplyView, AppErrorView> {
    match response {
        FileResponseView::Redirect(url) => if header_text_valid(url) {
            Ok(
                HttpReplyView {
                    status: STATUS_FOUND,
                    header: Some((LOCATION@, url)),
                    body: ReplyBodyView::Empty,
                },
            )
        } else {
            Err(AppErrorView::S3Error(INVALID_HEADER_TEXT@))
        },
        FileResponseView::Stream { content_type, body } => if header_text_valid(content_type) {
            Ok(
                HttpReplyView {
                    status: STATUS_OK,
                    header: Some((CONTENT_TYPE@, content_type)),
                    body: ReplyBodyView::Stream(body),
                },
            )
        } else {
            Err(AppErrorView::S3Error(INVALID_HEADER_TEXT@))
        },
    }
}

/// What the handler of a request returns for an outcome: the response to
/// a request that was served, the failure itself otherwise.
pub open spec fn handled(outcome: Result<FileResponseView, AppErrorView>) -> Result<
    HttpReplyView,
    AppErrorView,
> {
    match outcome {
        Ok(response) => file_response(response),
        Err(error) => Err(error),
    }
}

/// The response that the client gets for an outcome.
pub open spec fn response_to(outcome: Result<FileResponseView, AppErrorView>) -> HttpReplyView {
    match handled(outcome) {
        Ok(reply) => reply,
        Err(error) => error.response(),
    }
}

/// The status of the response follows from the way in which serving the
/// request ended: 302 for a redirect and 200 for a stream, where the header
/// can be sent; 404 for an unknown tenant and for a missing object; 500 for
/// a backend failure, and for a header that cannot be sent.
pub proof fn status_follows_outcome(outcome: Result<FileResponseView, AppErrorView>)
    ensures
        response_to(outcome).status == (match outcome {
            Ok(FileResponseView::Redirect(url)) => if header_text_valid(url) {
                STATUS_FOUND
            } else {
                STATUS_INTERNAL_SERVER_ERROR
            },
            Ok(FileResponseView::Stream { content_type, .. }) => if header_text_valid(
                content_type,
            ) {
                STATUS_OK
            } else {
                STATUS_INTERNAL_SERVER_ERROR
            },
            Err(AppErrorView::ConfigNotFound(_)) => STATUS_NOT_FOUND,
            Err(AppErrorView::ObjectNotFound(_)) => STATUS_NOT_FOUND,
            Err(AppErrorView::S3Error(_)) => STATUS_INTERNAL_SERVER_ERROR,
        }),
{
}

/// A handler's result with its texts as sequences of characters.
pub open spec fn handled_view(result: Result<HttpReply, AppError>) -> Result<
    HttpReplyView,
    AppErrorView,
> {
    match result {
        Ok(reply) => Ok(reply@),
        Err(error) => Err(error@),
    }
}

/// Turns the outcome of serving a request into what the handler returns:
/// `302` with a `Location` header for a redirect, `200` with a
/// `Content-Type` header and the object's body for a stream, and a failure
/// as it is.
pub fn get_file(served: Result<FileResponse, AppError>) -> (result: Result<HttpReply, AppError>)
    ensures
        handled_view(result) == handled(outcome_view(served)),
{
    match served {
        Err(error) => Err(error),
        Ok(FileResponse::Redirect(url)) => match check_header_value(url.as_str()) {
            None => Ok(
                HttpReply {
                    status: STATUS_FOUND,
                    header: Some((LOCATION.to_owned(), url)),
                    body: ReplyBody::Empty,
                },
            ),
            Some(message) => Err(AppError::S3Error(message)),
        },
        Ok(FileResponse::Stream { content_type, body }) => match check_header_value(
            content_type.as_str(),
        ) {
            None => Ok(
                HttpReply {
                    status: STATUS_OK,
                    header: Some((CONTENT_TYPE.to_owned(), content_type)),
                    body: ReplyBody::Stream(body),
                },
            ),
            Some(message) => Err(AppError::S3Error(message)),
        },
    }
}

/// The response that the client gets for the outcome of serving a request.
pub fn respond(served: Result<FileResponse, AppError>) -> (reply: HttpReply)
    ensures
        reply@ == response_to(outcome_view(served)),
{
    match get_file(served) {
        Ok(reply) => reply,
        Err(error) => error.into_response(),
    }
}

} // verus!
