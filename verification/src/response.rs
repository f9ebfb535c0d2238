use axum::body::Body;
use vstd::prelude::*;

verus! {

/// Status of a response that carries an object's bytes.
pub const STATUS_OK: u16 = 200;

/// Status of a response that redirects to a presigned URL.
pub const STATUS_FOUND: u16 = 302;

/// Status of a response to a request for an unknown tenant or a missing object.
pub const STATUS_NOT_FOUND: u16 = 404;

/// Status of a response to a request on which the backend failed.
pub const STATUS_INTERNAL_SERVER_ERROR: u16 = 500;

/// `axum::body::Body`: a response body that is read as it arrives.
#[verifier::external_type_specification]
#[verifier::external_body]
pub struct ExBody(Body);

/// What a response carries after its head.
pub enum ReplyBody {
    /// Nothing.
    Empty,
    /// A line of plain text.
    Text(String),
    /// The bytes of an object, to be forwarded as they arrive.
    Stream(Body),
}

/// A [`ReplyBody`] with its text as a sequence of characters.
pub enum ReplyBodyView {
    Empty,
    Text(Seq<char>),
    Stream(Body),
}

impl View for ReplyBody {
    type V = ReplyBodyView;

    open spec fn view(&self) -> ReplyBodyView {
        match self {
            ReplyBody::Empty => ReplyBodyView::Empty,
            ReplyBody::Text(text) => ReplyBodyView::Text(text@),
            ReplyBody::Stream(body) => ReplyBodyView::Stream(*body),
        }
    }
}

/// An HTTP response as far as the gateway decides it: the status, the one
/// header that the gateway sets itself, and the body. Headers that the HTTP
/// framework adds of its own accord are not part of it.
pub struct HttpReply {
    pub status: u16,
    /// Name and value of the header that the gateway sets, if it sets one.
    pub header: Option<(String, String)>,
    pub body: ReplyBody,
}

/// An [`HttpReply`] with its texts as sequences of characters.
pub struct HttpReplyView {
    pub status: u16,
    pub header: Option<(Seq<char>, Seq<char>)>,
    pub body: ReplyBodyView,
}

impl View for HttpReply {
    type V = HttpReplyView;

    open spec fn view(&self) -> HttpReplyView {
        HttpReplyView {
            status: self.status,
            header: match self.header {
                Some((name, value)) => Some((name@, value@)),
                None => None,
            },
            body: self.body@,
        }
    }
}

} // verus!
