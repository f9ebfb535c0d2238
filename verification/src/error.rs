use crate::response::{
    HttpReply, HttpReplyView, ReplyBody, ReplyBodyView, STATUS_INTERNAL_SERVER_ERROR,
    STATUS_NOT_FOUND,
};
use vstd::prelude::*;
use vstd::string::*;

verus! {

/// Why a request could not be served.
#[derive(Debug)]
pub enum AppError {
    /// No tenant of the given name is configured.
    ConfigNotFound(String),
    /// The backend reported that no object has the given key.
    ObjectNotFound(String),
    /// The backend, or the signer, failed otherwise; the text is its message.
    S3Error(String),
}

/// An [`AppError`] with its text as a sequence of characters.
pub enum AppErrorView {
    ConfigNotFound(Seq<char>),
    ObjectNotFound(Seq<char>),
    S3Error(Seq<char>),
}

impl View for AppError {
    type V = AppErrorView;

    open spec fn view(&self) -> AppErrorView {
        match self {
            AppError::ConfigNotFound(name) => AppErrorView::ConfigNotFound(name@),
            AppError::ObjectNotFound(key) => AppErrorView::ObjectNotFound(key@),
            AppError::S3Error(msg) => AppErrorView::S3Error(msg@),
        }
    }
}

impl AppErrorView {
    /// The HTTP status that answers a request that failed in this way.
    pub open spec fn status(self) -> u16 {
        match self {
            AppErrorView::ConfigNotFound(_) => STATUS_NOT_FOUND,
            AppErrorView::ObjectNotFound(_) => STATUS_NOT_FOUND,
            AppErrorView::S3Error(_) => STATUS_INTERNAL_SERVER_ERROR,
        }
    }

    /// The line shown to the client and to the operator.
    pub open spec fn message(self) -> Seq<char> {
        match self {
            AppErrorView::ConfigNotFound(name) => "config not found: "@ + name,
            AppErrorView::ObjectNotFound(key) => "object not found: "@ + key,
            AppErrorView::S3Error(msg) => "S3 error: "@ + msg,
        }
    }

    /// The response that reports this failure: its status, no header of the
    /// gateway's own, and the message as body.
    pub open spec fn response(self) -> HttpReplyView {
        HttpReplyView {
            status: self.status(),
            header: None,
            body: ReplyBodyView::Text(self.message()),
        }
    }
}

impl AppError {
    /// The HTTP status that answers a request that failed in this way: 404
    /// for an unknown tenant and for a missing object, 500 otherwise.
    pub fn status(&self) -> (status: u16)
        ensures
            status == self@.status(),
    {
        match self {
            AppError::ConfigNotFound(_) => STATUS_NOT_FOUND,
            AppError::ObjectNotFound(_) => STATUS_NOT_FOUND,
            AppError::S3Error(_) => STATUS_INTERNAL_SERVER_ERROR,
        }
    }

    /// The line shown to the client and to the operator.
    pub fn to_string(&self) -> (text: String)
        ensures
            text@ == self@.message(),
    {
        match self {
            AppError::ConfigNotFound(name) => String::from_str("config not found: ").concat(
                name.as_str(),
            ),
            AppError::ObjectNotFound(key) => String::from_str("object not found: ").concat(
                key.as_str(),
            ),
            AppError::S3Error(msg) => String::from_str("S3 error: ").concat(msg.as_str()),
        }
    }

    /// The response that reports this failure. Its body is the line that the
    /// caller is to log before sending it.
    pub fn into_response(self) -> (reply: HttpReply)
        ensures
            reply@ == self@.response(),
    {
        let status = self.status();
        let message = self.to_string();
        HttpReply { status, header: None, body: ReplyBody::Text(message) }
    }
}

} // verus!
