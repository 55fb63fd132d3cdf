//! Responses and their wire form: `statusCode|statusPhrase|body`.

use vstd::prelude::*;
use vstd::string::StringExecFns;

verus! {

/// The status of a reply, mirroring a small subset of HTTP status codes.
#[derive(Debug, Clone, Copy, PartialEq, Eq, Structural)]
pub enum Status {
    Okay,
    BadRequest,
    InternalServerError,
}

/// The numeric code token of a status.
pub open spec fn status_code_token(s: Status) -> Seq<char> {
    match s {
        Status::Okay => "200"@,
        Status::BadRequest => "400"@,
        Status::InternalServerError => "500"@,
    }
}

/// The phrase token of a status.
pub open spec fn status_phrase_token(s: Status) -> Seq<char> {
    match s {
        Status::Okay => "OK"@,
        Status::BadRequest => "Bad Request"@,
        Status::InternalServerError => "Internal Server Error"@,
    }
}

impl Status {
    pub fn code_str(&self) -> (r: &'static str)
        ensures
            r@ == status_code_token(*self),
    {
        match self {
            Status::Okay => "200",
            Status::BadRequest => "400",
            Status::InternalServerError => "500",
        }
    }

    pub fn phrase_str(&self) -> (r: &'static str)
        ensures
            r@ == status_phrase_token(*self),
    {
        match self {
            Status::Okay => "OK",
            Status::BadRequest => "Bad Request",
            Status::InternalServerError => "Internal Server Error",
        }
    }
}

/// The wire text of a reply with this status and body.
pub open spec fn serialize_response(s: Status, body: Seq<char>) -> Seq<char> {
    status_code_token(s) + seq!['|'] + status_phrase_token(s) + seq!['|'] + body
}

/// The mathematical shape of a [`UdpResponse`].
pub struct UdpResponseView {
    pub status: Status,
    pub message: Seq<char>,
}

/// A reply to one datagram: a status and the text sent back with it.
pub struct UdpResponse {
    status: Status,
    message: String,
}

impl View for UdpResponse {
    type V = UdpResponseView;

    closed spec fn view(&self) -> UdpResponseView {
        UdpResponseView { status: self.status, message: self.message@ }
    }
}

impl UdpResponse {
    /// A successful reply carrying the produced value.
    pub fn ok(message: String) -> (r: Self)
        ensures
            r@ == (UdpResponseView { status: Status::Okay, message: message@ }),
    {
        UdpResponse { status: Status::Okay, message }
    }

    /// An error reply carrying a diagnostic text.
    pub fn error(status: Status, message: String) -> (r: Self)
        ensures
            r@ == (UdpResponseView { status, message: message@ }),
    {
        UdpResponse { status, message }
    }

    /// The wire text of this reply: code, phrase and body joined with the
    /// field separator.
    pub fn serialize(&self) -> (r: String)
        ensures
            r@ == serialize_response(self@.status, self@.message),
    {
        proof {
            reveal_strlit("|");
            assert("|"@ =~= seq!['|']);
        }
        let mut s = String::from_str(self.status.code_str());
        s.append("|");
        s.append(self.status.phrase_str());
        s.append("|");
        s.append(self.message.as_str());
        proof {
            assert(s@ =~= serialize_response(self@.status, self@.message));
        }
        s
    }
}

} // verus!
