//! The uniform response envelope and the reply handed back to the HTTP layer.
use vstd::prelude::*;
use vstd::string::*;
use crate::error::Error;
use crate::text::{json_quoted, object_text, write_object};

verus! {

/// Status codes used by the service.
pub const STATUS_OK: u16 = 200;
pub const STATUS_CREATED: u16 = 201;
pub const STATUS_BAD_REQUEST: u16 = 400;
pub const STATUS_UNAUTHORIZED: u16 = 401;
pub const STATUS_NOT_FOUND: u16 = 404;
pub const STATUS_UNPROCESSABLE: u16 = 422;

/// The body of every message response: `{"message": <text>}`.
pub open spec fn envelope_json(message: Seq<char>) -> Seq<char> {
    object_text(seq![("message"@, json_quoted(message))])
}

/// A message for the client, with the status it is sent with. The status is
/// never part of the body.
#[derive(Debug)]
pub struct ResponseMessage {
    message: String,
    status: u16,
}

impl View for ResponseMessage {
    type V = (Seq<char>, u16);

    closed spec fn view(&self) -> (Seq<char>, u16) {
        (self.message@, self.status)
    }
}

/// A reply to an HTTP request: a status and a JSON body.
#[derive(Debug)]
pub struct HttpReply {
    pub status: u16,
    pub body: String,
}

impl View for HttpReply {
    type V = (u16, Seq<char>);

    open spec fn view(&self) -> (u16, Seq<char>) {
        (self.status, self.body@)
    }
}

/// The reply that carries `message` in the envelope with `status`.
pub open spec fn message_reply(message: Seq<char>, status: u16) -> (u16, Seq<char>) {
    (status, envelope_json(message))
}

impl ResponseMessage {
    /// A message sent with status 200.
    pub fn new(message: String) -> (r: ResponseMessage)
        ensures
            r@ == (message@, STATUS_OK),
    {
        ResponseMessage { message, status: STATUS_OK }
    }

    /// A message from literal text, sent with status 200.
    pub fn from_text(message: &str) -> (r: ResponseMessage)
        ensures
            r@ == (message@, STATUS_OK),
    {
        ResponseMessage { message: String::from_str(message), status: STATUS_OK }
    }

    /// The error's text, sent with status 200.
    pub fn from_error(e: Error) -> (r: ResponseMessage)
        ensures
            r@ == (e.text(), STATUS_OK),
    {
        ResponseMessage { message: e.message(), status: STATUS_OK }
    }

    /// The text of the message.
    pub fn message(&self) -> (r: &String)
        ensures
            r@ == self@.0,
    {
        &self.message
    }

    /// The status the message is sent with.
    pub fn status(&self) -> (r: u16)
        ensures
            r == self@.1,
    {
        self.status
    }

    /// Sets the status, and returns a copy of the message with it.
    pub fn with_status(&mut self, status: u16) -> (r: ResponseMessage)
        ensures
            final(self)@ == (old(self)@.0, status),
            r@ == final(self)@,
    {
        self.status = status;
        ResponseMessage { message: self.message.clone(), status }
    }

    /// The JSON body: the message alone, never the status.
    pub fn to_json(&self) -> (r: String)
        ensures
            r@ == envelope_json(self@.0),
    {
        let mut members: Vec<(String, String)> = Vec::new();
        members.push((String::from_str("message"), crate::text::quote(self.message.as_str())));
        proof {
            assert(crate::text::pair_views(members@) =~= seq![("message"@, json_quoted(self@.0))]);
        }
        write_object(&members)
    }

    /// The reply: the message's status and its JSON body.
    pub fn into_reply(self) -> (r: HttpReply)
        ensures
            r@ == message_reply(self@.0, self@.1),
    {
        let body = self.to_json();
        HttpReply { status: self.status, body }
    }
}

/// The reply to a request that matches no route: 404 with the message "Not found".
pub fn handle_404() -> (r: HttpReply)
    ensures
        r@ == message_reply("Not found"@, STATUS_NOT_FOUND),
{
    let mut m = ResponseMessage::from_text("Not found");
    m.with_status(STATUS_NOT_FOUND).into_reply()
}

} // verus!
