//! The request pipeline: authentication gate, routing of the reminder verbs to
//! store operations, and the uniform reply built from each operation's outcome.
use vstd::prelude::*;
use vstd::string::*;
use crate::codec::{decode, encode, raw_json, reminder_views, reminders_to_firebase, RawMapping};
use crate::error::Error;
use crate::reminder::{reminder_json, Reminder, ReminderView};
use crate::response::{
    message_reply, HttpReply, ResponseMessage, STATUS_BAD_REQUEST, STATUS_CREATED, STATUS_OK,
    STATUS_UNAUTHORIZED, STATUS_UNPROCESSABLE,
};
use crate::store::{begin_step, resume_step, Credential, Method, OpView, StepView, StoreOp};
use crate::text::{array_text, views, write_array};

verus! {

/// The HTTP methods a request may come with.
#[derive(Debug, Clone, Copy, PartialEq, Eq, Structural)]
pub enum Verb {
    Get,
    Post,
    Put,
    Delete,
    Patch,
    Other,
}

/// A request body as read from JSON.
#[derive(Debug)]
pub enum Payload {
    /// One reminder (a JSON object).
    Record(Reminder),
    /// A list of reminders (a JSON array).
    Records(Vec<Reminder>),
    /// No body, or one that is neither.
    Unreadable,
}

/// The mathematical value of a body.
pub enum PayloadView {
    Record(ReminderView),
    Records(Seq<ReminderView>),
    Unreadable,
}

impl View for Payload {
    type V = PayloadView;

    open spec fn view(&self) -> PayloadView {
        match self {
            Payload::Record(r) => PayloadView::Record(r@),
            Payload::Records(rs) => PayloadView::Records(reminder_views(rs@)),
            Payload::Unreadable => PayloadView::Unreadable,
        }
    }
}

/// An incoming request: its method, path, `Authorization` header and body.
#[derive(Debug)]
pub struct Request {
    pub verb: Verb,
    pub path: String,
    pub authorization: Option<String>,
    pub payload: Payload,
}

/// What a route answers once its store operation has succeeded.
#[derive(Debug)]
pub enum Success {
    /// The reminders read, as a JSON array, with status 200.
    Listing,
    /// A message in the envelope.
    Message(ResponseMessage),
}

/// The mathematical value of a success answer.
pub enum SuccessView {
    Listing,
    Message((Seq<char>, u16)),
}

impl View for Success {
    type V = SuccessView;

    open spec fn view(&self) -> SuccessView {
        match self {
            Success::Listing => SuccessView::Listing,
            Success::Message(m) => SuccessView::Message(m@),
        }
    }
}

/// A store operation and how to answer when it succeeds.
#[derive(Debug)]
pub struct StoreCall {
    pub op: StoreOp,
    pub success: Success,
}

/// What to do with a request: answer at once, or make a store call first.
#[derive(Debug)]
pub enum Plan {
    Reply(HttpReply),
    Call(StoreCall),
}

/// The mathematical value of a plan.
pub enum PlanView {
    Reply((u16, Seq<char>)),
    Call(OpView, SuccessView),
}

impl View for Plan {
    type V = PlanView;

    open spec fn view(&self) -> PlanView {
        match self {
            Plan::Reply(r) => PlanView::Reply(r@),
            Plan::Call(c) => PlanView::Call(c.op@, c.success@),
        }
    }
}

/// The path the reminder routes answer on.
pub open spec fn route_path() -> Seq<char> {
    "/reminders"@
}

/// The store path below which all reminders live.
pub open spec fn collection_path() -> Seq<char> {
    "reminders/v2"@
}

/// The store path of the reminder with `id`.
pub open spec fn record_path(id: Seq<char>) -> Seq<char> {
    "reminders/v2/"@ + id
}

/// The header carries the shared secret as a bearer credential.
pub open spec fn authorized(header: Option<Seq<char>>, secret: Seq<char>) -> bool {
    header == Some("Bearer "@ + secret)
}

/// The number of reminders without an id.
pub open spec fn missing_ids(rs: Seq<ReminderView>) -> nat {
    rs.filter(|r: ReminderView| r.id is None).len()
}

/// A reminder with its id cleared.
pub open spec fn without_id(r: ReminderView) -> ReminderView {
    ReminderView { id: None, ..r }
}

/// The reply to a request without a valid bearer credential.
pub open spec fn unauthorized_reply() -> (u16, Seq<char>) {
    message_reply("Unauthorized"@, STATUS_UNAUTHORIZED)
}

/// The reply to a body that is not what the route reads.
pub open spec fn unreadable_reply() -> (u16, Seq<char>) {
    message_reply("Invalid request body"@, STATUS_UNPROCESSABLE)
}

/// The plan for an authorised request on the reminder routes.
pub open spec fn route_plan(verb: Verb, payload: PayloadView) -> PlanView {
    match verb {
        Verb::Get => PlanView::Call(
            OpView { method: Method::Get, path: collection_path(), body: None },
            SuccessView::Listing,
        ),
        Verb::Post => match payload {
            PayloadView::Record(r) => PlanView::Call(
                OpView { method: Method::Post, path: collection_path(), body: Some(reminder_json(r)) },
                SuccessView::Message(("Created reminder"@, STATUS_CREATED)),
            ),
            _ => PlanView::Reply(unreadable_reply()),
        },
        Verb::Put => match payload {
            PayloadView::Record(r) => match r.id {
                None => PlanView::Reply(
                    message_reply("Reminder is missing the id field"@, STATUS_BAD_REQUEST),
                ),
                Some(id) => PlanView::Call(
                    OpView {
                        method: Method::Put,
                        path: record_path(id),
                        body: Some(reminder_json(without_id(r))),
                    },
                    SuccessView::Message(("Updated reminder"@, STATUS_OK)),
                ),
            },
            _ => PlanView::Reply(unreadable_reply()),
        },
        Verb::Delete => match payload {
            PayloadView::Record(r) => match r.id {
                None => PlanView::Reply(
                    message_reply("Reminder is missing the id field"@, STATUS_BAD_REQUEST),
                ),
                Some(id) => PlanView::Call(
                    OpView { method: Method::Delete, path: record_path(id), body: None },
                    SuccessView::Message(("Deleted reminder"@, STATUS_OK)),
                ),
            },
            _ => PlanView::Reply(unreadable_reply()),
        },
        Verb::Patch => match payload {
            PayloadView::Records(rs) => if missing_ids(rs) > 1 {
                PlanView::Reply(message_reply("Reminder is missing id field"@, STATUS_BAD_REQUEST))
            } else {
                PlanView::Call(
                    OpView { method: Method::Put, path: collection_path(), body: Some(raw_json(encode(rs))) },
                    SuccessView::Message(("Updated reminder"@, STATUS_OK)),
                )
            },
            _ => PlanView::Reply(unreadable_reply()),
        },
        Verb::Other => PlanView::Reply(message_reply("Not found"@, 404)),
    }
}

/// The plan for a request: 404 off the reminder routes, 401 without the shared
/// secret, else what the route decides.
pub open spec fn plan_of(
    verb: Verb,
    path: Seq<char>,
    header: Option<Seq<char>>,
    payload: PayloadView,
    secret: Seq<char>,
) -> PlanView {
    if path != route_path() {
        PlanView::Reply(message_reply("Not found"@, 404))
    } else if !authorized(header, secret) {
        PlanView::Reply(unauthorized_reply())
    } else {
        route_plan(verb, payload)
    }
}

/// The reply that ends a route whose operation had `outcome`: its success message,
/// or the error's text; either way with the status of the route's success.
pub open spec fn outcome_reply(message: (Seq<char>, u16), outcome: Result<(), Error>) -> (u16, Seq<char>) {
    match outcome {
        Ok(_) => message_reply(message.0, message.1),
        Err(e) => message_reply(e.text(), message.1),
    }
}

/// The JSON text of a list of reminders: an array of their objects, in order.
pub open spec fn listing_json(ds: Seq<ReminderView>) -> Seq<char> {
    array_text(ds.map_values(|d: ReminderView| reminder_json(d)))
}

/// The reply that ends a listing whose read had `outcome`: the reminders read
/// from the collection with status 200, or the error's text with status 200.
pub open spec fn listing_reply(outcome: Result<crate::codec::RawView, Error>) -> (u16, Seq<char>) {
    match outcome {
        Ok(raw) => (STATUS_OK, listing_json(decode(raw))),
        Err(e) => message_reply(e.text(), STATUS_OK),
    }
}

/// The body is one reminder, without an id.
pub open spec fn lacks_id(p: PayloadView) -> bool {
    match p {
        PayloadView::Record(r) => r.id is None,
        _ => false,
    }
}

/// The body is a list with more than one reminder without an id.
pub open spec fn lacks_ids(p: PayloadView) -> bool {
    match p {
        PayloadView::Records(rs) => missing_ids(rs) > 1,
        _ => false,
    }
}

/// The plan answers at once, with `status`, and makes no store operation.
pub open spec fn answered_with(p: PlanView, status: u16) -> bool {
    match p {
        PlanView::Reply(r) => r.0 == status,
        _ => false,
    }
}

/// Whether `auth_token` is the shared secret presented as a bearer credential.
pub fn authorize_current_user(auth_token: &String, secret: &String) -> (r: bool)
    ensures
        r == (auth_token@ == "Bearer "@ + secret@),
{
    let expected = String::from_str("Bearer ").concat(secret.as_str());
    expected == *auth_token
}

/// A message reply with `status`.
fn reply_with(text: &str, status: u16) -> (r: HttpReply)
    ensures
        r@ == message_reply(text@, status),
{
    let mut m = ResponseMessage::from_text(text);
    m.with_status(status).into_reply()
}

/// The authentication gate: passes a request whose `Authorization` header is the
/// shared secret as a bearer credential, and answers any other with 401.
pub fn auth(authorization: &Option<String>, secret: &String) -> (r: Result<(), HttpReply>)
    ensures
        authorized(crate::reminder::opt_view(*authorization), secret@) <==> r is Ok,
        r matches Err(reply) ==> reply@ == unauthorized_reply(),
{
    match authorization {
        None => Err(reply_with("Unauthorized", STATUS_UNAUTHORIZED)),
        Some(h) => if authorize_current_user(h, secret) {
            Ok(())
        } else {
            Err(reply_with("Unauthorized", STATUS_UNAUTHORIZED))
        },
    }
}

/// The listing: read the whole collection.
pub fn get() -> (r: StoreCall)
    ensures
        PlanView::Call(r.op@, r.success@) == route_plan(Verb::Get, PayloadView::Unreadable),
{
    StoreCall {
        op: StoreOp { method: Method::Get, path: String::from_str("reminders/v2"), body: None },
        success: Success::Listing,
    }
}

/// The create: post the reminder below the collection; the store assigns its id.
pub fn post(reminder: Reminder) -> (r: StoreCall)
    ensures
        PlanView::Call(r.op@, r.success@) == route_plan(Verb::Post, PayloadView::Record(reminder@)),
{
    let mut m = ResponseMessage::from_text("Created reminder");
    StoreCall {
        op: StoreOp {
            method: Method::Post,
            path: String::from_str("reminders/v2"),
            body: Some(reminder.to_json()),
        },
        success: Success::Message(m.with_status(STATUS_CREATED)),
    }
}

/// The store path of the reminder with `id`.
fn path_of(id: &String) -> (r: String)
    ensures
        r@ == record_path(id@),
{
    let mut p = String::from_str("reminders/v2/");
    p.append(id.as_str());
    p
}

/// The replace: a reminder without an id is refused with 400; else the reminder,
/// its id cleared, replaces the record at its path.
pub fn put(reminder: Reminder) -> (r: Plan)
    ensures
        r@ == route_plan(Verb::Put, PayloadView::Record(reminder@)),
{
    let Reminder { id, title, due, priority, assignee } = reminder;
    match id {
        None => Plan::Reply(reply_with("Reminder is missing the id field", STATUS_BAD_REQUEST)),
        Some(id) => {
            let cleared = Reminder { id: None, title, due, priority, assignee };
            Plan::Call(
                StoreCall {
                    op: StoreOp { method: Method::Put, path: path_of(&id), body: Some(cleared.to_json()) },
                    success: Success::Message(ResponseMessage::from_text("Updated reminder")),
                },
            )
        },
    }
}

/// The delete: a reminder without an id is refused with 400; else the record at
/// its path is deleted.
pub fn delete(reminder: Reminder) -> (r: Plan)
    ensures
        r@ == route_plan(Verb::Delete, PayloadView::Record(reminder@)),
{
    match &reminder.id {
        None => Plan::Reply(reply_with("Reminder is missing the id field", STATUS_BAD_REQUEST)),
        Some(id) => Plan::Call(
            StoreCall {
                op: StoreOp { method: Method::Delete, path: path_of(id), body: None },
                success: Success::Message(ResponseMessage::from_text("Deleted reminder")),
            },
        ),
    }
}

/// The number of reminders without an id.
fn count_missing(rs: &Vec<Reminder>) -> (n: usize)
    ensures
        n == missing_ids(reminder_views(rs@)),
{
    let mut n: usize = 0;
    let mut i: usize = 0;
    while i < rs.len()
        invariant
            i <= rs@.len(),
            n == missing_ids(reminder_views(rs@.take(i as int))),
            n <= i,
        decreases rs@.len() - i,
    {
        proof {
            let prev = reminder_views(rs@.take(i as int));
            let next = reminder_views(rs@.take(i as int + 1));
            assert(next =~= prev.push(rs@[i as int]@));
            prev.lemma_filter_push(rs@[i as int]@, |r: ReminderView| r.id is None);
        }
        if rs[i].id.is_none() {
            n = n + 1;
        }
        i = i + 1;
    }
    assert(rs@.take(i as int) =~= rs@);
    n
}

/// The bulk replace: more than one reminder without an id has the whole list
/// refused with 400; else the list, stored by id, replaces the collection.
pub fn patch(reminders: Vec<Reminder>) -> (r: Plan)
    ensures
        r@ == route_plan(Verb::Patch, PayloadView::Records(reminder_views(reminders@))),
{
    if count_missing(&reminders) > 1 {
        return Plan::Reply(reply_with("Reminder is missing id field", STATUS_BAD_REQUEST));
    }
    let data = reminders_to_firebase(reminders);
    Plan::Call(
        StoreCall {
            op: StoreOp { method: Method::Put, path: String::from_str("reminders/v2"), body: Some(data.to_json()) },
            success: Success::Message(ResponseMessage::from_text("Updated reminder")),
        },
    )
}

/// Decides what to do with a request, given the shared secret.
///
/// Off the reminder route the answer is 404. On it, a request without the shared
/// secret as a bearer credential is answered with 401 and never reaches a store
/// operation; a replace or delete without an id, and a bulk replace with more
/// than one reminder without an id, are answered with 400, also without one.
pub fn router(req: Request, secret: &String) -> (r: Plan)
    ensures
        r@ == plan_of(
            req.verb,
            req.path@,
            crate::reminder::opt_view(req.authorization),
            req.payload@,
            secret@,
        ),
        req.path@ == route_path() && !authorized(crate::reminder::opt_view(req.authorization), secret@)
            ==> r@ == PlanView::Reply(unauthorized_reply()),
        req.path@ == route_path() && authorized(crate::reminder::opt_view(req.authorization), secret@)
            && (req.verb == Verb::Put || req.verb == Verb::Delete) && lacks_id(req.payload@) ==> answered_with(
            r@,
            STATUS_BAD_REQUEST,
        ),
        req.path@ == route_path() && authorized(crate::reminder::opt_view(req.authorization), secret@)
            && req.verb == Verb::Patch && lacks_ids(req.payload@) ==> answered_with(r@, STATUS_BAD_REQUEST),
        r@ matches PlanView::Call(op, _) ==> op.carries_body(),
{
    let Request { verb, path, authorization, payload } = req;
    if path != String::from_str("/reminders") {
        return Plan::Reply(crate::response::handle_404());
    }
    match auth(&authorization, secret) {
        Err(reply) => Plan::Reply(reply),
        Ok(()) => match verb {
            Verb::Get => Plan::Call(get()),
            Verb::Post => match payload {
                Payload::Record(r) => Plan::Call(post(r)),
                _ => Plan::Reply(reply_with("Invalid request body", STATUS_UNPROCESSABLE)),
            },
            Verb::Put => match payload {
                Payload::Record(r) => put(r),
                _ => Plan::Reply(reply_with("Invalid request body", STATUS_UNPROCESSABLE)),
            },
            Verb::Delete => match payload {
                Payload::Record(r) => delete(r),
                _ => Plan::Reply(reply_with("Invalid request body", STATUS_UNPROCESSABLE)),
            },
            Verb::Patch => match payload {
                Payload::Records(rs) => patch(rs),
                _ => Plan::Reply(reply_with("Invalid request body", STATUS_UNPROCESSABLE)),
            },
            Verb::Other => Plan::Reply(crate::response::handle_404()),
        },
    }
}

/// Ends a route with a message: on success its message, on failure the error's
/// text; either way with the status of the route's success.
pub fn finish_message(message: ResponseMessage, outcome: Result<(), Error>) -> (r: HttpReply)
    ensures
        r@ == outcome_reply(message@, outcome),
{
    match outcome {
        Ok(()) => message.into_reply(),
        Err(e) => {
            let status = message.status();
            let mut m = ResponseMessage::from_error(e);
            m.with_status(status).into_reply()
        },
    }
}

/// The JSON array of `rs`, in order.
pub fn write_listing(rs: &Vec<Reminder>) -> (r: String)
    ensures
        r@ == listing_json(reminder_views(rs@)),
{
    let mut items: Vec<String> = Vec::new();
    let mut i: usize = 0;
    while i < rs.len()
        invariant
            i <= rs@.len(),
            items@.len() == i,
            forall|j: int| 0 <= j < i ==> (#[trigger] items@[j])@ == reminder_json(rs@[j]@),
        decreases rs@.len() - i,
    {
        items.push(rs[i].to_json());
        i = i + 1;
    }
    proof {
        assert(views(items@) =~= reminder_views(rs@).map_values(|d: ReminderView| reminder_json(d)));
    }
    write_array(&items)
}

/// Ends the listing: the reminders read from the collection as a JSON array with
/// status 200, or the error's text in the envelope with status 200.
pub fn finish_listing(outcome: Result<RawMapping, Error>) -> (r: HttpReply)
    ensures
        r@ == listing_reply(
            match outcome {
                Ok(raw) => Ok(raw@),
                Err(e) => Err(e),
            },
        ),
{
    match outcome {
        Ok(raw) => {
            let rs = Reminder::from_json(raw);
            HttpReply { status: STATUS_OK, body: write_listing(&rs) }
        },
        Err(e) => {
            let m = ResponseMessage::from_error(e);
            m.into_reply()
        },
    }
}

/// With a credential that counts as expired and a renewal that fails, an
/// operation first asks for the renewal, then ends in `Authentication` without
/// any request to the store; the client gets the authentication failure in the
/// envelope, with the status the route uses on success.
pub proof fn lemma_lapsed_credential(
    held: Credential,
    uri: Seq<char>,
    op: OpView,
    now: int,
    success: SuccessView,
)
    requires
        held.expired_at(now),
    ensures
        begin_step(held, uri, op, now) == StepView::Renew,
        resume_step(None, uri, op) == StepView::Done(Err(Error::Authentication)),
        success matches SuccessView::Message(m) ==> outcome_reply(m, Err(Error::Authentication))
            == message_reply("Authentication error"@, m.1),
        success is Listing ==> listing_reply(Err(Error::Authentication)) == message_reply(
            "Authentication error"@,
            STATUS_OK,
        ),
{
}

} // verus!
