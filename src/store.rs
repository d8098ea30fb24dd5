//! The store client: a renewable bearer credential, the requests it makes, and
//! how their outcomes map to errors. The caller performs what the client asks
//! for (obtaining a credential, sending a request) and hands the result back.
use vstd::prelude::*;
use vstd::string::*;
use crate::error::Error;

verus! {

/// Seconds before its expiry from which a credential counts as expired, so that
/// a token is never sent just as it lapses.
pub const EXPIRY_MARGIN: i64 = 20;

/// A bearer token and the instant (seconds since the Unix epoch) it expires at.
#[derive(Debug, Clone)]
pub struct Credential {
    pub token: String,
    pub expires_at: i64,
}

impl Credential {
    /// The credential counts as expired at `now`.
    pub open spec fn expired_at(&self, now: int) -> bool {
        self.expires_at - EXPIRY_MARGIN <= now
    }

    /// Whether the credential counts as expired at `now`.
    pub fn has_expired(&self, now: i64) -> (r: bool)
        ensures
            r == self.expired_at(now as int),
    {
        if now > i64::MAX - EXPIRY_MARGIN {
            true
        } else {
            self.expires_at <= now + EXPIRY_MARGIN
        }
    }
}

/// The HTTP methods the client uses.
#[derive(Debug, Clone, Copy, PartialEq, Eq, Structural)]
pub enum Method {
    Get,
    Post,
    Put,
    Delete,
}

/// A request to send to the store.
#[derive(Debug)]
pub struct StoreRequest {
    pub method: Method,
    pub url: String,
    pub bearer: String,
    pub body: Option<String>,
}

/// The mathematical value of a request.
pub struct RequestView {
    pub method: Method,
    pub url: Seq<char>,
    pub bearer: Seq<char>,
    pub body: Option<Seq<char>>,
}

impl View for StoreRequest {
    type V = RequestView;

    open spec fn view(&self) -> RequestView {
        RequestView {
            method: self.method,
            url: self.url@,
            bearer: self.bearer@,
            body: crate::reminder::opt_view(self.body),
        }
    }
}

/// An operation on the store: a method, a path below the base address, and a
/// JSON body for writes.
#[derive(Debug)]
pub struct StoreOp {
    pub method: Method,
    pub path: String,
    pub body: Option<String>,
}

/// The mathematical value of an operation.
pub struct OpView {
    pub method: Method,
    pub path: Seq<char>,
    pub body: Option<Seq<char>>,
}

impl OpView {
    /// A write carries a body.
    pub open spec fn carries_body(self) -> bool {
        (self.method == Method::Post || self.method == Method::Put) ==> self.body is Some
    }
}

impl View for StoreOp {
    type V = OpView;

    open spec fn view(&self) -> OpView {
        OpView { method: self.method, path: self.path@, body: crate::reminder::opt_view(self.body) }
    }
}

/// What the client asks for next during an operation.
#[derive(Debug)]
pub enum StoreStep {
    /// Obtain a fresh credential and hand it to `Firebase::resume`.
    Renew,
    /// Send this request and hand its outcome to `Firebase::settle`.
    Send(StoreRequest),
    /// The operation is over, with this result.
    Done(Result<(), Error>),
}

/// The mathematical value of a step.
pub enum StepView {
    Renew,
    Send(RequestView),
    Done(Result<(), Error>),
}

impl View for StoreStep {
    type V = StepView;

    open spec fn view(&self) -> StepView {
        match self {
            StoreStep::Renew => StepView::Renew,
            StoreStep::Send(r) => StepView::Send(r@),
            StoreStep::Done(d) => StepView::Done(*d),
        }
    }
}

/// The address of `path` in the store below `uri`.
pub open spec fn url_of(uri: Seq<char>, path: Seq<char>) -> Seq<char> {
    uri + path + ".json"@
}

/// The request that carries out `op` with `token`.
pub open spec fn request_for(uri: Seq<char>, token: Seq<char>, op: OpView) -> RequestView {
    RequestView {
        method: op.method,
        url: url_of(uri, op.path),
        bearer: token,
        body: match op.method {
            Method::Get | Method::Delete => None,
            _ => op.body,
        },
    }
}

/// A status code in the success class, 200 to 299.
pub open spec fn success_status(status: u16) -> bool {
    200 <= status < 300
}

/// Whether `status` is in the success class.
pub fn is_success(status: u16) -> (r: bool)
    ensures
        r == success_status(status),
{
    200 <= status && status < 300
}

/// The error a method reports when the store answers with a status other than success.
pub open spec fn failure_of(method: Method) -> Error {
    match method {
        Method::Get => Error::NotFound,
        Method::Post | Method::Put => Error::PostData,
        Method::Delete => Error::DeleteData,
    }
}

/// The result of an operation from what sending its request gave: no answer
/// (the request could not be sent) or the status the store answered with.
pub open spec fn outcome_of(method: Method, answer: Option<u16>) -> Result<(), Error> {
    match answer {
        None => Err(Error::Authentication),
        Some(s) => if success_status(s) {
            Ok(())
        } else {
            Err(failure_of(method))
        },
    }
}

/// Talks to the store at a fixed base address with a renewable credential.
#[derive(Debug)]
pub struct Firebase {
    pub credential: Credential,
    pub uri: String,
}

impl Firebase {
    /// A client for the store at `uri` holding `credential`. Without a base
    /// address it fails with `URINotSet`; with one but without a credential,
    /// with `Authentication`.
    pub fn new(uri: Option<String>, credential: Option<Credential>) -> (r: Result<Firebase, Error>)
        ensures
            uri is None ==> r == Err::<Firebase, Error>(Error::URINotSet),
            uri is Some && credential is None ==> r == Err::<Firebase, Error>(Error::Authentication),
            uri is Some && credential is Some ==> r is Ok && r->Ok_0.uri == uri->Some_0
                && r->Ok_0.credential == credential->Some_0,
    {
        match uri {
            None => Err(Error::URINotSet),
            Some(uri) => match credential {
                None => Err(Error::Authentication),
                Some(credential) => Ok(Firebase { credential, uri }),
            },
        }
    }

    /// Whether the credential must be renewed before a request at `now`.
    pub fn needs_refresh(&self, now: i64) -> (r: bool)
        ensures
            r == self.credential.expired_at(now as int),
    {
        self.credential.has_expired(now)
    }

    /// Takes the outcome of a renewal: a fresh credential replaces the held one;
    /// without one the held credential stays, so that a later call can retry, and
    /// the result is `Authentication`.
    pub fn refresh(&mut self, renewed: Option<Credential>) -> (r: Result<(), Error>)
        ensures
            final(self).uri == old(self).uri,
            renewed is Some ==> r is Ok && final(self).credential == renewed->Some_0,
            renewed is None ==> r == Err::<(), Error>(Error::Authentication) && final(self).credential
                == old(self).credential,
    {
        match renewed {
            Some(c) => {
                self.credential = c;
                Ok(())
            },
            None => Err(Error::Authentication),
        }
    }

    /// The address of `path`: the base address, the path, then `.json`.
    fn url(&self, path: &str) -> (r: String)
        ensures
            r@ == url_of(self.uri@, path@),
    {
        let mut url = self.uri.clone();
        url.append(path);
        url.append(".json");
        url
    }

    /// A read of `path`.
    pub fn get(&self, path: &str) -> (r: StoreRequest)
        ensures
            r@ == (RequestView {
                method: Method::Get,
                url: url_of(self.uri@, path@),
                bearer: self.credential.token@,
                body: None,
            }),
    {
        StoreRequest {
            method: Method::Get,
            url: self.url(path),
            bearer: self.credential.token.clone(),
            body: None,
        }
    }

    /// A create below `path` with the JSON text `data`; the store assigns the id.
    pub fn post(&self, path: &str, data: String) -> (r: StoreRequest)
        ensures
            r@ == (RequestView {
                method: Method::Post,
                url: url_of(self.uri@, path@),
                bearer: self.credential.token@,
                body: Some(data@),
            }),
    {
        StoreRequest {
            method: Method::Post,
            url: self.url(path),
            bearer: self.credential.token.clone(),
            body: Some(data),
        }
    }

    /// A replacement of everything at `path` with the JSON text `data`.
    pub fn put(&self, path: &str, data: String) -> (r: StoreRequest)
        ensures
            r@ == (RequestView {
                method: Method::Put,
                url: url_of(self.uri@, path@),
                bearer: self.credential.token@,
                body: Some(data@),
            }),
    {
        StoreRequest {
            method: Method::Put,
            url: self.url(path),
            bearer: self.credential.token.clone(),
            body: Some(data),
        }
    }

    /// A delete of `path`.
    pub fn delete(&self, path: &str) -> (r: StoreRequest)
        ensures
            r@ == (RequestView {
                method: Method::Delete,
                url: url_of(self.uri@, path@),
                bearer: self.credential.token@,
                body: None,
            }),
    {
        StoreRequest {
            method: Method::Delete,
            url: self.url(path),
            bearer: self.credential.token.clone(),
            body: None,
        }
    }

    /// The request that carries out `op` with the held credential.
    pub fn request(&self, op: &StoreOp) -> (r: StoreRequest)
        requires
            op@.carries_body(),
        ensures
            r@ == request_for(self.uri@, self.credential.token@, op@),
    {
        let path = op.path.as_str();
        match op.method {
            Method::Get => self.get(path),
            Method::Delete => self.delete(path),
            Method::Post => self.post(path, write_body(&op.body)),
            Method::Put => self.put(path, write_body(&op.body)),
        }
    }

    /// The first step of `op` at `now`: renew an expired credential, or else send.
    pub fn begin(&self, op: &StoreOp, now: i64) -> (r: StoreStep)
        requires
            op@.carries_body(),
        ensures
            r@ == begin_step(self.credential, self.uri@, op@, now as int),
    {
        if self.needs_refresh(now) {
            StoreStep::Renew
        } else {
            StoreStep::Send(self.request(op))
        }
    }

    /// The step of `op` after a renewal: send with the fresh credential, or end
    /// with `Authentication` without contacting the store.
    pub fn resume(&mut self, op: &StoreOp, renewed: Option<Credential>) -> (r: StoreStep)
        requires
            op@.carries_body(),
        ensures
            final(self).uri == old(self).uri,
            final(self).credential == (match renewed {
                Some(c) => c,
                None => old(self).credential,
            }),
            r@ == resume_step(renewed, old(self).uri@, op@),
    {
        match self.refresh(renewed) {
            Ok(()) => StoreStep::Send(self.request(op)),
            Err(e) => StoreStep::Done(Err(e)),
        }
    }

    /// The result of an operation with `method` from what sending gave: `None`
    /// when the request could not be sent, else the status the store answered.
    pub fn settle(method: Method, answer: Option<u16>) -> (r: Result<(), Error>)
        ensures
            r == outcome_of(method, answer),
    {
        match answer {
            None => Err(Error::Authentication),
            Some(s) => if is_success(s) {
                Ok(())
            } else {
                match method {
                    Method::Get => Err(Error::NotFound),
                    Method::Post | Method::Put => Err(Error::PostData),
                    Method::Delete => Err(Error::DeleteData),
                }
            },
        }
    }
}

/// The body of a write.
fn write_body(body: &Option<String>) -> (r: String)
    requires
        body is Some,
    ensures
        r@ == body->Some_0@,
{
    match body {
        Some(b) => b.clone(),
        None => String::new(),
    }
}

/// The first step of an operation: renewal when the credential is expired at
/// `now`, else the request.
pub open spec fn begin_step(held: Credential, uri: Seq<char>, op: OpView, now: int) -> StepView {
    if held.expired_at(now) {
        StepView::Renew
    } else {
        StepView::Send(request_for(uri, held.token@, op))
    }
}

/// The step after a renewal: the request with the fresh credential, or the end
/// of the operation with `Authentication`.
pub open spec fn resume_step(renewed: Option<Credential>, uri: Seq<char>, op: OpView) -> StepView {
    match renewed {
        Some(c) => StepView::Send(request_for(uri, c.token@, op)),
        None => StepView::Done(Err(Error::Authentication)),
    }
}

} // verus!
