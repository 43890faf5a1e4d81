//! The protocol of the session service: how each operation is addressed and
//! how its reply is read.

use vstd::prelude::*;
use vstd::string::*;
use crate::json::Json;
use crate::session::{decoded_text, DecodeFault, Session};
use crate::status::{success_class, NOT_FOUND};
use crate::text::{decimal, decimal_text};

verus! {

/// What can go wrong with one call to the service. Each is final for the call
/// that met it.
#[derive(Debug, PartialEq, Eq)]
pub enum ClientError {
    /// No response arrived: the connection failed or the call timed out.
    Transport(String),
    /// The service answered with a status outside the success class.
    RequestFailed { status: u16, body: String },
    /// The service knows no session of that id.
    NotFound,
    /// The response body does not describe a session.
    DecodeFailed(DecodeFault),
    /// A unit of work that ran beside others broke down by itself.
    TaskFailure(String),
}

/// The HTTP method of a request.
#[derive(Clone, Copy, Debug, PartialEq, Eq)]
pub enum Method {
    Get,
    Post,
    Delete,
}

/// One call to the service, ready to be sent.
#[derive(Debug, PartialEq, Eq)]
pub struct Request {
    pub method: Method,
    /// The full address: base URL and path.
    pub url: String,
    /// The JSON body, where the call has one.
    pub payload: Option<Json>,
}

/// What came back from one call.
#[derive(Debug, PartialEq, Eq)]
pub enum Reply {
    /// Nothing came back; the text says why.
    Failed(String),
    /// A response came back. `body` is `None` where it could not be read.
    Answer { status: u16, body: Option<String> },
}

/// Handle on one service instance: its base URL without trailing slashes.
#[derive(Debug, PartialEq, Eq)]
pub struct OrchestratorClient {
    base_url: String,
}

/// `s` without the slashes at its end.
pub open spec fn without_trailing_slashes(s: Seq<char>) -> Seq<char>
    decreases s.len(),
{
    if s.len() > 0 && s.last() == '/' {
        without_trailing_slashes(s.drop_last())
    } else {
        s
    }
}

/// The text of a body, empty where the body could not be read.
pub open spec fn body_text(body: Option<String>) -> Seq<char> {
    match body {
        Some(text) => text@,
        None => Seq::empty(),
    }
}

/// Whether `e` is the rejection that carries `status` and the text of `body`.
pub open spec fn is_rejection(e: ClientError, status: u16, body: Option<String>) -> bool {
    e matches ClientError::RequestFailed { status: s, body: b } && s == status && b@ == body_text(
        body,
    )
}

/// Whether `r` is what a reply to a call that returns a session means.
/// With `missing_is_absence`, the status 404 means that there is no such
/// session; without it, 404 is a rejection like any other.
pub open spec fn session_outcome(
    reply: Reply,
    missing_is_absence: bool,
    r: Result<Session, ClientError>,
) -> bool {
    match reply {
        Reply::Failed(why) => r == Err::<Session, ClientError>(ClientError::Transport(why)),
        Reply::Answer { status, body } => {
            if missing_is_absence && status == NOT_FOUND {
                r == Err::<Session, ClientError>(ClientError::NotFound)
            } else if !success_class(status) {
                r is Err && is_rejection(r->Err_0, status, body)
            } else {
                match decoded_text(body_text(body)) {
                    Ok(session) => r == Ok::<Session, ClientError>(session),
                    Err(fault) => r == Err::<Session, ClientError>(
                        ClientError::DecodeFailed(fault),
                    ),
                }
            }
        },
    }
}

/// Whether `r` is what a reply to a fault injection means.
pub open spec fn crash_outcome(reply: Reply, r: Result<(), ClientError>) -> bool {
    match reply {
        Reply::Failed(why) => r == Err::<(), ClientError>(ClientError::Transport(why)),
        Reply::Answer { status, body } => {
            if success_class(status) {
                r is Ok
            } else {
                r is Err && is_rejection(r->Err_0, status, body)
            }
        },
    }
}

/// What a reply to a deletion means: the status as it came.
pub open spec fn delete_outcome(reply: Reply) -> Result<u16, ClientError> {
    match reply {
        Reply::Failed(why) => Err(ClientError::Transport(why)),
        Reply::Answer { status, body } => Ok(status),
    }
}

/// Whether `r` is what a reply to a health probe means: the body as it came,
/// whatever the status.
pub open spec fn health_outcome(reply: Reply, r: Result<String, ClientError>) -> bool {
    match reply {
        Reply::Failed(why) => r == Err::<String, ClientError>(ClientError::Transport(why)),
        Reply::Answer { status, body } => match body {
            Some(text) => r == Ok::<String, ClientError>(text),
            None => r matches Err(ClientError::Transport(why)) && why@
                == "failed to read health response"@,
        },
    }
}

fn rejection(status: u16, body: Option<String>) -> (e: ClientError)
    ensures
        is_rejection(e, status, body),
{
    let text = match body {
        Some(text) => text,
        None => String::new(),
    };
    ClientError::RequestFailed { status, body: text }
}

fn read_session(reply: Reply, missing_is_absence: bool) -> (r: Result<Session, ClientError>)
    ensures
        session_outcome(reply, missing_is_absence, r),
{
    match reply {
        Reply::Failed(why) => Err(ClientError::Transport(why)),
        Reply::Answer { status, body } => {
            if missing_is_absence && crate::status::is_not_found(status) {
                Err(ClientError::NotFound)
            } else if !crate::status::is_success(status) {
                Err(rejection(status, body))
            } else {
                let decoded = match &body {
                    Some(text) => Session::decode(text.as_str()),
                    None => Session::decode(""),
                };
                proof {
                    reveal_strlit("");
                    assert(""@ =~= Seq::<char>::empty());
                }
                match decoded {
                    Ok(session) => Ok(session),
                    Err(fault) => Err(ClientError::DecodeFailed(fault)),
                }
            }
        },
    }
}

impl Reply {
    /// Reads the reply to a create call: a transport failure as it is, a
    /// status outside the success class as a rejection with the body's text,
    /// and otherwise the session that the body describes.
    pub fn created(self) -> (r: Result<Session, ClientError>)
        ensures
            session_outcome(self, false, r),
    {
        read_session(self, false)
    }

    /// Reads the reply to a get call. As for a create call, but the status
    /// 404 means `NotFound`, whatever the body holds.
    pub fn fetched(self) -> (r: Result<Session, ClientError>)
        ensures
            session_outcome(self, true, r),
    {
        read_session(self, true)
    }

    /// Reads the reply to a delete call: the status as it came. Only a
    /// transport failure is an error.
    pub fn deleted(self) -> (r: Result<u16, ClientError>)
        ensures
            r == delete_outcome(self),
    {
        match self {
            Reply::Failed(why) => Err(ClientError::Transport(why)),
            Reply::Answer { status, body } => Ok(status),
        }
    }

    /// Reads the reply to a health probe: the body as it came.
    pub fn health(self) -> (r: Result<String, ClientError>)
        ensures
            health_outcome(self, r),
    {
        match self {
            Reply::Failed(why) => Err(ClientError::Transport(why)),
            Reply::Answer { status, body } => match body {
                Some(text) => Ok(text),
                None => Err(
                    ClientError::Transport(String::from_str("failed to read health response")),
                ),
            },
        }
    }

    /// Reads the reply to a fault injection: success on a success status,
    /// else a rejection with the body's text.
    pub fn crashed(self) -> (r: Result<(), ClientError>)
        ensures
            crash_outcome(self, r),
    {
        match self {
            Reply::Failed(why) => Err(ClientError::Transport(why)),
            Reply::Answer { status, body } => {
                if crate::status::is_success(status) {
                    Ok(())
                } else {
                    Err(rejection(status, body))
                }
            },
        }
    }
}

impl OrchestratorClient {
    /// The base URL that requests are built on.
    pub closed spec fn base(&self) -> Seq<char> {
        self.base_url@
    }

    /// A client for the service at `base_url`; trailing slashes are dropped.
    pub fn new(base_url: &str) -> (r: Self)
        ensures
            r.base() == without_trailing_slashes(base_url@),
    {
        let mut n: usize = base_url.unicode_len();
        assert(base_url@.subrange(0, n as int) =~= base_url@);
        while n > 0 && base_url.get_char(n - 1) == '/'
            invariant
                n <= base_url@.len(),
                without_trailing_slashes(base_url@) == without_trailing_slashes(
                    base_url@.subrange(0, n as int),
                ),
            decreases n,
        {
            assert(base_url@.subrange(0, n as int).drop_last() =~= base_url@.subrange(
                0,
                n - 1,
            ));
            n -= 1;
        }
        let kept = base_url.substring_char(0, n);
        OrchestratorClient { base_url: String::from_str(kept) }
    }

    /// The base URL, for requests that this type does not build.
    pub fn base_url(&self) -> (r: &str)
        ensures
            r@ == self.base(),
    {
        self.base_url.as_str()
    }

    fn address(&self, path: &str, id: &str) -> (url: String)
        ensures
            url@ == self.base() + path@ + id@,
    {
        let mut url = self.base_url.clone();
        url.append(path);
        url.append(id);
        url
    }

    /// The call that creates a session with the payload `data`:
    /// `POST /sessions`.
    pub fn create_session(&self, data: Json) -> (r: Request)
        ensures
            r.method == Method::Post,
            r.url@ == self.base() + "/sessions"@,
            r.payload == Some(data),
    {
        let url = self.address("/sessions", "");
        proof {
            reveal_strlit("");
            assert(url@ =~= self.base() + "/sessions"@);
        }
        Request { method: Method::Post, url, payload: Some(data) }
    }

    /// The call that reads the session `id`: `GET /sessions/{id}`.
    pub fn get_session(&self, id: &str) -> (r: Request)
        ensures
            r.method == Method::Get,
            r.url@ == self.base() + "/sessions/"@ + id@,
            r.payload is None,
    {
        Request { method: Method::Get, url: self.address("/sessions/", id), payload: None }
    }

    /// The call that deletes the session `id`: `DELETE /sessions/{id}`.
    pub fn delete_session(&self, id: &str) -> (r: Request)
        ensures
            r.method == Method::Delete,
            r.url@ == self.base() + "/sessions/"@ + id@,
            r.payload is None,
    {
        Request { method: Method::Delete, url: self.address("/sessions/", id), payload: None }
    }

    /// The reachability probe: `GET /health`.
    pub fn health(&self) -> (r: Request)
        ensures
            r.method == Method::Get,
            r.url@ == self.base() + "/health"@,
            r.payload is None,
    {
        let url = self.address("/health", "");
        proof {
            reveal_strlit("");
            assert(url@ =~= self.base() + "/health"@);
        }
        Request { method: Method::Get, url, payload: None }
    }

    /// The call that makes the service end the worker bound to a session:
    /// `POST /debug/crash-worker?session_id={id}`.
    pub fn crash_worker(&self, session_id: &str) -> (r: Request)
        ensures
            r.method == Method::Post,
            r.url@ == self.base() + "/debug/crash-worker?session_id="@ + session_id@,
            r.payload is None,
    {
        Request {
            method: Method::Post,
            url: self.address("/debug/crash-worker?session_id=", session_id),
            payload: None,
        }
    }
}

impl ClientError {
    /// The error in words.
    pub open spec fn text(self) -> Seq<char> {
        match self {
            ClientError::Transport(why) => "transport error: "@ + why@,
            ClientError::RequestFailed { status, body } => "request failed with status "@
                + decimal(status as nat) + ": "@ + body@,
            ClientError::NotFound => "404"@,
            ClientError::DecodeFailed(fault) => "failed to parse session response: "@
                + fault.text(),
            ClientError::TaskFailure(why) => "task join error: "@ + why@,
        }
    }

    /// The error in words.
    pub fn message(&self) -> (r: String)
        ensures
            r@ == self.text(),
    {
        match self {
            ClientError::Transport(why) => {
                let mut r = String::from_str("transport error: ");
                r.append(why.as_str());
                r
            },
            ClientError::RequestFailed { status, body } => {
                let mut r = String::from_str("request failed with status ");
                r.append(decimal_text(*status as u64).as_str());
                r.append(": ");
                r.append(body.as_str());
                r
            },
            ClientError::NotFound => String::from_str("404"),
            ClientError::DecodeFailed(fault) => {
                let mut r = String::from_str("failed to parse session response: ");
                r.append(fault.message());
                r
            },
            ClientError::TaskFailure(why) => {
                let mut r = String::from_str("task join error: ");
                r.append(why.as_str());
                r
            },
        }
    }

    /// Tells whether this is `NotFound`.
    pub fn is_not_found(&self) -> (r: bool)
        ensures
            r == (self is NotFound),
    {
        match self {
            ClientError::NotFound => true,
            _ => false,
        }
    }
}

} // verus!
