//! One call of the API, decided step by step. The library says what to send
//! and what the call returns; the program that uses it performs the
//! exchange and reports how it ended.

use vstd::prelude::*;
use crate::error::Error;

verus! {

/// The address of the API.
pub const ENDPOINT: &'static str = "https://api.smash.gg/gql/alpha";

/// The method of every request.
pub const METHOD: &'static str = "POST";

/// The header that carries the credential.
pub const AUTHORIZATION: &'static str = "Authorization";

/// What stands before the token in the credential.
pub const BEARER_LEAD: &'static str = "Bearer ";

/// The header that says what the body is.
pub const CONTENT_TYPE: &'static str = "Content-Type";

/// The kind of the body.
pub const JSON_CONTENT: &'static str = "application/json";

/// The one key of the body.
pub const QUERY_KEY: &'static str = "query";

/// A header of a request or of a response.
#[derive(Debug, PartialEq, Eq)]
pub struct Header {
    pub name: String,
    pub value: String,
}

impl View for Header {
    type V = (Seq<char>, Seq<char>);

    open spec fn view(&self) -> (Seq<char>, Seq<char>) {
        (self.name@, self.value@)
    }
}

/// A request, ready to be sent as it stands.
#[derive(Debug, PartialEq, Eq)]
pub struct Request {
    pub method: String,
    pub url: String,
    pub headers: Vec<Header>,
    pub body: Vec<u8>,
}

/// A request as mathematics.
pub struct RequestView {
    pub method: Seq<char>,
    pub url: Seq<char>,
    pub headers: Seq<(Seq<char>, Seq<char>)>,
    pub body: Seq<u8>,
}

impl View for Request {
    type V = RequestView;

    open spec fn view(&self) -> RequestView {
        RequestView {
            method: self.method@,
            url: self.url@,
            headers: self.headers@.map_values(|h: Header| h@),
            body: self.body@,
        }
    }
}

/// What the API answered. Which replies count as a response is for the
/// client that performs the exchange to decide: the library takes what it
/// is handed. A client that treats an error status as a failure reports the
/// failure, and the call then ends in `RequestFailed`.
#[derive(Debug, PartialEq, Eq)]
pub struct Response {
    pub status: u16,
    pub headers: Vec<Header>,
    pub body: Vec<u8>,
}

/// The bytes that `serde_json::to_vec` writes for the JSON object whose one
/// member has the name `key` and the string `value`.
pub uninterp spec fn json_object(key: Seq<char>, value: Seq<char>) -> Seq<u8>;

/// Calls `serde_json::to_vec` on the object with the one member `key`, a
/// string `value`. Trusted: the call succeeds, and what it writes depends on
/// the two texts alone. It fails only where a value refuses to be written or
/// a map has a key that is no string; here a string is written under a
/// string key, into a vector, which takes every write. Nothing is claimed
/// of the bytes themselves.
#[verifier::external_body]
fn encode_object(key: &str, value: &str) -> (bytes: Option<Vec<u8>>)
    ensures
        bytes is Some,
        bytes matches Some(b) ==> b@ == json_object(key@, value@),
{
    let mut object = serde_json::Map::new();
    object.insert(key.to_owned(), serde_json::Value::String(value.to_owned()));
    serde_json::to_vec(&serde_json::Value::Object(object)).ok()
}

/// The request that carries `body` to the API with `token` as credential.
pub open spec fn request_for(token: Seq<char>, body: Seq<u8>) -> RequestView {
    RequestView {
        method: METHOD@,
        url: ENDPOINT@,
        headers: seq![(AUTHORIZATION@, BEARER_LEAD@ + token), (CONTENT_TYPE@, JSON_CONTENT@)],
        body,
    }
}

/// Builds the request that carries an encoded body: a `POST` to the
/// endpoint, with the token behind `Bearer ` as its credential, and the body
/// declared as JSON.
pub fn api_request(token: &str, body: Vec<u8>) -> (request: Request)
    ensures
        request@ == request_for(token@, body@),
{
    let mut headers: Vec<Header> = Vec::new();
    headers.push(
        Header {
            name: String::from_str(AUTHORIZATION),
            value: String::from_str(BEARER_LEAD).concat(token),
        },
    );
    headers.push(
        Header { name: String::from_str(CONTENT_TYPE), value: String::from_str(JSON_CONTENT) },
    );
    let request = Request {
        method: String::from_str(METHOD),
        url: String::from_str(ENDPOINT),
        headers,
        body,
    };
    assert(request@.headers =~= request_for(token@, body@).headers);
    request
}

/// Where a call stands.
#[derive(Debug, Clone, Copy, PartialEq, Eq, Structural)]
pub enum Phase {
    /// No request is under way.
    Idle,
    /// A request was handed out and its outcome is awaited.
    Awaiting,
}

/// What the program reports to the library.
#[derive(Debug, PartialEq, Eq)]
pub enum Event {
    /// A call of the API is asked for.
    Invoked { token: String, query: String },
    /// The exchange ended: with a response, or with the diagnostic of what
    /// kept it from yielding one.
    Settled(Result<Response, String>),
}

/// What the library tells the program to do.
#[derive(Debug, PartialEq, Eq)]
pub enum Action {
    /// Send this request, once, and report how the exchange ended.
    Send(Request),
    /// The call is over, with this result.
    Return(Result<Response, Error>),
}

/// What a call returns for the outcome of its exchange: the response as it
/// was reported, or the failure with its diagnostic.
pub open spec fn settled(outcome: Result<Response, String>) -> Result<Response, Error> {
    match outcome {
        Ok(response) => Ok(response),
        Err(detail) => Err(Error::RequestFailed(detail)),
    }
}

/// Closes a call on the outcome of its exchange. What the client reported
/// as a response is handed on unread, its status included; what it reported
/// as a failure, an error status too where the client takes it for one,
/// becomes `RequestFailed` with the diagnostic it came with.
pub fn settle(outcome: Result<Response, String>) -> (result: Result<Response, Error>)
    ensures
        result == settled(outcome),
{
    match outcome {
        Ok(response) => Ok(response),
        Err(detail) => Err(Error::RequestFailed(detail)),
    }
}

/// Whether the step from `phase` on `event` hands out a request: an
/// invocation in the idle phase does, and nothing else.
pub open spec fn sends_request(phase: Phase, event: Event) -> bool {
    phase == Phase::Idle && event is Invoked
}

/// The phase after the step from `phase` on `event`.
pub open spec fn next_phase(phase: Phase, event: Event) -> Phase {
    if sends_request(phase, event) {
        Phase::Awaiting
    } else if phase == Phase::Awaiting && event is Settled {
        Phase::Idle
    } else {
        phase
    }
}

/// Whether `action` is what the step from `phase` on `event` commands.
pub open spec fn commands(phase: Phase, event: Event, action: Action) -> bool {
    match (phase, event) {
        (Phase::Idle, Event::Invoked { token, query }) => action matches Action::Send(request)
            && request@ == request_for(token@, json_object(QUERY_KEY@, query@)),
        (Phase::Awaiting, Event::Settled(outcome)) => action == Action::Return(settled(outcome)),
        _ => action == Action::Return(Err(Error::Unknown)),
    }
}

/// One step of a call of the API.
///
/// An invocation in the idle phase hands out the one request of the call: a
/// `POST` to the endpoint with `Bearer ` and the token as credential, whose
/// body is the JSON object with the one key `query`. The outcome of the
/// exchange, reported while it is awaited, ends the call: no outcome leads to
/// another request. An event that the phase does not expect ends in
/// `Unknown`, and leaves the phase as it is.
pub fn query_api(phase: Phase, event: Event) -> (next: (Phase, Action))
    ensures
        next.0 == next_phase(phase, event),
        commands(phase, event, next.1),
        next.1 is Send <==> sends_request(phase, event),
{
    match phase {
        Phase::Idle => match event {
            Event::Invoked { token, query } => {
                let body = encode_object(QUERY_KEY, query.as_str()).unwrap();
                (Phase::Awaiting, Action::Send(api_request(token.as_str(), body)))
            },
            Event::Settled(_) => (Phase::Idle, Action::Return(Err(Error::Unknown))),
        },
        Phase::Awaiting => match event {
            Event::Settled(outcome) => (Phase::Idle, Action::Return(settle(outcome))),
            Event::Invoked { .. } => (Phase::Awaiting, Action::Return(Err(Error::Unknown))),
        },
    }
}

/// How many requests are handed out along `events`, from `phase` on.
pub open spec fn requests_sent(phase: Phase, events: Seq<Event>) -> nat
    decreases events.len(),
{
    if events.len() == 0 {
        0
    } else {
        let first: nat = if sends_request(phase, events[0]) {
            1
        } else {
            0
        };
        first + requests_sent(next_phase(phase, events[0]), events.drop_first())
    }
}

/// How many of `events` are invocations.
pub open spec fn invocations(events: Seq<Event>) -> nat
    decreases events.len(),
{
    if events.len() == 0 {
        0
    } else {
        let first: nat = if events[0] is Invoked {
            1
        } else {
            0
        };
        first + invocations(events.drop_first())
    }
}

/// A call makes a single attempt: along any sequence of events, from any
/// phase, no more requests are handed out than calls were asked for,
/// however the exchanges end.
pub proof fn law_single_attempt(phase: Phase, events: Seq<Event>)
    ensures
        requests_sent(phase, events) <= invocations(events),
    decreases events.len(),
{
    if events.len() > 0 {
        law_single_attempt(next_phase(phase, events[0]), events.drop_first());
    }
}

/// The outcome of an exchange never leads to another request.
pub proof fn law_outcome_ends_call(phase: Phase, outcome: Result<Response, String>)
    ensures
        !sends_request(phase, Event::Settled(outcome)),
        next_phase(phase, Event::Settled(outcome)) == Phase::Idle,
{
}

} // verus!
