//! The handlers' side: from a decoded request to a command for the worker,
//! and from the worker's reply to a response.

use vstd::prelude::*;
use crate::dataformat::DataFrame;
use crate::dataformat::Query;
use crate::error::Error;
use crate::http_handling::same_text;
use crate::http_handling::text_view;
use crate::auth::auth;
use crate::auth::authenticated;
use crate::auth::Credentials;
use crate::http_handling::headers_view;
use crate::http_handling::Header;
use crate::http_handling::HeaderView;
use crate::http_handling::HttpError;
use crate::http_handling::Method;
use crate::http_handling::Request;
use crate::message_passing::reply_channel;
use crate::message_passing::Message;
use crate::message_passing::Reply;
use crate::message_passing::ReplyReceiver;
use crate::message_passing::ReplySlot;
use crate::message_passing::Response;
use crate::query_string::parse_query;
use crate::query_string::parsed_query;
use crate::response::HttpResponse;
use crate::status::StatusCode;

verus! {

/// The sending end of crossbeam's channel, carried as it is.
#[verifier::external_type_specification]
#[verifier::external_body]
#[verifier::reject_recursive_types(T)]
pub struct ExChannelSender<T>(crossbeam::channel::Sender<T>);

/// The capacity that a command channel was made with, `None` for a channel
/// without a bound.
pub uninterp spec fn channel_bound(sender: crossbeam::channel::Sender<Message>) -> Option<nat>;

/// `crossbeam::channel::Sender::capacity`. Trusted: the capacity is the one
/// that the channel was made with, and a channel without a bound has none.
#[verifier::external_body]
fn channel_capacity(sender: &crossbeam::channel::Sender<Message>) -> (r: Option<usize>)
    ensures
        match r {
            Some(n) => channel_bound(*sender) == Some(n as nat),
            None => channel_bound(*sender) is None,
        },
{
    sender.capacity()
}

/// `crossbeam::channel::Sender::send`. Trusted: a message that could not be
/// sent comes back unchanged. On a full channel the call would wait for
/// room, so only a channel without a bound is admitted.
#[verifier::external_body]
fn channel_send(sender: &crossbeam::channel::Sender<Message>, message: Message) -> (r: Result<
    (),
    Message,
>)
    requires
        channel_bound(*sender) is None,
    ensures
        r matches Err(back) ==> back == message,
{
    sender.send(message).map_err(|e| e.into_inner())
}

/// The handlers' end of the command channel. The channel has no bound, so a
/// handler that sends is never held up by the worker.
#[derive(Debug)]
pub struct CommandSender {
    sender: crossbeam::channel::Sender<Message>,
}

impl CommandSender {
    #[verifier::type_invariant]
    spec fn without_bound(self) -> bool {
        channel_bound(self.sender) is None
    }

    /// The channel end that the sender holds.
    pub closed spec fn channel(self) -> crossbeam::channel::Sender<Message> {
        self.sender
    }

    /// Takes the sending end of a channel for commands; `None` for a
    /// channel with a bound.
    pub fn new(sender: crossbeam::channel::Sender<Message>) -> (r: Option<CommandSender>)
        ensures
            r is Some <==> channel_bound(sender) is None,
            r matches Some(taken) ==> taken.channel() == sender,
    {
        match channel_capacity(&sender) {
            None => Some(CommandSender { sender }),
            Some(_) => None,
        }
    }

    /// Sends a command to the worker without waiting. The command comes
    /// back where the worker's end of the channel is gone.
    pub fn send(&self, message: Message) -> (r: Result<(), Message>)
        ensures
            r matches Err(back) ==> back == message,
    {
        proof {
            use_type_invariant(self);
        }
        channel_send(&self.sender, message)
    }
}

/// Whether `response` has the status `code` and the body `text`.
pub open spec fn is_response(response: HttpResponse, code: u16, text: Seq<char>) -> bool {
    response.status.value() == code && response.body@ == text
}

/// The response with the given status and body.
pub fn build_response(status_code: StatusCode, status_msg: String) -> (r: HttpResponse)
    ensures
        r.status == status_code,
        r.body == status_msg,
{
    HttpResponse { status: status_code, body: status_msg }
}

/// The response with the given status and the text of a literal.
fn respond(status: StatusCode, text: &str) -> (r: HttpResponse)
    ensures
        r.status == status,
        r.body@ == text@,
{
    build_response(status, String::from_str(text))
}

/// The query of a request: the path must be the API's, a query string must
/// be there, and it must describe a query.
pub open spec fn extracted(path: Seq<char>, query: Option<Seq<char>>) -> Result<Query, Error> {
    if path != "/api/v1/"@ {
        Err(Error::QueryInvalidAPI)
    } else {
        match query {
            None => Err(Error::QueryNotProvided),
            Some(text) => match parsed_query(text) {
                Some(query) => Ok(query),
                None => Err(Error::QueryParsingError),
            },
        }
    }
}

/// The characters of `text`, where there is a text.
pub open spec fn str_view(text: Option<&str>) -> Option<Seq<char>> {
    match text {
        Some(t) => Some(t@),
        None => None,
    }
}

/// Reads the query of a request with the given path and query string.
pub fn extract_query(path: &str, query: Option<&str>) -> (r: Result<Query, Error>)
    ensures
        r == extracted(path@, str_view(query)),
{
    if same_text(path, "/api/v1/") {
        match query {
            Some(text) => match parse_query(text) {
                Some(query) => Ok(query),
                None => Err(Error::QueryParsingError),
            },
            None => Err(Error::QueryNotProvided),
        }
    } else {
        Err(Error::QueryInvalidAPI)
    }
}

/// The status and body that reject a request for its path or query.
pub open spec fn query_rejection_of(error: Error) -> (u16, Seq<char>) {
    match error {
        Error::QueryInvalidAPI => (400, "Invalid API. Consider using /api/v1/"@),
        Error::QueryNotProvided => (400, "No Query found. Consider adding one."@),
        Error::QueryParsingError => (400, "Couldn't parse query"@),
        _ => (500, "Request introduces undefined behaviour. Request rejected"@),
    }
}

/// The response that rejects a request for its path or query.
pub fn query_rejection(error: &Error) -> (r: HttpResponse)
    ensures
        is_response(r, query_rejection_of(*error).0, query_rejection_of(*error).1),
{
    match error {
        Error::QueryInvalidAPI => respond(
            StatusCode::bad_request(),
            "Invalid API. Consider using /api/v1/",
        ),
        Error::QueryNotProvided => respond(
            StatusCode::bad_request(),
            "No Query found. Consider adding one.",
        ),
        Error::QueryParsingError => respond(StatusCode::bad_request(), "Couldn't parse query"),
        _ => respond(
            StatusCode::internal_server_error(),
            "Request introduces undefined behaviour. Request rejected",
        ),
    }
}

/// The status and body that reject a request for its body.
pub open spec fn body_rejection_of(error: Error) -> (u16, Seq<char>) {
    match error {
        Error::InvalidDataFormat => (400, "Invalid data format"@),
        Error::TransmissionError => (400, "Data transmission failed"@),
        _ => (500, "Request introduces undefined behaviour. Request rejected"@),
    }
}

/// The response that rejects a request for its body.
pub fn body_rejection(error: &Error) -> (r: HttpResponse)
    ensures
        is_response(r, body_rejection_of(*error).0, body_rejection_of(*error).1),
{
    match error {
        Error::InvalidDataFormat => respond(StatusCode::bad_request(), "Invalid data format"),
        Error::TransmissionError => respond(StatusCode::bad_request(), "Data transmission failed"),
        _ => respond(
            StatusCode::internal_server_error(),
            "Request introduces undefined behaviour. Request rejected",
        ),
    }
}

/// The response to bytes that are no request: a bad request, with the name
/// of what is wrong.
pub fn malformed_response(error: HttpError) -> (r: HttpResponse)
    ensures
        is_response(r, 400, error.name()),
{
    build_response(StatusCode::bad_request(), error.to_text())
}

/// The body of the response to a command that did not reach the worker.
pub open spec fn dispatch_failure_text() -> Seq<char> {
    "Failed Message Passing to Worker"@
}

/// The response to a create: success as soon as the command is on its way,
/// a server-side failure where it could not be sent.
pub fn created_response(sent: bool) -> (r: HttpResponse)
    ensures
        sent ==> is_response(r, 200, Seq::<char>::empty()),
        !sent ==> is_response(r, 500, dispatch_failure_text()),
{
    if sent {
        build_response(StatusCode::ok(), String::new())
    } else {
        respond(StatusCode::internal_server_error(), "Failed Message Passing to Worker")
    }
}

/// The response that ends the wait for a reply: the worker's status and
/// text, or a bad gateway where the slot was closed without a reply.
pub fn reply_response(outcome: Option<Reply>) -> (r: HttpResponse)
    ensures
        match outcome {
            Some(reply) => r.status == reply.status() && r.body@ == reply.payload()@,
            None => is_response(r, 502, "Worker timed out"@),
        },
{
    match outcome {
        Some(reply) => build_response(reply.status_code(), reply.content()),
        None => respond(StatusCode::bad_gateway(), "Worker timed out"),
    }
}

/// How far a request has come.
#[derive(Debug)]
pub enum Pending {
    /// The response is there.
    Done(HttpResponse),
    /// The command is with the worker; the reply comes on this channel.
    Awaiting(ReplyReceiver),
}

impl Pending {
    /// Whether the request was answered with status `code` and body `text`.
    pub open spec fn answered(self, code: u16, text: Seq<char>) -> bool {
        self matches Pending::Done(response) && is_response(response, code, text)
    }

    /// Whether the command went to the worker, or the request was answered
    /// with the failure to send it.
    pub open spec fn forwarded(self) -> bool {
        self is Awaiting || self.answered(500, dispatch_failure_text())
    }
}

/// The response after a command that expects a reply was handed to the
/// channel: the wait for the reply where it was sent, a server-side failure
/// where it was not.
pub fn forwarded_response(sent: bool, receiver: ReplyReceiver) -> (r: Pending)
    ensures
        sent ==> r == Pending::Awaiting(receiver),
        !sent ==> r.answered(500, dispatch_failure_text()),
{
    if sent {
        Pending::Awaiting(receiver)
    } else {
        Pending::Done(
            respond(StatusCode::internal_server_error(), "Failed Message Passing to Worker"),
        )
    }
}

/// The command of a create: the record of the body, or the response that
/// rejects the body.
pub fn create_command(record: Result<DataFrame, Error>) -> (r: Result<Message, HttpResponse>)
    ensures
        match record {
            Ok(dataframe) => r == Ok::<Message, HttpResponse>(Message::Post(dataframe)),
            Err(e) => r matches Err(response) && is_response(
                response,
                body_rejection_of(e).0,
                body_rejection_of(e).1,
            ),
        },
{
    match record {
        Ok(dataframe) => Ok(Message::Post(dataframe)),
        Err(e) => Err(body_rejection(&e)),
    }
}

/// The command of a read: the query of the request with the slot for the
/// reply, or the response that rejects the path or the query.
pub fn read_command(path: &str, query: Option<&str>, slot: ReplySlot) -> (r: Result<
    Message,
    HttpResponse,
>)
    ensures
        match extracted(path@, str_view(query)) {
            Ok(selection) => r == Ok::<Message, HttpResponse>(Message::Get(selection, slot)),
            Err(e) => r matches Err(response) && is_response(
                response,
                query_rejection_of(e).0,
                query_rejection_of(e).1,
            ),
        },
{
    match extract_query(path, query) {
        Ok(selection) => Ok(Message::Get(selection, slot)),
        Err(e) => Err(query_rejection(&e)),
    }
}

/// The command of a delete: the query of the request with the slot for the
/// reply, or the response that rejects the path or the query.
pub fn delete_command(path: &str, query: Option<&str>, slot: ReplySlot) -> (r: Result<
    Message,
    HttpResponse,
>)
    ensures
        match extracted(path@, str_view(query)) {
            Ok(selection) => r == Ok::<Message, HttpResponse>(Message::Delete(selection, slot)),
            Err(e) => r matches Err(response) && is_response(
                response,
                query_rejection_of(e).0,
                query_rejection_of(e).1,
            ),
        },
{
    match extract_query(path, query) {
        Ok(selection) => Ok(Message::Delete(selection, slot)),
        Err(e) => Err(query_rejection(&e)),
    }
}

/// The command of an update: the query of the request and the record of
/// the body with the slot for the reply, or the response that rejects the
/// request, for its path or query first and for its body second.
pub fn update_command(
    path: &str,
    query: Option<&str>,
    record: Result<DataFrame, Error>,
    slot: ReplySlot,
) -> (r: Result<Message, HttpResponse>)
    ensures
        match (extracted(path@, str_view(query)), record) {
            (Ok(selection), Ok(dataframe)) => r == Ok::<Message, HttpResponse>(
                Message::Put(selection, dataframe, slot),
            ),
            (Err(e), _) => r matches Err(response) && is_response(
                response,
                query_rejection_of(e).0,
                query_rejection_of(e).1,
            ),
            (Ok(_), Err(e)) => r matches Err(response) && is_response(
                response,
                body_rejection_of(e).0,
                body_rejection_of(e).1,
            ),
        },
{
    match (extract_query(path, query), record) {
        (Ok(selection), Ok(dataframe)) => Ok(Message::Put(selection, dataframe, slot)),
        (Err(e), _) => Err(query_rejection(&e)),
        (Ok(_), Err(e)) => Err(body_rejection(&e)),
    }
}

/// Hands a command that expects a reply to the channel and turns to the
/// wait for the reply, or answers with the rejection and sends nothing.
/// `receiver` is the other end of the slot in the command.
fn forward(sender: &CommandSender, command: Result<Message, HttpResponse>, receiver: ReplyReceiver) -> (r:
    Pending)
    ensures
        match command {
            Ok(_) => r == Pending::Awaiting(receiver) || r.answered(500, dispatch_failure_text()),
            Err(response) => r == Pending::Done(response),
        },
{
    match command {
        Ok(message) => {
            let sent = sender.send(message).is_ok();
            forwarded_response(sent, receiver)
        },
        Err(response) => Pending::Done(response),
    }
}

/// Handles a create: the command that `create_command` makes of the body
/// goes to the worker and is answered by `created_response`; a body that is
/// no record is rejected and nothing is sent.
pub fn post_request(record: Result<DataFrame, Error>, sender: &CommandSender) -> (r: HttpResponse)
    ensures
        match record {
            Ok(_) => is_response(r, 200, Seq::<char>::empty()) || is_response(
                r,
                500,
                dispatch_failure_text(),
            ),
            Err(e) => is_response(r, body_rejection_of(e).0, body_rejection_of(e).1),
        },
{
    match create_command(record) {
        Ok(message) => {
            let sent = sender.send(message).is_ok();
            created_response(sent)
        },
        Err(response) => response,
    }
}

/// Handles a read: the command that `read_command` makes of the request,
/// with the slot of a fresh reply channel, goes to the worker, and
/// `forwarded_response` says what follows the send; a request without a
/// query is rejected and nothing is sent.
pub fn get_request(path: &str, query: Option<&str>, sender: &CommandSender) -> (r: Pending)
    ensures
        match extracted(path@, str_view(query)) {
            Ok(_) => r.forwarded(),
            Err(e) => r.answered(query_rejection_of(e).0, query_rejection_of(e).1),
        },
{
    let (slot, receiver) = reply_channel();
    forward(sender, read_command(path, query, slot), receiver)
}

/// Handles a delete: the command that `delete_command` makes of the
/// request, with the slot of a fresh reply channel, goes to the worker, and
/// `forwarded_response` says what follows the send; a request without a
/// query is rejected and nothing is sent.
pub fn delete_request(path: &str, query: Option<&str>, sender: &CommandSender) -> (r: Pending)
    ensures
        match extracted(path@, str_view(query)) {
            Ok(_) => r.forwarded(),
            Err(e) => r.answered(query_rejection_of(e).0, query_rejection_of(e).1),
        },
{
    let (slot, receiver) = reply_channel();
    forward(sender, delete_command(path, query, slot), receiver)
}

/// Handles an update: the command that `update_command` makes of the
/// request, with the slot of a fresh reply channel, goes to the worker, and
/// `forwarded_response` says what follows the send. The path and the query
/// are looked at first, then the body; a request that fails either is
/// rejected and nothing is sent.
pub fn put_request(
    path: &str,
    query: Option<&str>,
    record: Result<DataFrame, Error>,
    sender: &CommandSender,
) -> (r: Pending)
    ensures
        match (extracted(path@, str_view(query)), record) {
            (Ok(_), Ok(_)) => r.forwarded(),
            (Err(e), _) => r.answered(query_rejection_of(e).0, query_rejection_of(e).1),
            (Ok(_), Err(e)) => r.answered(body_rejection_of(e).0, body_rejection_of(e).1),
        },
{
    let (slot, receiver) = reply_channel();
    forward(sender, update_command(path, query, record, slot), receiver)
}

/// What serving a request comes to, by its method: a create is answered at
/// once; a read, a delete and an update go to the worker where the request
/// is in order; any other method is answered with "not implemented".
pub open spec fn served(
    method: Method,
    path: Seq<char>,
    query: Option<Seq<char>>,
    record: Result<DataFrame, Error>,
    r: Pending,
) -> bool {
    match method {
        Method::Post => match record {
            Ok(_) => r.answered(200, Seq::<char>::empty()) || r.answered(500, dispatch_failure_text()),
            Err(e) => r.answered(body_rejection_of(e).0, body_rejection_of(e).1),
        },
        Method::Get | Method::Delete => match extracted(path, query) {
            Ok(_) => r.forwarded(),
            Err(e) => r.answered(query_rejection_of(e).0, query_rejection_of(e).1),
        },
        Method::Put => match (extracted(path, query), record) {
            (Ok(_), Ok(_)) => r.forwarded(),
            (Err(e), _) => r.answered(query_rejection_of(e).0, query_rejection_of(e).1),
            (Ok(_), Err(e)) => r.answered(body_rejection_of(e).0, body_rejection_of(e).1),
        },
        Method::Other => r.answered(501, Seq::<char>::empty()),
    }
}

/// Serves one request by its method; a method that the service does not
/// know is answered with "not implemented" and nothing is sent. `record` is
/// what the body was read as; only a create and an update look at it.
pub fn serve_request(
    method: Method,
    path: &str,
    query: Option<&str>,
    record: Result<DataFrame, Error>,
    sender: &CommandSender,
) -> (r: Pending)
    ensures
        served(method, path@, str_view(query), record, r),
{
    match method {
        Method::Post => Pending::Done(post_request(record, sender)),
        Method::Get => get_request(path, query, sender),
        Method::Delete => delete_request(path, query, sender),
        Method::Put => put_request(path, query, record, sender),
        Method::Other => Pending::Done(build_response(StatusCode::not_implemented(), String::new())),
    }
}

/// The value of the first credentials header among `headers`.
pub open spec fn authorization_of(headers: Seq<HeaderView>) -> Option<Seq<u8>>
    decreases headers.len(),
{
    if headers.len() == 0 {
        None
    } else if headers[0].0 == "authorization"@ {
        Some(headers[0].1)
    } else {
        authorization_of(headers.drop_first())
    }
}

/// Finds the first credentials header.
fn find_authorization(headers: &Vec<Header>) -> (r: Option<usize>)
    ensures
        match r {
            Some(i) => i < headers@.len() && authorization_of(headers_view(headers@)) == Some(
                headers@[i as int].value@,
            ),
            None => authorization_of(headers_view(headers@)) is None,
        },
{
    let ghost all = headers_view(headers@);
    let mut i: usize = 0;
    assert(all.skip(0) =~= all);
    while i < headers.len()
        invariant
            i <= headers@.len(),
            all == headers_view(headers@),
            authorization_of(all) == authorization_of(all.skip(i as int)),
        decreases headers@.len() - i,
    {
        assert(all.skip(i as int).drop_first() =~= all.skip(i + 1));
        assert(all.skip(i as int)[0] == headers@[i as int]@);
        if same_text(headers[i].name.as_str(), "authorization") {
            return Some(i);
        }
        i += 1;
    }
    assert(all.skip(i as int).len() == 0);
    None
}

/// Handles one decoded request: without credentials that the table accepts
/// the request is answered as unauthorized and nothing else happens; with
/// them it is served.
pub fn handle_request(
    request: &Request,
    record: Result<DataFrame, Error>,
    credentials: &Credentials,
    sender: &CommandSender,
) -> (r: Pending)
    ensures
        match authorization_of(request@.headers) {
            None => r.answered(401, "Request does not implement required BASIC AUTH"@),
            Some(header) => if authenticated(credentials@, header) == Ok::<bool, Error>(true) {
                served(request.method, request.path@, text_view(request.query), record, r)
            } else {
                r.answered(401, "Password and/or Username don't match"@)
            },
        },
{
    let header = match find_authorization(&request.headers) {
        Some(i) => &request.headers[i],
        None => {
            return Pending::Done(
                respond(
                    StatusCode::unauthorized(),
                    "Request does not implement required BASIC AUTH",
                ),
            );
        },
    };
    match auth(header.value.as_slice(), credentials) {
        Ok(true) => {
            let query = match &request.query {
                Some(text) => Some(text.as_str()),
                None => None,
            };
            serve_request(request.method, request.path.as_str(), query, record, sender)
        },
        _ => Pending::Done(
            respond(StatusCode::unauthorized(), "Password and/or Username don't match"),
        ),
    }
}

} // verus!
