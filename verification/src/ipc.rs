//! The messages exchanged with the login daemon, and the failures of the
//! channel that carries them.

use vstd::prelude::*;
use crate::text::{list_text, opt_text};

verus! {

/// A message type for an authentication message.
#[derive(Debug, Clone, Copy, PartialEq, Eq, Structural)]
pub enum AuthMessageType {
    /// A question whose answer should be visible during input.
    Visible,
    /// A question whose answer should be kept secret during input.
    Secret,
    /// An information message.
    Info,
    /// An error message.
    Error,
}

/// The kind of failure that the daemon reports.
#[derive(Debug, Clone, Copy, PartialEq, Eq, Structural)]
pub enum ErrorType {
    /// A generic error. See the error description for more details.
    Error,
    /// An error caused by failed authentication.
    AuthError,
}

/// A request from the greeter to the daemon.
#[derive(Debug, Clone)]
pub enum Request {
    /// Initiates a login attempt for the given user.
    CreateSession { username: String },
    /// Answers the last authentication message.
    PostAuthMessageResponse { response: Option<String> },
    /// Starts a successfully logged in session.
    StartSession { cmd: Vec<String>, env: Vec<String> },
    /// Cancels the login attempt.
    CancelSession,
}

pub enum RequestView {
    CreateSession { username: Seq<char> },
    PostAuthMessageResponse { response: Option<Seq<char>> },
    StartSession { cmd: Seq<Seq<char>>, env: Seq<Seq<char>> },
    CancelSession,
}

impl View for Request {
    type V = RequestView;

    open spec fn view(&self) -> RequestView {
        match self {
            Request::CreateSession { username } => RequestView::CreateSession {
                username: username@,
            },
            Request::PostAuthMessageResponse { response } => RequestView::PostAuthMessageResponse {
                response: opt_text(*response),
            },
            Request::StartSession { cmd, env } => RequestView::StartSession {
                cmd: list_text(cmd@),
                env: list_text(env@),
            },
            Request::CancelSession => RequestView::CancelSession,
        }
    }
}

/// A response from the daemon to the greeter.
#[derive(Debug, Clone)]
pub enum Response {
    /// The request was successful.
    Success,
    /// The request failed.
    Error { error_type: ErrorType, description: String },
    /// An authentication message needs to be answered to continue through
    /// the authentication flow.
    AuthMessage { auth_message_type: AuthMessageType, auth_message: String },
}

pub enum ResponseView {
    Success,
    Error { error_type: ErrorType, description: Seq<char> },
    AuthMessage { auth_message_type: AuthMessageType, auth_message: Seq<char> },
}

impl View for Response {
    type V = ResponseView;

    open spec fn view(&self) -> ResponseView {
        match self {
            Response::Success => ResponseView::Success,
            Response::Error { error_type, description } => ResponseView::Error {
                error_type: *error_type,
                description: description@,
            },
            Response::AuthMessage { auth_message_type, auth_message } => {
                ResponseView::AuthMessage {
                    auth_message_type: *auth_message_type,
                    auth_message: auth_message@,
                }
            },
        }
    }
}

/// What `greetd_ipc::Request` writes of a request when it is formatted for
/// debugging.
pub uninterp spec fn request_debug(request: RequestView) -> Seq<char>;

/// The derived `Debug` of `greetd_ipc::Request`, on the request that holds
/// the same fields. The contract only names the text: it depends on the
/// request alone.
#[verifier::external_body]
fn debug_repr(request: &Request) -> (r: String)
    ensures
        r@ == request_debug(request@),
{
    let outside = match request {
        Request::CreateSession { username } => greetd_ipc::Request::CreateSession {
            username: username.clone(),
        },
        Request::PostAuthMessageResponse { response } => {
            greetd_ipc::Request::PostAuthMessageResponse { response: response.clone() }
        },
        Request::StartSession { cmd, env } => greetd_ipc::Request::StartSession {
            cmd: cmd.clone(),
            env: env.clone(),
        },
        Request::CancelSession => greetd_ipc::Request::CancelSession,
    };
    format!("{:?}", outside)
}

/// What may be written to a log of a request: its debug form, but for the
/// answer to an authentication message, of which only the kind is told.
pub open spec fn safe_repr_of(request: RequestView) -> Seq<char> {
    match request {
        RequestView::PostAuthMessageResponse { .. } => "PostAuthMessageResponse"@,
        _ => request_debug(request),
    }
}

/// A representation that is safe to log: it never holds what the user
/// typed in answer to a prompt.
pub trait SafeDebug {
    fn safe_repr(&self) -> String;
}

impl SafeDebug for Request {
    fn safe_repr(&self) -> (r: String)
        ensures
            r@ == safe_repr_of(self@),
    {
        match self {
            Request::PostAuthMessageResponse { .. } => String::from_str("PostAuthMessageResponse"),
            _ => debug_repr(self),
        }
    }
}

/// The log never tells one answer to a prompt from another.
pub proof fn lemma_answers_are_not_logged(a: Option<Seq<char>>, b: Option<Seq<char>>)
    ensures
        safe_repr_of(RequestView::PostAuthMessageResponse { response: a }) == safe_repr_of(
            RequestView::PostAuthMessageResponse { response: b },
        ),
{
}

/// Failures of the channel to the daemon.
#[derive(Debug, Clone, Copy, PartialEq, Eq, Structural)]
pub enum IpcError {
    /// The channel could not be opened, read or written.
    Io,
    /// A reply was malformed or truncated.
    Protocol,
    /// The daemon closed the channel.
    Disconnected,
    /// A reply of a kind that the conversation did not expect at that point.
    UnexpectedResponse,
}

/// How an exchange on the channel failed, as the codec reports it.
#[derive(Debug, Clone)]
pub enum CodecFailure {
    /// A message could not be written as, or read from, its wire form.
    Serialization(String),
    /// The channel itself failed.
    Io(String),
    /// The channel ended where a message was expected.
    Eof,
}

impl IpcError {
    /// The failure of the channel that a failure of the codec amounts to.
    pub fn from_codec(failure: &CodecFailure) -> (e: IpcError)
        ensures
            e == match failure {
                CodecFailure::Serialization(_) => IpcError::Protocol,
                CodecFailure::Io(_) => IpcError::Io,
                CodecFailure::Eof => IpcError::Disconnected,
            },
    {
        match failure {
            CodecFailure::Serialization(_) => IpcError::Protocol,
            CodecFailure::Io(_) => IpcError::Io,
            CodecFailure::Eof => IpcError::Disconnected,
        }
    }

    /// Whether a failure of this kind, when it comes a second time in a row,
    /// ends the process: the channel is gone, not merely one exchange.
    pub fn is_channel_failure(&self) -> (r: bool)
        ensures
            r == (*self == IpcError::Io || *self == IpcError::Disconnected),
    {
        match self {
            IpcError::Io => true,
            IpcError::Disconnected => true,
            _ => false,
        }
    }
}

/// The address at which the daemon listens, as the environment gives it.
/// Connecting fails without one: an absent or empty address is an `Io`
/// failure.
pub fn daemon_address(configured: Option<String>) -> (r: Result<String, IpcError>)
    ensures
        match r {
            Ok(address) => opt_text(configured) == Some(address@) && address@.len() > 0,
            Err(e) => e == IpcError::Io && (configured matches Some(a) ==> a@.len() == 0),
        },
{
    match configured {
        Some(address) => {
            if address.as_str().is_empty() {
                Err(IpcError::Io)
            } else {
                Ok(address)
            }
        },
        None => Err(IpcError::Io),
    }
}

/// What an exchange gave, once its failure is put in the terms of the
/// channel.
pub open spec fn exchange_result(result: Result<Response, CodecFailure>) -> Result<
    ResponseView,
    IpcError,
> {
    match result {
        Ok(response) => Ok(response@),
        Err(CodecFailure::Serialization(_)) => Err(IpcError::Protocol),
        Err(CodecFailure::Io(_)) => Err(IpcError::Io),
        Err(CodecFailure::Eof) => Err(IpcError::Disconnected),
    }
}

/// Whether the outcome of an exchange says that the channel is gone.
pub open spec fn loses_channel(result: Result<ResponseView, IpcError>) -> bool {
    result == Err::<ResponseView, IpcError>(IpcError::Io) || result == Err::<
        ResponseView,
        IpcError,
    >(IpcError::Disconnected)
}

/// The client's book on the channel: whether it is open, and whether a
/// request has been sent whose reply has not come yet. Requests and
/// replies alternate strictly: an exchange is begun only when none is
/// under way, and it ends with exactly one reply or one failure.
#[derive(Debug, Clone, Copy, PartialEq, Eq, Structural)]
pub struct Client {
    pub connected: bool,
    pub awaiting: bool,
}

impl Client {
    /// A client that has not opened the channel yet.
    pub fn new() -> (c: Client)
        ensures
            !c.connected,
            !c.awaiting,
    {
        Client { connected: false, awaiting: false }
    }

    /// Begin an exchange. Says whether the channel has to be opened first.
    pub fn begin(&mut self) -> (connect_first: bool)
        requires
            !old(self).awaiting,
        ensures
            final(self).awaiting,
            final(self).connected == old(self).connected,
            connect_first == !old(self).connected,
    {
        self.awaiting = true;
        !self.connected
    }

    /// Take note of whether the channel could be opened. If it could not,
    /// the exchange that was begun is over, and has failed.
    pub fn opened(&mut self, success: bool) -> (r: Result<(), IpcError>)
        requires
            old(self).awaiting,
            !old(self).connected,
        ensures
            success ==> r is Ok && final(self).connected && final(self).awaiting,
            !success ==> r == Err::<(), IpcError>(IpcError::Io) && !final(self).connected
                && !final(self).awaiting,
    {
        if success {
            self.connected = true;
            Ok(())
        } else {
            self.awaiting = false;
            Err(IpcError::Io)
        }
    }

    /// End the exchange with what it gave. A failure of the channel
    /// itself closes it: the next exchange has to open it anew.
    pub fn finish(&mut self, result: Result<Response, CodecFailure>) -> (r: Result<
        Response,
        IpcError,
    >)
        requires
            old(self).awaiting,
        ensures
            !final(self).awaiting,
            match r {
                Ok(response) => exchange_result(result) == Ok::<ResponseView, IpcError>(
                    response@,
                ),
                Err(e) => exchange_result(result) == Err::<ResponseView, IpcError>(e),
            },
            final(self).connected == (old(self).connected && !loses_channel(
                exchange_result(result),
            )),
    {
        self.awaiting = false;
        match result {
            Ok(response) => Ok(response),
            Err(failure) => {
                let error = IpcError::from_codec(&failure);
                if error.is_channel_failure() {
                    self.connected = false;
                }
                Err(error)
            },
        }
    }

    /// Give the channel up; the next exchange opens it anew.
    pub fn disconnect(&mut self)
        requires
            !old(self).awaiting,
        ensures
            !final(self).connected,
            !final(self).awaiting,
    {
        self.connected = false;
    }
}

} // verus!
