//! The completion client without its network call: what is sent to the
//! completion endpoint for a history, and what an exchange with it amounts to.

use vstd::prelude::*;
use vstd::string::StringExecFns;
use crate::message::{Message, MessageView};

verus! {

/// Why an exchange with the completion endpoint gave no reply.
#[derive(Debug)]
pub enum ClientError {
    /// The request did not get through, or no answer came back; the text says
    /// what the transport reported.
    Transport(String),
    /// An answer came back, but not in the shape of a completion response.
    MalformedResponse,
    /// A well-formed answer came back that offers no candidate reply.
    NoChoice,
}

/// The mathematical value of a [`ClientError`].
pub enum ClientErrorView {
    Transport(Seq<char>),
    MalformedResponse,
    NoChoice,
}

impl View for ClientError {
    type V = ClientErrorView;

    open spec fn view(&self) -> ClientErrorView {
        match self {
            ClientError::Transport(detail) => ClientErrorView::Transport(detail@),
            ClientError::MalformedResponse => ClientErrorView::MalformedResponse,
            ClientError::NoChoice => ClientErrorView::NoChoice,
        }
    }
}

impl ClientErrorView {
    /// The line that tells a person about the error.
    pub open spec fn message(self) -> Seq<char> {
        match self {
            ClientErrorView::Transport(detail) => "Request error: "@ + detail,
            ClientErrorView::MalformedResponse => "Malformed response from the completion endpoint"@,
            ClientErrorView::NoChoice => "No choice found in the response"@,
        }
    }
}

impl ClientError {
    /// Returns the line that tells a person about the error.
    pub fn describe(&self) -> (line: String)
        ensures
            line@ == self@.message(),
    {
        match self {
            ClientError::Transport(detail) => String::from_str("Request error: ").concat(
                detail.as_str(),
            ),
            ClientError::MalformedResponse => String::from_str(
                "Malformed response from the completion endpoint",
            ),
            ClientError::NoChoice => String::from_str("No choice found in the response"),
        }
    }
}

/// A message as the completion endpoint writes it: the role by name.
#[derive(Debug)]
pub struct WireMessage {
    pub role: String,
    pub content: String,
}

/// The mathematical value of a [`WireMessage`].
pub struct WireMessageView {
    pub role: Seq<char>,
    pub content: Seq<char>,
}

impl View for WireMessage {
    type V = WireMessageView;

    open spec fn view(&self) -> WireMessageView {
        WireMessageView { role: self.role@, content: self.content@ }
    }
}

/// What is sent to the completion endpoint: the model to ask and the whole
/// history, oldest message first.
#[derive(Debug)]
pub struct CompletionRequest {
    pub model: String,
    pub messages: Vec<WireMessage>,
}

/// The mathematical value of a [`CompletionRequest`].
pub struct CompletionRequestView {
    pub model: Seq<char>,
    pub messages: Seq<WireMessageView>,
}

impl View for CompletionRequest {
    type V = CompletionRequestView;

    open spec fn view(&self) -> CompletionRequestView {
        CompletionRequestView {
            model: self.model@,
            messages: self.messages@.map_values(|m: WireMessage| m@),
        }
    }
}

/// How a message of the history is written in a request.
pub open spec fn wire_form(message: MessageView) -> WireMessageView {
    WireMessageView { role: message.role.wire_name(), content: message.content }
}

/// The request that asks `model` to continue `history`: every message of the
/// history, in order, with its role by name and its content unchanged.
pub open spec fn request_for(history: Seq<MessageView>, model: Seq<char>) -> CompletionRequestView {
    CompletionRequestView { model, messages: history.map_values(|m: MessageView| wire_form(m)) }
}

/// Builds the request that asks `model` to continue `history`.
pub fn build_request(history: &Vec<Message>, model: String) -> (request: CompletionRequest)
    ensures
        request@ == request_for(crate::message::views_of(history@), model@),
{
    let mut messages: Vec<WireMessage> = Vec::new();
    let mut i: usize = 0;
    while i < history.len()
        invariant
            i <= history.len(),
            messages.len() == i,
            forall|j: int| 0 <= j < i ==> messages[j]@ == wire_form(#[trigger] history[j]@),
        decreases history.len() - i,
    {
        let role = String::from_str(history[i].role().as_wire());
        let content = String::from_str(history[i].content());
        messages.push(WireMessage { role, content });
        i = i + 1;
    }
    let request = CompletionRequest { model, messages };
    assert(request@.messages =~= request_for(
        crate::message::views_of(history@),
        model@,
    ).messages);
    request
}

/// The value of the `Authorization` header that presents `credential` as a
/// bearer token: the word `Bearer`, one space, and the credential.
pub open spec fn bearer_of(credential: Seq<char>) -> Seq<char> {
    "Bearer "@ + credential
}

/// Builds the value of the `Authorization` header for `credential`.
pub fn bearer(credential: &str) -> (header: String)
    ensures
        header@ == bearer_of(credential@),
{
    String::from_str("Bearer ").concat(credential)
}

/// One candidate reply of a completion response.
#[derive(Debug)]
pub struct Choice {
    pub message: WireMessage,
}

/// A completion response in its expected shape: the candidate replies in the
/// order in which the endpoint gave them.
#[derive(Debug)]
pub struct ApiResponse {
    pub choices: Vec<Choice>,
}

impl View for ApiResponse {
    type V = Seq<WireMessageView>;

    open spec fn view(&self) -> Seq<WireMessageView> {
        self.choices@.map_values(|c: Choice| c.message@)
    }
}

/// What one attempt to reach the completion endpoint came to.
#[derive(Debug)]
pub enum Exchange {
    /// The transport failed; the text says how.
    TransportFailed(String),
    /// A body was received that is no completion response.
    Unreadable,
    /// A body was received and read as a completion response.
    Parsed(ApiResponse),
}

/// The mathematical value of an [`Exchange`].
pub enum ExchangeView {
    TransportFailed(Seq<char>),
    Unreadable,
    Parsed(Seq<WireMessageView>),
}

impl View for Exchange {
    type V = ExchangeView;

    open spec fn view(&self) -> ExchangeView {
        match self {
            Exchange::TransportFailed(detail) => ExchangeView::TransportFailed(detail@),
            Exchange::Unreadable => ExchangeView::Unreadable,
            Exchange::Parsed(response) => ExchangeView::Parsed(response@),
        }
    }
}

/// The value of the result of a completion: the reply's characters, or the
/// error's value.
pub open spec fn reply_view(result: Result<String, ClientError>) -> Result<
    Seq<char>,
    ClientErrorView,
> {
    match result {
        Ok(reply) => Ok(reply@),
        Err(error) => Err(error@),
    }
}

/// What an exchange amounts to. A transport failure and an unreadable body are
/// errors of their own; a response without candidates is `NoChoice`; any
/// other response gives the content of its first candidate, character for
/// character.
pub open spec fn reply_of(exchange: ExchangeView) -> Result<Seq<char>, ClientErrorView> {
    match exchange {
        ExchangeView::TransportFailed(detail) => Err(ClientErrorView::Transport(detail)),
        ExchangeView::Unreadable => Err(ClientErrorView::MalformedResponse),
        ExchangeView::Parsed(choices) => if choices.len() == 0 {
            Err(ClientErrorView::NoChoice)
        } else {
            Ok(choices[0].content)
        },
    }
}

/// Turns an exchange into the reply it carries, or into the error that says
/// why it carries none.
pub fn read_reply(exchange: Exchange) -> (result: Result<String, ClientError>)
    ensures
        reply_view(result) == reply_of(exchange@),
{
    match exchange {
        Exchange::TransportFailed(detail) => Err(ClientError::Transport(detail)),
        Exchange::Unreadable => Err(ClientError::MalformedResponse),
        Exchange::Parsed(response) => {
            let mut choices = response.choices;
            if choices.len() == 0 {
                Err(ClientError::NoChoice)
            } else {
                let first = choices.remove(0);
                Ok(first.message.content)
            }
        },
    }
}

} // verus!
