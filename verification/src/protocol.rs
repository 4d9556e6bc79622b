//! The protocol's method names and errors, and the errors of this library.
use vstd::prelude::*;

use crate::json::{JsonValue, JsonView};
use crate::text::followed_by;

verus! {

/// The names of the agent's methods that errors and logs mention.
pub struct MethodNames {
    pub initialize: String,
    pub session_new: String,
    pub session_list: String,
    pub session_set_mode: String,
    pub session_set_model: String,
    pub session_set_config_option: String,
    pub session_prompt: String,
    pub session_close: String,
}

/// Copies the names out of `agent_client_protocol_schema::AGENT_METHOD_NAMES`; the contract
/// claims what that constant holds under each of them.
#[verifier::external_body]
pub(crate) fn agent_method_names() -> (names: MethodNames)
    ensures
        names.initialize@ == "initialize"@,
        names.session_new@ == "session/new"@,
        names.session_list@ == "session/list"@,
        names.session_set_mode@ == "session/set_mode"@,
        names.session_set_model@ == "session/set_model"@,
        names.session_set_config_option@ == "session/set_config_option"@,
        names.session_prompt@ == "session/prompt"@,
        names.session_close@ == "session/close"@,
{
    let names = agent_client_protocol_schema::AGENT_METHOD_NAMES;
    MethodNames {
        initialize: names.initialize.to_string(),
        session_new: names.session_new.to_string(),
        session_list: names.session_list.to_string(),
        session_set_mode: names.session_set_mode.to_string(),
        session_set_model: names.session_set_model.to_string(),
        session_set_config_option: names.session_set_config_option.to_string(),
        session_prompt: names.session_prompt.to_string(),
        session_close: names.session_close.to_string(),
    }
}

/// An error in the protocol's own form: a code, a short message and, where there is one, a
/// value that says more; and the text that it shows.
#[derive(Debug, PartialEq, Eq)]
pub struct RpcError {
    pub code: i32,
    pub message: String,
    pub data: Option<JsonValue>,
    pub text: String,
}

/// What `sacp::Error` prints itself as when it has this code, this message and, as its data,
/// a JSON string with this text.
pub uninterp spec fn rpc_error_display(
    code: int,
    message: Seq<char>,
    data: Option<Seq<char>>,
) -> Seq<char>;

/// Whether JSON writes the text between double quotes as it is: it holds no double quote, no
/// backslash and none of the control characters before the space.
pub open spec fn is_plain(text: Seq<char>) -> bool {
    forall|i: int|
        0 <= i < text.len() ==> #[trigger] text[i] != '"' && text[i] != '\\' && text[i] as u32
            >= 0x20
}

/// What an error shows that has this code, this message and, as its data, this text: the
/// message, and behind a colon and a space the data in double quotes. An error without a
/// message, and data that JSON does not write as it is, is left to the name.
pub open spec fn shown_text(
    code: int,
    message: Seq<char>,
    data: Option<Seq<char>>,
) -> Seq<char> {
    match data {
        None => if message.len() > 0 {
            message
        } else {
            rpc_error_display(code, message, data)
        },
        Some(text) => if message.len() > 0 && is_plain(text) {
            message + ": "@ + seq!['"'] + text + seq!['"']
        } else {
            rpc_error_display(code, message, data)
        },
    }
}

/// Makes the error that `sacp::Error::invalid_params` makes; the contract claims the code and
/// the message of it.
#[verifier::external_body]
fn sacp_invalid_params() -> (error: (i32, String))
    ensures
        error.0 == -32602,
        error.1@ == "Invalid params"@,
{
    let error = sacp::Error::invalid_params();
    (error.code.into(), error.message)
}

/// Makes the error that `sacp::Error::internal_error` makes; the contract claims the code and
/// the message of it.
#[verifier::external_body]
fn sacp_internal_error() -> (error: (i32, String))
    ensures
        error.0 == -32603,
        error.1@ == "Internal error"@,
{
    let error = sacp::Error::internal_error();
    (error.code.into(), error.message)
}

/// Prints a `sacp::Error` made of these parts with its `Display`. The contract names the text,
/// and claims that with a message it is that message alone where there is no data, and starts
/// with the message, a colon and a space where there is; behind that stands the data in double
/// quotes, as it is where JSON escapes none of its characters. How other data is set out is
/// left to the name.
#[verifier::external_body]
fn display_rpc_error(code: i32, message: &str, data: Option<&str>) -> (text: String)
    ensures
        text@ == rpc_error_display(code as int, message@, data.deep_view()),
        message@.len() > 0 && data is None ==> text@ == message@,
        message@.len() > 0 && data is Some ==> (message@ + ": "@).is_prefix_of(text@),
        message@.len() > 0 && data is Some && is_plain(data->0@) ==> text@ == message@ + ": "@
            + seq!['"'] + data->0@ + seq!['"'],
{
    let error = sacp::Error::new(code, message);
    error.data(data.map(serde_json::Value::from)).to_string()
}

impl RpcError {
    /// Whether the error has this code, this message and, as its data, this text, and shows
    /// what such an error shows.
    pub open spec fn made_of(
        &self,
        code: int,
        message: Seq<char>,
        data: Option<Seq<char>>,
    ) -> bool {
        &&& self.code == code
        &&& self.message@ == message
        &&& self.data.deep_view() == match data {
            Some(text) => Some(JsonView::String(text)),
            None => None,
        }
        &&& self.text@ == shown_text(code, message, data)
    }

    /// The error for parameters that cannot be accepted, with a text that says why.
    pub fn invalid_params(data: String) -> (error: RpcError)
        ensures
            error.made_of(-32602, "Invalid params"@, Some(data@)),
            ("Invalid params"@ + ": "@).is_prefix_of(error.text@),
    {
        let (code, message) = sacp_invalid_params();
        let text = display_rpc_error(code, message.as_str(), Some(data.as_str()));
        proof {
            reveal_strlit("Invalid params");
        }
        RpcError { code, message, data: Some(JsonValue::String(data)), text }
    }

    /// The error for a failure of this side, with a text that says more where there is one.
    pub fn internal_error(data: Option<String>) -> (error: RpcError)
        ensures
            error.made_of(-32603, "Internal error"@, data.deep_view()),
            data is None ==> error.text@ == "Internal error"@,
            data is Some ==> ("Internal error"@ + ": "@).is_prefix_of(error.text@),
    {
        let (code, message) = sacp_internal_error();
        proof {
            reveal_strlit("Internal error");
        }
        match data {
            Some(data) => {
                let text = display_rpc_error(code, message.as_str(), Some(data.as_str()));
                RpcError { code, message, data: Some(JsonValue::String(data)), text }
            },
            None => {
                let text = display_rpc_error(code, message.as_str(), None);
                RpcError { code, message, data: None, text }
            },
        }
    }
}

/// Why a request to the agent came to nothing.
#[derive(Debug, PartialEq, Eq)]
pub enum AcpError {
    /// An error of the protocol, made by the agent or on this side.
    Rpc(RpcError),
    /// Anything else, in words.
    Message(String),
}

impl AcpError {
    /// Whether the error is this text and nothing more.
    pub open spec fn says(&self, text: Seq<char>) -> bool {
        self matches AcpError::Message(own) && own@ == text
    }

    /// The text that this error shows.
    pub open spec fn text(&self) -> Seq<char> {
        match self {
            AcpError::Rpc(error) => error.text@,
            AcpError::Message(text) => text@,
        }
    }

    /// The text that this error shows.
    pub fn to_text(&self) -> (text: String)
        ensures
            text@ == self.text(),
    {
        match self {
            AcpError::Rpc(error) => error.text.clone(),
            AcpError::Message(text) => text.clone(),
        }
    }
}

/// Why the provider could not do what it was asked.
#[derive(Debug, PartialEq, Eq)]
pub enum ProviderError {
    RequestFailed(String),
}

impl ProviderError {
    /// The text that says what failed.
    pub open spec fn text(&self) -> Seq<char> {
        match self {
            ProviderError::RequestFailed(text) => text@,
        }
    }

    /// A failed request: what was tried, followed by the error that came of it.
    pub fn request_failed(tried: &str, error: &AcpError) -> (failure: ProviderError)
        ensures
            failure.text() == tried@ + error.text(),
    {
        ProviderError::RequestFailed(followed_by(tried, error.to_text().as_str()))
    }
}

/// What became of a request that was handed to the client loop.
#[derive(Debug, PartialEq, Eq)]
pub enum Reply<T> {
    /// The client loop no longer takes requests.
    Unavailable,
    /// The client loop dropped the request without answering it.
    Cancelled,
    /// The answer is this error.
    Failed(AcpError),
    /// The answer.
    Done(T),
}

impl<T> Reply<T> {
    /// What became of a request that the client loop took, given the answer or an error;
    /// `None` where neither came.
    pub fn received(answer: Option<Result<T, AcpError>>) -> (reply: Reply<T>)
        ensures
            reply == match answer {
                Some(Ok(answer)) => Reply::Done(answer),
                Some(Err(error)) => Reply::Failed(error),
                None => Reply::Cancelled,
            },
    {
        match answer {
            Some(Ok(answer)) => Reply::Done(answer),
            Some(Err(error)) => Reply::Failed(error),
            None => Reply::Cancelled,
        }
    }

    /// The text of the error that this reply amounts to, given what is said of a request that
    /// was dropped; `None` where the reply is an answer.
    pub open spec fn error_text(&self, cancelled: Seq<char>) -> Option<Seq<char>> {
        match self {
            Reply::Unavailable => Some("ACP client is unavailable"@),
            Reply::Cancelled => Some(cancelled),
            Reply::Failed(error) => Some(error.text()),
            Reply::Done(_) => None,
        }
    }

    /// Whether this reply amounts to this error, given what is said of a request that was
    /// dropped.
    pub open spec fn fails_with(&self, cancelled: Seq<char>, error: AcpError) -> bool {
        match self {
            Reply::Unavailable => error.says("ACP client is unavailable"@),
            Reply::Cancelled => error.says(cancelled),
            Reply::Failed(own) => error == own,
            Reply::Done(_) => false,
        }
    }

    /// The answer, or the error that this reply amounts to. An error that came as an answer is
    /// handed on as it is.
    pub fn settle(self, cancelled: &str) -> (result: Result<T, AcpError>)
        ensures
            match result {
                Ok(answer) => self == Reply::Done(answer),
                Err(error) => self.fails_with(cancelled@, error) && Some(error.text())
                    == self.error_text(cancelled@),
            },
    {
        match self {
            Reply::Unavailable => Err(AcpError::Message("ACP client is unavailable".to_owned())),
            Reply::Cancelled => Err(AcpError::Message(cancelled.to_owned())),
            Reply::Failed(error) => Err(error),
            Reply::Done(answer) => Ok(answer),
        }
    }
}

/// The record of an answer that found nobody waiting for it: the method it answered and the
/// error of the attempt. `None` where the answer was taken.
pub fn log_undelivered<E>(result: Result<(), E>, method: &str) -> (record: Option<(String, E)>)
    ensures
        match result {
            Ok(()) => record is None,
            Err(error) => record matches Some(entry) && entry.0@ == method@ && entry.1 == error,
        },
{
    match result {
        Ok(()) => None,
        Err(error) => Some((method.to_owned(), error)),
    }
}

} // verus!
