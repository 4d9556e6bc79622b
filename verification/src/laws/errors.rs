//! What errors show, and what becomes of replies.
use vstd::prelude::*;

use crate::json::JsonView;
use crate::protocol::{AcpError, ProviderError, Reply, RpcError};
use crate::request::RequestView;

verus! {

/// A reply that is no answer amounts to an error with the text that is owed for it, and an
/// answer to none.
pub proof fn replies_amount_to_their_errors<T>(
    answer: T,
    own: AcpError,
    cancelled: Seq<char>,
    error: AcpError,
)
    ensures
        Reply::<T>::Unavailable.fails_with(cancelled, error) <==> error is Message
            && error->Message_0@ == "ACP client is unavailable"@,
        Reply::<T>::Cancelled.fails_with(cancelled, error) <==> error is Message
            && error->Message_0@ == cancelled,
        Reply::<T>::Failed(own).fails_with(cancelled, error) <==> error == own,
        !Reply::Done(answer).fails_with(cancelled, error),
        Reply::<T>::Unavailable.error_text(cancelled) == Some("ACP client is unavailable"@),
        Reply::<T>::Cancelled.error_text(cancelled) == Some(cancelled),
        Reply::<T>::Failed(own).error_text(cancelled) == Some(own.text()),
        Reply::Done(answer).error_text(cancelled) is None,
{
}

/// An error shows its own text: that of the protocol's error, the words it is made of, or the
/// words that say what failed.
pub proof fn errors_show_their_texts(error: AcpError, failure: ProviderError, text: Seq<char>)
    ensures
        match error {
            AcpError::Rpc(own) => error.text() == own.text@ && !error.says(text),
            AcpError::Message(own) => error.text() == own@ && (error.says(text) <==> own@ == text),
        },
        failure matches ProviderError::RequestFailed(words) && failure.text() == words@,
{
}

/// An error that is made of a code, a message and data has each of them as it was given, and
/// shows the message, with the data behind it in double quotes where it can be written so.
pub proof fn errors_hold_what_they_are_made_of(
    error: RpcError,
    code: int,
    message: Seq<char>,
    data: Option<Seq<char>>,
)
    requires
        error.made_of(code, message, data),
        message.len() > 0,
    ensures
        error.code == code,
        error.message@ == message,
        data is None ==> error.data is None && error.text@ == message,
        data matches Some(text) ==> error.data.deep_view() == Some(JsonView::String(text)),
        data matches Some(text) ==> (forall|i: int|
            0 <= i < text.len() ==> #[trigger] text[i] != '"' && text[i] != '\\' && text[i] as u32
                >= 0x20) ==> error.text@ == message + ": "@ + seq!['"'] + text + seq!['"'],
{
}

/// An unknown session is refused with an error about the parameters that names it.
pub proof fn unknown_sessions_are_named(error: AcpError, goose_id: Seq<char>)
    requires
        crate::provider::says_session_not_found(error, goose_id),
    ensures
        error is Rpc,
        error->Rpc_0.code == -32602,
        error->Rpc_0.message@ == "Invalid params"@,
        error->Rpc_0.data.deep_view() == Some(
            JsonView::String("Session not found: "@ + goose_id),
        ),
        error.text() == crate::provider::session_not_found_text(goose_id),
{
}

/// What is said where a session is unknown names it, in double quotes behind the message, where
/// its id can be written so.
pub proof fn unknown_sessions_are_shown(goose_id: Seq<char>)
    requires
        forall|i: int|
            0 <= i < goose_id.len() ==> #[trigger] goose_id[i] != '"' && goose_id[i] != '\\'
                && goose_id[i] as u32 >= 0x20,
    ensures
        crate::provider::session_not_found_text(goose_id) == "Invalid params"@ + ": "@ + seq!['"']
            + ("Session not found: "@ + goose_id) + seq!['"'],
        crate::provider::new_session_cancelled() == "ACP "@ + "session/new"@ + " cancelled"@,
{
    reveal_strlit("Invalid params");
    reveal_strlit("Session not found: ");
    let data = "Session not found: "@ + goose_id;
    assert forall|i: int| 0 <= i < data.len() implies #[trigger] data[i] != '"' && data[i] != '\\'
        && data[i] as u32 >= 0x20 by {
        if i >= "Session not found: "@.len() {
            assert(data[i] == goose_id[i - "Session not found: "@.len()]);
        }
    }
}

/// Each request is answered by the agent's method for it, and one that names its method by
/// that method.
pub proof fn requests_have_their_methods(request: RequestView)
    ensures
        request is NewSession ==> request.method() == "session/new"@,
        request is ListSessions ==> request.method() == "session/list"@,
        request is SetMode ==> request.method() == "session/set_mode"@,
        request is SetModel ==> request.method() == "session/set_model"@,
        request is SetConfigOption ==> request.method() == "session/set_config_option"@,
        request is Prompt ==> request.method() == "session/prompt"@,
        request matches RequestView::Untyped { method, .. } ==> request.method() == method,
{
}

} // verus!
