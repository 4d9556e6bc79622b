//! What the provider asks of its client loop.
use vstd::prelude::*;

use crate::json::{JsonValue, JsonView};
use crate::message::{BlockView, ContentBlock};
use crate::protocol::agent_method_names;

verus! {

/// A request to the client loop. Session ids are the agent's.
#[derive(Debug, PartialEq, Eq)]
pub enum ClientRequest {
    /// A new session, with the agent's name for the mode that was stored for it, if any.
    NewSession { stored_mode_id: Option<String> },
    ListSessions,
    SetMode { session_id: String, mode_id: String },
    SetModel { session_id: String, model_id: String },
    SetConfigOption { session_id: String, config_id: String, value: String },
    Prompt { session_id: String, content: Vec<ContentBlock> },
    /// A method that the protocol's schema does not describe.
    Untyped { method: String, params: JsonValue },
}

/// What a [`ClientRequest`] stands for.
pub enum RequestView {
    NewSession { stored_mode_id: Option<Seq<char>> },
    ListSessions,
    SetMode { session_id: Seq<char>, mode_id: Seq<char> },
    SetModel { session_id: Seq<char>, model_id: Seq<char> },
    SetConfigOption { session_id: Seq<char>, config_id: Seq<char>, value: Seq<char> },
    Prompt { session_id: Seq<char>, content: Seq<BlockView> },
    Untyped { method: Seq<char>, params: JsonView },
}

impl DeepView for ClientRequest {
    type V = RequestView;

    open spec fn deep_view(&self) -> Self::V {
        match self {
            ClientRequest::NewSession { stored_mode_id } => RequestView::NewSession {
                stored_mode_id: stored_mode_id.deep_view(),
            },
            ClientRequest::ListSessions => RequestView::ListSessions,
            ClientRequest::SetMode { session_id, mode_id } => RequestView::SetMode {
                session_id: session_id@,
                mode_id: mode_id@,
            },
            ClientRequest::SetModel { session_id, model_id } => RequestView::SetModel {
                session_id: session_id@,
                model_id: model_id@,
            },
            ClientRequest::SetConfigOption { session_id, config_id, value } =>
                RequestView::SetConfigOption {
                session_id: session_id@,
                config_id: config_id@,
                value: value@,
            },
            ClientRequest::Prompt { session_id, content } => RequestView::Prompt {
                session_id: session_id@,
                content: content.deep_view(),
            },
            ClientRequest::Untyped { method, params } => RequestView::Untyped {
                method: method@,
                params: params.deep_view(),
            },
        }
    }
}

impl RequestView {
    /// The agent's method that answers this request.
    pub open spec fn method(self) -> Seq<char> {
        match self {
            RequestView::NewSession { .. } => "session/new"@,
            RequestView::ListSessions => "session/list"@,
            RequestView::SetMode { .. } => "session/set_mode"@,
            RequestView::SetModel { .. } => "session/set_model"@,
            RequestView::SetConfigOption { .. } => "session/set_config_option"@,
            RequestView::Prompt { .. } => "session/prompt"@,
            RequestView::Untyped { method, .. } => method,
        }
    }
}

impl ClientRequest {
    /// The agent's method that answers this request.
    pub fn method(&self) -> (method: String)
        ensures
            method@ == self.deep_view().method(),
    {
        let names = agent_method_names();
        match self {
            ClientRequest::NewSession { .. } => names.session_new,
            ClientRequest::ListSessions => names.session_list,
            ClientRequest::SetMode { .. } => names.session_set_mode,
            ClientRequest::SetModel { .. } => names.session_set_model,
            ClientRequest::SetConfigOption { .. } => names.session_set_config_option,
            ClientRequest::Prompt { .. } => names.session_prompt,
            ClientRequest::Untyped { method, .. } => method.clone(),
        }
    }
}

} // verus!
