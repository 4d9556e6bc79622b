//! The messages of a conversation, the prompts made from them, and the messages made for the
//! user.
use vstd::prelude::*;

use crate::json::{JsonValue, JsonView};

verus! {

/// Who speaks in a message.
#[derive(Debug, Clone, Copy, PartialEq, Eq, Structural)]
pub enum Role {
    User,
    Assistant,
}

/// A part of a message.
#[derive(Debug, PartialEq, Eq)]
pub enum MessageContent {
    Text(String),
    Image { data: String, mime_type: String },
    Thinking { thinking: String, signature: String },
    ActionRequired {
        id: String,
        tool_name: String,
        arguments: Vec<(String, JsonValue)>,
        prompt: Option<String>,
    },
    /// A part that no prompt is made from.
    Other,
}

/// What a [`MessageContent`] stands for.
pub enum ContentView {
    Text(Seq<char>),
    Image { data: Seq<char>, mime_type: Seq<char> },
    Thinking { thinking: Seq<char>, signature: Seq<char> },
    ActionRequired {
        id: Seq<char>,
        tool_name: Seq<char>,
        arguments: Seq<(Seq<char>, JsonView)>,
        prompt: Option<Seq<char>>,
    },
    Other,
}

impl DeepView for MessageContent {
    type V = ContentView;

    open spec fn deep_view(&self) -> Self::V {
        match self {
            MessageContent::Text(text) => ContentView::Text(text@),
            MessageContent::Image { data, mime_type } => ContentView::Image {
                data: data@,
                mime_type: mime_type@,
            },
            MessageContent::Thinking { thinking, signature } => ContentView::Thinking {
                thinking: thinking@,
                signature: signature@,
            },
            MessageContent::ActionRequired { id, tool_name, arguments, prompt } =>
                ContentView::ActionRequired {
                id: id@,
                tool_name: tool_name@,
                arguments: arguments.deep_view(),
                prompt: prompt.deep_view(),
            },
            MessageContent::Other => ContentView::Other,
        }
    }
}

/// A message, and who gets to see it.
#[derive(Debug, PartialEq, Eq)]
pub struct Message {
    pub role: Role,
    pub content: Vec<MessageContent>,
    pub user_visible: bool,
    pub agent_visible: bool,
}

/// What a [`Message`] stands for.
pub struct MessageView {
    pub role: Role,
    pub content: Seq<ContentView>,
    pub user_visible: bool,
    pub agent_visible: bool,
}

impl DeepView for Message {
    type V = MessageView;

    open spec fn deep_view(&self) -> Self::V {
        MessageView {
            role: self.role,
            content: self.content.deep_view(),
            user_visible: self.user_visible,
            agent_visible: self.agent_visible,
        }
    }
}

impl MessageView {
    /// What the assistant says to everyone.
    pub open spec fn said(text: Seq<char>) -> MessageView {
        MessageView {
            role: Role::Assistant,
            content: seq![ContentView::Text(text)],
            user_visible: true,
            agent_visible: true,
        }
    }

    /// What the assistant thinks: for the user alone.
    pub open spec fn thought(text: Seq<char>) -> MessageView {
        MessageView {
            role: Role::Assistant,
            content: seq![ContentView::Thinking { thinking: text, signature: Seq::empty() }],
            user_visible: true,
            agent_visible: false,
        }
    }

    /// Whether a prompt can be made from this message.
    pub open spec fn prompts(self) -> bool {
        self.role == Role::User && self.agent_visible
    }
}

impl Message {
    /// An empty message of the assistant that everyone sees.
    pub fn assistant() -> (message: Message)
        ensures
            message.deep_view() == (MessageView {
                role: Role::Assistant,
                content: Seq::empty(),
                user_visible: true,
                agent_visible: true,
            }),
    {
        let message = Message {
            role: Role::Assistant,
            content: Vec::new(),
            user_visible: true,
            agent_visible: true,
        };
        assert(message.content.deep_view() =~= Seq::empty());
        message
    }

    fn with_content(self, content: MessageContent) -> (message: Message)
        ensures
            message.deep_view() == (MessageView {
                content: self.deep_view().content.push(content.deep_view()),
                ..self.deep_view()
            }),
    {
        let mut message = self;
        message.content.push(content);
        assert(message.content.deep_view() =~= self.content.deep_view().push(content.deep_view()));
        message
    }

    /// The message with a text at its end.
    pub fn with_text(self, text: String) -> (message: Message)
        ensures
            message.deep_view() == (MessageView {
                content: self.deep_view().content.push(ContentView::Text(text@)),
                ..self.deep_view()
            }),
    {
        self.with_content(MessageContent::Text(text))
    }

    /// The message with a thought at its end.
    pub fn with_thinking(self, thinking: String, signature: String) -> (message: Message)
        ensures
            message.deep_view() == (MessageView {
                content: self.deep_view().content.push(
                    ContentView::Thinking { thinking: thinking@, signature: signature@ },
                ),
                ..self.deep_view()
            }),
    {
        self.with_content(MessageContent::Thinking { thinking, signature })
    }

    /// The message with a request for the user's decision at its end.
    pub fn with_action_required(
        self,
        id: String,
        tool_name: String,
        arguments: Vec<(String, JsonValue)>,
        prompt: Option<String>,
    ) -> (message: Message)
        ensures
            message.deep_view() == (MessageView {
                content: self.deep_view().content.push(
                    ContentView::ActionRequired {
                        id: id@,
                        tool_name: tool_name@,
                        arguments: arguments.deep_view(),
                        prompt: prompt.deep_view(),
                    },
                ),
                ..self.deep_view()
            }),
    {
        self.with_content(MessageContent::ActionRequired { id, tool_name, arguments, prompt })
    }

    /// The message, seen by whom the arguments say.
    pub fn with_visibility(self, user_visible: bool, agent_visible: bool) -> (message: Message)
        ensures
            message.deep_view() == (MessageView {
                user_visible,
                agent_visible,
                ..self.deep_view()
            }),
    {
        Message { role: self.role, content: self.content, user_visible, agent_visible }
    }

    /// The message, seen by the user alone.
    pub fn user_only(self) -> (message: Message)
        ensures
            message.deep_view() == (MessageView {
                user_visible: true,
                agent_visible: false,
                ..self.deep_view()
            }),
    {
        self.with_visibility(true, false)
    }

    /// A message that says this to everyone.
    pub fn said(text: String) -> (message: Message)
        ensures
            message.deep_view() == MessageView::said(text@),
    {
        let message = Message::assistant().with_text(text);
        assert(message.deep_view().content =~= MessageView::said(text@).content);
        message
    }

    /// A message that shows the user this thought.
    pub fn thought(text: String) -> (message: Message)
        ensures
            message.deep_view() == MessageView::thought(text@),
    {
        let message = Message::assistant().with_thinking(text, String::new()).with_visibility(
            true,
            false,
        );
        assert(message.deep_view().content =~= MessageView::thought(text@).content);
        message
    }

    /// Whether a prompt can be made from this message.
    pub fn prompts(&self) -> (prompts: bool)
        ensures
            prompts == self.deep_view().prompts(),
    {
        self.role == Role::User && self.agent_visible
    }
}

/// A part of what is sent to the agent or comes from it. What the library neither makes nor
/// reads is kept as it came.
#[derive(Debug, PartialEq, Eq)]
pub enum ContentBlock {
    Text(String),
    Image { data: String, mime_type: String },
    Other(JsonValue),
}

/// What a [`ContentBlock`] stands for.
pub enum BlockView {
    Text(Seq<char>),
    Image { data: Seq<char>, mime_type: Seq<char> },
    Other(JsonView),
}

impl DeepView for ContentBlock {
    type V = BlockView;

    open spec fn deep_view(&self) -> Self::V {
        match self {
            ContentBlock::Text(text) => BlockView::Text(text@),
            ContentBlock::Image { data, mime_type } => BlockView::Image {
                data: data@,
                mime_type: mime_type@,
            },
            ContentBlock::Other(value) => BlockView::Other(value.deep_view()),
        }
    }
}

impl BlockView {
    /// The text of a text; `None` for anything else.
    pub open spec fn text(self) -> Option<Seq<char>> {
        match self {
            BlockView::Text(text) => Some(text),
            _ => None,
        }
    }
}

/// What the prompt holds for a part of the message it is made from: texts and images, and
/// nothing else.
pub open spec fn prompt_block(content: ContentView) -> Option<BlockView> {
    match content {
        ContentView::Text(text) => Some(BlockView::Text(text)),
        ContentView::Image { data, mime_type } => Some(BlockView::Image { data, mime_type }),
        _ => None,
    }
}

/// The prompt for a conversation: the texts and images of the last message that the user wrote
/// and the agent may see. Empty where there is no such message.
pub open spec fn prompt_for(messages: Seq<MessageView>) -> Seq<BlockView>
    decreases messages.len(),
{
    if messages.len() == 0 {
        Seq::empty()
    } else if messages.last().prompts() {
        messages.last().content.filter_map(|content: ContentView| prompt_block(content))
    } else {
        prompt_for(messages.drop_last())
    }
}

fn prompt_blocks(contents: &Vec<MessageContent>) -> (blocks: Vec<ContentBlock>)
    ensures
        blocks.deep_view() == contents.deep_view().filter_map(
            |content: ContentView| prompt_block(content),
        ),
{
    let mut blocks: Vec<ContentBlock> = Vec::new();
    let ghost views = contents.deep_view();
    let ghost convert = |content: ContentView| prompt_block(content);
    assert(blocks.deep_view() =~= views.take(0).filter_map(convert));
    for i in 0..contents.len()
        invariant
            views == contents.deep_view(),
            convert == (|content: ContentView| prompt_block(content)),
            blocks.deep_view() == views.take(i as int).filter_map(convert),
    {
        proof {
            assert(views.take(i + 1).drop_last() =~= views.take(i as int));
            assert(views.take(i + 1).last() == contents[i as int].deep_view());
        }
        match &contents[i] {
            MessageContent::Text(text) => {
                blocks.push(ContentBlock::Text(text.clone()));
            },
            MessageContent::Image { data, mime_type } => {
                blocks.push(
                    ContentBlock::Image { data: data.clone(), mime_type: mime_type.clone() },
                );
            },
            _ => {},
        }
        assert(blocks.deep_view() =~= views.take(i + 1).filter_map(convert));
    }
    assert(views.take(views.len() as int) =~= views);
    blocks
}

/// The prompt for a conversation.
pub fn messages_to_prompt(messages: &[Message]) -> (blocks: Vec<ContentBlock>)
    ensures
        blocks.deep_view() == prompt_for(messages.deep_view()),
{
    let ghost views = messages.deep_view();
    let mut left: usize = messages.len();
    assert(views.take(left as int) =~= views);
    while left > 0
        invariant
            left <= messages.len(),
            views == messages.deep_view(),
            prompt_for(views) == prompt_for(views.take(left as int)),
        decreases left,
    {
        let message = &messages[left - 1];
        proof {
            assert(views.take(left as int).last() == message.deep_view());
            assert(views.take(left as int).drop_last() =~= views.take(left - 1));
        }
        if message.prompts() {
            return prompt_blocks(&message.content);
        }
        left = left - 1;
    }
    let blocks: Vec<ContentBlock> = Vec::new();
    assert(blocks.deep_view() =~= Seq::empty());
    blocks
}

/// A part of what a tool call has to show.
#[derive(Debug, PartialEq, Eq)]
pub enum ToolCallContent {
    Content(ContentBlock),
    /// A change to a file, or a terminal.
    Other,
}

/// What a [`ToolCallContent`] stands for.
pub enum ToolContentView {
    Content(BlockView),
    Other,
}

impl DeepView for ToolCallContent {
    type V = ToolContentView;

    open spec fn deep_view(&self) -> Self::V {
        match self {
            ToolCallContent::Content(block) => ToolContentView::Content(block.deep_view()),
            ToolCallContent::Other => ToolContentView::Other,
        }
    }
}

impl ToolContentView {
    /// The text of a text; `None` for anything else.
    pub open spec fn text(self) -> Option<Seq<char>> {
        match self {
            ToolContentView::Content(block) => block.text(),
            ToolContentView::Other => None,
        }
    }
}

/// The agent's request for permission to run a tool call.
#[derive(Debug, PartialEq, Eq)]
pub struct RequestPermissionRequest {
    pub tool_call_id: String,
    pub title: Option<String>,
    pub raw_input: Option<JsonValue>,
    pub content: Option<Vec<ToolCallContent>>,
}

/// What a [`RequestPermissionRequest`] stands for.
pub struct PermissionRequestView {
    pub tool_call_id: Seq<char>,
    pub title: Option<Seq<char>>,
    pub raw_input: Option<JsonView>,
    pub content: Option<Seq<ToolContentView>>,
}

impl DeepView for RequestPermissionRequest {
    type V = PermissionRequestView;

    open spec fn deep_view(&self) -> Self::V {
        PermissionRequestView {
            tool_call_id: self.tool_call_id@,
            title: self.title.deep_view(),
            raw_input: self.raw_input.deep_view(),
            content: self.content.deep_view(),
        }
    }
}

/// The first text among the parts; `None` where there is none.
pub open spec fn first_text(content: Seq<ToolContentView>) -> Option<Seq<char>>
    decreases content.len(),
{
    if content.len() == 0 {
        None
    } else if content[0].text() is Some {
        content[0].text()
    } else {
        first_text(content.drop_first())
    }
}

impl PermissionRequestView {
    /// The name under which the tool call is put to the user.
    pub open spec fn tool_name(self) -> Seq<char> {
        match self.title {
            Some(title) => title,
            None => "Tool"@,
        }
    }

    /// The arguments that the user is shown: those of the tool call if they form an object,
    /// else none.
    pub open spec fn arguments(self) -> Seq<(Seq<char>, JsonView)> {
        match self.raw_input {
            Some(JsonView::Object(members)) => members,
            _ => Seq::empty(),
        }
    }

    /// What the user is asked: the first text that the tool call has to show.
    pub open spec fn prompt(self) -> Option<Seq<char>> {
        match self.content {
            Some(content) => first_text(content),
            None => None,
        }
    }

    /// The message that puts the request to the user, and to nobody else.
    pub open spec fn question(self) -> MessageView {
        MessageView {
            role: Role::Assistant,
            content: seq![
                ContentView::ActionRequired {
                    id: self.tool_call_id,
                    tool_name: self.tool_name(),
                    arguments: self.arguments(),
                    prompt: self.prompt(),
                },
            ],
            user_visible: true,
            agent_visible: false,
        }
    }
}

fn find_first_text(content: &Vec<ToolCallContent>) -> (found: Option<String>)
    ensures
        found.deep_view() == first_text(content.deep_view()),
{
    let ghost views = content.deep_view();
    assert(views.skip(0) =~= views);
    for i in 0..content.len()
        invariant
            views == content.deep_view(),
            first_text(views) == first_text(views.skip(i as int)),
    {
        proof {
            assert(views.skip(i as int)[0] == content[i as int].deep_view());
            assert(views.skip(i as int).drop_first() =~= views.skip(i + 1));
        }
        if let ToolCallContent::Content(ContentBlock::Text(text)) = &content[i] {
            return Some(text.clone());
        }
    }
    None
}

/// The message that puts a request for permission to the user.
pub fn build_action_required_message(request: &RequestPermissionRequest) -> (message: Option<
    Message,
>)
    ensures
        message.deep_view() == Some(request.deep_view().question()),
{
    let tool_title = match &request.title {
        Some(title) => title.clone(),
        None => "Tool".to_owned(),
    };
    let members = match &request.raw_input {
        Some(value) => value.as_object(),
        None => None,
    };
    let arguments: Vec<(String, JsonValue)> = match members {
        Some(members) => members,
        None => Vec::new(),
    };
    assert(arguments.deep_view() =~= request.deep_view().arguments());
    let prompt = match &request.content {
        Some(content) => find_first_text(content),
        None => None,
    };
    let message = Message::assistant().with_action_required(
        request.tool_call_id.clone(),
        tool_title,
        arguments,
        prompt,
    ).user_only();
    assert(message.deep_view().content =~= request.deep_view().question().content);
    Some(message)
}

} // verus!
