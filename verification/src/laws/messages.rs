//! What prompts, texts, thoughts and questions hold, part by part.
use vstd::prelude::*;

use crate::json::JsonView;
use crate::message::{
    BlockView, ContentView, MessageView, PermissionRequestView, Role, ToolContentView,
};

verus! {

/// A message that the user wrote and the agent may see is put to the agent part by part, where
/// it is the last: a text as a text that says the same, an image as an image with the same
/// data and the same type, and anything else not at all. What stands before the message does
/// not count, and a message without parts makes an empty prompt.
pub proof fn prompts_hold_each_part(
    before: Seq<MessageView>,
    message: MessageView,
    left: Seq<ContentView>,
    part: ContentView,
    right: Seq<ContentView>,
)
    requires
        message.role == Role::User,
        message.agent_visible,
        message.content == left.push(part) + right,
    ensures
        ({
            let blocks = crate::message::prompt_for(before.push(message));
            let first = crate::message::prompt_for(
                before.push(MessageView { content: left, ..message }),
            );
            let rest = crate::message::prompt_for(
                before.push(MessageView { content: right, ..message }),
            );
            match part {
                ContentView::Text(text) => blocks == first.push(BlockView::Text(text)) + rest,
                ContentView::Image { data, mime_type } => blocks == first.push(
                    BlockView::Image { data, mime_type },
                ) + rest,
                _ => blocks == first + rest,
            }
        }),
        crate::message::prompt_for(
            before.push(MessageView { content: Seq::empty(), ..message }),
        ).len() == 0,
{
    let convert = |content: ContentView| crate::message::prompt_block(content);
    let none = MessageView { content: Seq::empty(), ..message };
    let first = MessageView { content: left, ..message };
    let rest = MessageView { content: right, ..message };
    assert(before.push(message).last() == message);
    assert(before.push(none).last() == none);
    assert(before.push(first).last() == first);
    assert(before.push(rest).last() == rest);
    assert(left.push(part) =~= left + seq![part]);
    crate::laws::filter_map_distributes(left.push(part), right, convert);
    crate::laws::filter_map_distributes(left, seq![part], convert);
    Seq::lemma_filter_map_singleton(part, convert);
    match part {
        ContentView::Text(text) => {
            assert(left.filter_map(convert) + seq![BlockView::Text(text)] =~= left.filter_map(
                convert,
            ).push(BlockView::Text(text)));
        },
        ContentView::Image { data, mime_type } => {
            let block = BlockView::Image { data, mime_type };
            assert(left.filter_map(convert) + seq![block] =~= left.filter_map(convert).push(block));
        },
        _ => {
            assert(left.filter_map(convert) + Seq::<BlockView>::empty() =~= left.filter_map(
                convert,
            ));
        },
    }
}

/// A prompt of texts and images has as many blocks as the message has parts, and each stands
/// in its place with all that it holds.
pub proof fn texts_and_images_keep_their_places(before: Seq<MessageView>, message: MessageView)
    requires
        message.role == Role::User,
        message.agent_visible,
        forall|i: int|
            0 <= i < message.content.len() ==> (#[trigger] message.content[i]) is Text
                || message.content[i] is Image,
    ensures
        ({
            let blocks = crate::message::prompt_for(before.push(message));
            &&& blocks.len() == message.content.len()
            &&& forall|i: int|
                0 <= i < blocks.len() ==> match message.content[i] {
                    ContentView::Text(text) => #[trigger] blocks[i] == BlockView::Text(text),
                    ContentView::Image { data, mime_type } => blocks[i] == (BlockView::Image {
                        data,
                        mime_type,
                    }),
                    _ => false,
                }
        }),
    decreases message.content.len(),
{
    let content = message.content;
    let empty = Seq::<ContentView>::empty();
    if content.len() == 0 {
        assert(before.push(message).last() == message);
        assert(content =~= empty);
    } else {
        let shorter = MessageView { content: content.drop_last(), ..message };
        assert forall|i: int| 0 <= i < shorter.content.len() implies (
        #[trigger] shorter.content[i]) is Text || shorter.content[i] is Image by {
            assert(shorter.content[i] == content[i]);
        }
        texts_and_images_keep_their_places(before, shorter);
        assert(content =~= content.drop_last().push(content.last()) + empty);
        assert(content[content.len() - 1] is Text || content[content.len() - 1] is Image);
        prompts_hold_each_part(before, message, content.drop_last(), content.last(), empty);
        let blocks = crate::message::prompt_for(before.push(message));
        let most = crate::message::prompt_for(before.push(shorter));
        let none = MessageView { content: empty, ..message };
        let rest = crate::message::prompt_for(before.push(none));
        assert(rest.len() == 0);
        assert(blocks.len() == most.len() + 1);
        assert forall|i: int| 0 <= i < blocks.len() implies match content[i] {
            ContentView::Text(text) => #[trigger] blocks[i] == BlockView::Text(text),
            ContentView::Image { data, mime_type } => blocks[i] == (BlockView::Image {
                data,
                mime_type,
            }),
            _ => false,
        } by {
            if i < most.len() {
                assert(blocks[i] == most[i]);
                assert(shorter.content[i] == content[i]);
            }
        }
    }
}

/// A message that the user did not write, or that the agent may not see, adds nothing to the
/// prompt; and a conversation without messages has an empty one.
pub proof fn other_messages_are_not_prompted(before: Seq<MessageView>, message: MessageView)
    requires
        message.role != Role::User || !message.agent_visible,
    ensures
        crate::message::prompt_for(before.push(message)) == crate::message::prompt_for(before),
        crate::message::prompt_for(Seq::<MessageView>::empty()).len() == 0,
{
    assert(before.push(message).drop_last() =~= before);
    assert(before.push(message).last() == message);
}

/// What the assistant says is one text, as it was given, for the user and the agent.
pub proof fn sayings_hold_their_text(text: Seq<char>)
    ensures
        MessageView::said(text).role == Role::Assistant,
        MessageView::said(text).content.len() == 1,
        MessageView::said(text).content[0] == ContentView::Text(text),
        MessageView::said(text).user_visible,
        MessageView::said(text).agent_visible,
{
}

/// What the assistant thinks is one thought, as it was given and unsigned, for the user alone.
pub proof fn thoughts_hold_their_text(text: Seq<char>)
    ensures
        MessageView::thought(text).role == Role::Assistant,
        MessageView::thought(text).content.len() == 1,
        MessageView::thought(text).content[0] matches ContentView::Thinking {
            thinking,
            signature,
        } && thinking == text && signature.len() == 0,
        MessageView::thought(text).user_visible,
        !MessageView::thought(text).agent_visible,
{
}

/// A question is about the tool call that permission was asked for, under its own title if it
/// has one, with the arguments if they form an object and without any if not, and is put to
/// the user alone.
pub proof fn questions_show_the_tool_call(request: PermissionRequestView)
    ensures
        request.question().role == Role::Assistant,
        request.question().user_visible,
        !request.question().agent_visible,
        request.question().content.len() == 1,
        request.question().content[0] is ActionRequired,
        request.question().content[0]->id == request.tool_call_id,
        request.title is Some ==> request.question().content[0]->tool_name == request.title->0,
        request.title is None ==> request.question().content[0]->tool_name == "Tool"@,
        request.raw_input matches Some(JsonView::Object(members))
            ==> request.question().content[0]->arguments == members,
        (request.raw_input is None || !(request.raw_input->0 is Object))
            ==> request.question().content[0]->arguments.len() == 0,
{
}

/// Whether a part of a tool call is a text.
pub open spec fn is_text(part: ToolContentView) -> bool {
    part is Content && part->Content_0 is Text
}

/// What a question asks is the text that the tool call shows first: there is one where the
/// tool call shows any text, and no text stands before it.
pub proof fn questions_ask_the_first_text(request: PermissionRequestView, i: int)
    requires
        request.content is Some,
        0 <= i < request.content->0.len(),
        is_text(request.content->0[i]),
        forall|j: int| 0 <= j < i ==> !is_text(#[trigger] request.content->0[j]),
    ensures
        request.question().content[0]->prompt == Some(request.content->0[i]->Content_0->Text_0),
{
    first_text_is_first(request.content->0, i);
}

/// A question about a tool call that shows no text asks nothing more.
pub proof fn questions_without_text_ask_nothing(request: PermissionRequestView)
    requires
        request.content matches Some(content) ==> forall|j: int|
            0 <= j < content.len() ==> !is_text(#[trigger] content[j]),
    ensures
        request.question().content[0]->prompt is None,
{
    if let Some(content) = request.content {
        no_first_text(content);
    }
}

proof fn first_text_is_first(content: Seq<ToolContentView>, i: int)
    requires
        0 <= i < content.len(),
        is_text(content[i]),
        forall|j: int| 0 <= j < i ==> !is_text(#[trigger] content[j]),
    ensures
        crate::message::first_text(content) == Some(content[i]->Content_0->Text_0),
    decreases content.len(),
{
    if i > 0 {
        assert(!is_text(content[0]));
        let rest = content.drop_first();
        assert(rest[i - 1] == content[i]);
        assert forall|j: int| 0 <= j < i - 1 implies !is_text(#[trigger] rest[j]) by {
            assert(rest[j] == content[j + 1]);
        }
        first_text_is_first(rest, i - 1);
    }
}

proof fn no_first_text(content: Seq<ToolContentView>)
    requires
        forall|j: int| 0 <= j < content.len() ==> !is_text(#[trigger] content[j]),
    ensures
        crate::message::first_text(content) is None,
    decreases content.len(),
{
    if content.len() > 0 {
        assert(!is_text(content[0]));
        let rest = content.drop_first();
        assert forall|j: int| 0 <= j < rest.len() implies !is_text(#[trigger] rest[j]) by {
            assert(rest[j] == content[j + 1]);
        }
        no_first_text(rest);
    }
}

} // verus!
