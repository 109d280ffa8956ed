//! The responses interface: from the input of a request to the conversation that the agent
//! instance is started with.

use crate::apis::openai::events::{
    items_of, FunctionCallItem, ItemView, ResponseStatus, Summary,
};
use vstd::prelude::*;

verus! {

/// Who a message of the input is from.
#[derive(Clone, Copy, Debug, PartialEq, Eq, Structural)]
pub enum Role {
    User,
    System,
    Assistant,
    Developer,
}

/// A part of the content of a message.
#[derive(Debug)]
pub enum ContentItem {
    /// A piece of text.
    Text { text: String },
    /// Anything else: an image, a file, a refusal.
    Other,
}

/// The content of a message.
#[derive(Debug)]
pub enum ContentInput {
    Text(String),
    List(Vec<ContentItem>),
}

/// A message of the input.
#[derive(Debug)]
pub struct InputMessage {
    pub role: Role,
    pub content: ContentInput,
}

/// An item of the input.
#[derive(Debug)]
pub enum ResponseInputItem {
    Message(InputMessage),
    /// Anything else: a reference, a call of a tool, its output, reasoning.
    Other,
}

/// The input of a request.
#[derive(Debug)]
pub enum ResponseInput {
    Text(String),
    List(Vec<ResponseInputItem>),
}

/// What of a request decides how it is handled.
#[derive(Debug)]
pub struct ResponseRequest {
    /// Whether the response is to be stored.
    pub store: Option<bool>,
    /// The response that this request continues.
    pub previous_response_id: Option<String>,
    /// What the system tells the agent before the conversation.
    pub instructions: Option<String>,
    pub input: ResponseInput,
}

/// A message of the conversation that an agent instance is started with.
#[derive(Debug)]
pub enum TraceMessage {
    System { content: String },
    User { content: String },
    Assistant { content: String },
}

/// The content of a [`TraceMessage`].
pub enum MessageView {
    System { content: Seq<char> },
    User { content: Seq<char> },
    Assistant { content: Seq<char> },
}

impl View for TraceMessage {
    type V = MessageView;

    open spec fn view(&self) -> MessageView {
        match self {
            TraceMessage::System { content } => MessageView::System { content: content@ },
            TraceMessage::User { content } => MessageView::User { content: content@ },
            TraceMessage::Assistant { content } => MessageView::Assistant { content: content@ },
        }
    }
}

/// The views of `messages`.
pub open spec fn views_of(messages: Seq<TraceMessage>) -> Seq<MessageView> {
    Seq::new(messages.len(), |i: int| messages[i]@)
}

/// The pieces of text among `items`, joined by line breaks.
pub open spec fn text_of_items(items: Seq<ContentItem>) -> Seq<char>
    decreases items.len(),
{
    if items.len() == 0 {
        Seq::empty()
    } else {
        match items.last() {
            ContentItem::Text { text } => if has_text(items.drop_last()) {
                text_of_items(items.drop_last()) + seq!['\n'] + text@
            } else {
                text@
            },
            ContentItem::Other => text_of_items(items.drop_last()),
        }
    }
}

/// Whether there is a piece of text among `items`.
pub open spec fn has_text(items: Seq<ContentItem>) -> bool {
    exists|i: int| 0 <= i < items.len() && #[trigger] items[i] is Text
}

/// The text of a content: the text itself, or the pieces of text of the list, joined by line
/// breaks.
pub open spec fn text_of(content: ContentInput) -> Seq<char> {
    match content {
        ContentInput::Text(text) => text@,
        ContentInput::List(items) => text_of_items(items@),
    }
}

/// The messages that an item of the input contributes: a message of the user or of the
/// assistant contributes its text, and nothing else contributes anything.
pub open spec fn messages_of_item(item: ResponseInputItem) -> Seq<MessageView> {
    match item {
        ResponseInputItem::Message(message) => match message.role {
            Role::User => seq![MessageView::User { content: text_of(message.content) }],
            Role::Assistant => seq![MessageView::Assistant { content: text_of(message.content) }],
            _ => Seq::empty(),
        },
        ResponseInputItem::Other => Seq::empty(),
    }
}

/// The messages that the items of the input contribute, in their order.
pub open spec fn messages_of_items(items: Seq<ResponseInputItem>) -> Seq<MessageView>
    decreases items.len(),
{
    if items.len() == 0 {
        Seq::empty()
    } else {
        messages_of_items(items.drop_last()) + messages_of_item(items.last())
    }
}

/// The conversation that a request starts the agent instance with: the instructions as a
/// message of the system, where there are any, and then the input.
pub open spec fn message_trace(instructions: Option<String>, input: ResponseInput) -> Seq<
    MessageView,
> {
    (match instructions {
        Some(text) => seq![MessageView::System { content: text@ }],
        None => Seq::empty(),
    }) + (match input {
        ResponseInput::Text(text) => seq![MessageView::User { content: text@ }],
        ResponseInput::List(items) => messages_of_items(items@),
    })
}

/// Why a request is turned away.
#[derive(Clone, Copy, Debug, PartialEq, Eq, Structural)]
pub enum Rejection {
    /// The request asks for a response that is stored, or continues an earlier response:
    /// neither is implemented.
    NotImplemented,
}

proof fn lemma_no_text(items: Seq<ContentItem>)
    requires
        !has_text(items),
    ensures
        text_of_items(items) == Seq::<char>::empty(),
    decreases items.len(),
{
    if items.len() > 0 {
        assert(!(items[items.len() - 1] is Text));
        assert forall|i: int| 0 <= i < items.drop_last().len() implies !(
        #[trigger] items.drop_last()[i] is Text) by {
            assert(!(items[i] is Text));
        }
        lemma_no_text(items.drop_last());
    }
}

fn content_text(content: &ContentInput) -> (text: String)
    ensures
        text@ == text_of(*content),
{
    match content {
        ContentInput::Text(text) => text.clone(),
        ContentInput::List(items) => {
            let mut joined = String::new();
            let mut any = false;
            let mut i: usize = 0;
            while i < items.len()
                invariant
                    i <= items@.len(),
                    joined@ == text_of_items(items@.take(i as int)),
                    any == has_text(items@.take(i as int)),
                decreases items@.len() - i,
            {
                let ghost before = items@.take(i as int);
                let ghost after = items@.take(i + 1);
                proof {
                    assert(after.drop_last() =~= before);
                    assert(after.last() == items@[i as int]);
                    if has_text(before) {
                        let j = choose|j: int|
                            0 <= j < before.len() && #[trigger] before[j] is Text;
                        assert(after[j] is Text);
                    }
                    if has_text(after) && !(items@[i as int] is Text) {
                        let j = choose|j: int| 0 <= j < after.len() && #[trigger] after[j] is Text;
                        assert(before[j] is Text);
                    }
                    if items@[i as int] is Text {
                        assert(after[i as int] is Text);
                    }
                }
                let ghost joined_before = joined@;
                match &items[i] {
                    ContentItem::Text { text } => {
                        if any {
                            joined.append("\n");
                            proof {
                                reveal_strlit("\n");
                                assert("\n"@ =~= seq!['\n']);
                            }
                        }
                        joined.append(text.as_str());
                        any = true;
                        proof {
                            if !has_text(before) {
                                lemma_no_text(before);
                            }
                        }
                        assert(joined@ =~= if has_text(before) {
                            joined_before + seq!['\n'] + text@
                        } else {
                            text@
                        });
                    },
                    ContentItem::Other => {},
                }
                assert(joined@ =~= text_of_items(after));
                i += 1;
            }
            assert(items@.take(i as int) =~= items@);
            joined
        },
    }
}

/// Builds the conversation that an agent instance is started with from the instructions and
/// the input of a request.
pub fn build_message_trace(instructions: &Option<String>, input: &ResponseInput) -> (trace: Vec<
    TraceMessage,
>)
    ensures
        views_of(trace@) == message_trace(*instructions, *input),
{
    let mut trace: Vec<TraceMessage> = Vec::new();
    if let Some(text) = instructions {
        trace.push(TraceMessage::System { content: text.clone() });
    }
    let ghost head = views_of(trace@);
    assert(head =~= match *instructions {
        Some(text) => seq![MessageView::System { content: text@ }],
        None => Seq::empty(),
    });
    match input {
        ResponseInput::Text(text) => {
            trace.push(TraceMessage::User { content: text.clone() });
            assert(views_of(trace@) =~= head + seq![MessageView::User { content: text@ }]);
        },
        ResponseInput::List(items) => {
            let mut i: usize = 0;
            assert(items@.take(0) =~= Seq::empty());
            assert(views_of(trace@) =~= head + messages_of_items(items@.take(0)));
            while i < items.len()
                invariant
                    i <= items@.len(),
                    views_of(trace@) == head + messages_of_items(items@.take(i as int)),
                decreases items@.len() - i,
            {
                let ghost before = items@.take(i as int);
                let ghost after = items@.take(i + 1);
                let ghost old_trace = views_of(trace@);
                proof {
                    assert(after.drop_last() =~= before);
                    assert(after.last() == items@[i as int]);
                }
                if let ResponseInputItem::Message(message) = &items[i] {
                    match message.role {
                        Role::User => {
                            let content = content_text(&message.content);
                            trace.push(TraceMessage::User { content });
                        },
                        Role::Assistant => {
                            let content = content_text(&message.content);
                            trace.push(TraceMessage::Assistant { content });
                        },
                        _ => {},
                    }
                }
                assert(views_of(trace@) =~= old_trace + messages_of_item(items@[i as int]));
                assert(views_of(trace@) =~= head + messages_of_items(after));
                i += 1;
            }
            assert(items@.take(i as int) =~= items@);
        },
    }
    trace
}

/// Admits a request and builds the conversation that its agent instance is started with.
///
/// A request that asks for its response to be stored, or that continues an earlier response,
/// is turned away: only requests that stand for themselves are served.
pub fn handle_response(request: &ResponseRequest) -> (admitted: Result<
    Vec<TraceMessage>,
    Rejection,
>)
    ensures
        match admitted {
            Ok(trace) => request.store != Some(true) && request.previous_response_id is None
                && views_of(trace@) == message_trace(request.instructions, request.input),
            Err(rejection) => request.store == Some(true) || request.previous_response_id is Some,
        },
{
    if let Some(true) = request.store {
        return Err(Rejection::NotImplemented);
    }
    if request.previous_response_id.is_some() {
        return Err(Rejection::NotImplemented);
    }
    Ok(build_message_trace(&request.instructions, &request.input))
}

/// An item of the output of a response.
#[derive(Debug)]
pub enum OutputItem {
    /// A finished call of a tool.
    FunctionToolCall(FunctionCallItem),
    /// A completed message of the assistant.
    Message { text: String },
}

/// The content of an [`OutputItem`].
pub enum OutputView {
    FunctionToolCall(ItemView),
    Message { text: Seq<char> },
}

impl View for OutputItem {
    type V = OutputView;

    open spec fn view(&self) -> OutputView {
        match self {
            OutputItem::FunctionToolCall(call) => OutputView::FunctionToolCall(call@),
            OutputItem::Message { text } => OutputView::Message { text: text@ },
        }
    }
}

/// The views of `items`.
pub open spec fn outputs_of(items: Seq<OutputItem>) -> Seq<OutputView> {
    Seq::new(items.len(), |i: int| items[i]@)
}

/// The output of a response: the finished calls of tools, oldest first, and after them the
/// last message of the assistant.
pub open spec fn output_of(calls: Seq<ItemView>, final_message: Seq<char>) -> Seq<OutputView> {
    Seq::new(calls.len(), |i: int| OutputView::FunctionToolCall(calls[i])).push(
        OutputView::Message { text: final_message },
    )
}

/// What a response is answered with: its output and how it ended.
#[derive(Debug)]
pub struct ResponseBody {
    pub output: Vec<OutputItem>,
    pub status: ResponseStatus,
}

/// Makes the body of a response of what was gathered from the events of the agent.
pub fn response_body(summary: Summary) -> (body: ResponseBody)
    ensures
        outputs_of(body.output@) == output_of(items_of(summary.calls@), summary.final_message@),
        body.status == summary.status,
{
    let ghost calls = summary.calls@;
    let mut output: Vec<OutputItem> = Vec::new();
    for call in moved: summary.calls.into_iter()
        invariant
            moved.seq() == calls,
            output@.len() == moved.index(),
            forall|j: int|
                0 <= j < output@.len() ==> #[trigger] output@[j]@ == OutputView::FunctionToolCall(
                    calls[j]@,
                ),
    {
        output.push(OutputItem::FunctionToolCall(call));
    }
    output.push(OutputItem::Message { text: summary.final_message });
    assert(outputs_of(output@) =~= output_of(items_of(calls), summary.final_message@));
    ResponseBody { output, status: summary.status }
}

} // verus!
