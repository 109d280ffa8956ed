//! What a handler reads of the events of an agent instance, and what it gathers from them.

use vstd::prelude::*;

verus! {

/// A call of a tool by the agent.
#[derive(Debug)]
pub struct ToolCall {
    pub tool_call_id: String,
    pub tool_name: String,
    /// The arguments of the call, as JSON text.
    pub parameters: String,
}

/// How a call of a tool ended.
#[derive(Debug)]
pub enum ToolResult {
    Success { output: String },
    Error { error: String },
    Denied,
}

/// An event of an agent instance, as far as a handler reads it.
#[derive(Debug)]
pub enum AgentEvent {
    /// The agent has thought. `text` is the text of the thought where the thought succeeded
    /// and is a message of the assistant with text in it, and `None` otherwise.
    BrainResult { text: Option<String> },
    /// A call of a tool has begun.
    ToolCallStarted { tool_name: String },
    /// A call of a tool has ended.
    ToolCallCompleted { call: ToolCall, result: ToolResult },
    /// The agent has finished its run.
    Completed { message: String, success: bool },
    /// The agent has paused and waits.
    Paused,
    /// The agent has failed.
    Error { error: String },
    /// Any other event.
    Other,
}

/// How a response ended.
#[derive(Clone, Copy, Debug, PartialEq, Eq, Structural)]
pub enum ResponseStatus {
    Completed,
    Failed,
    Incomplete,
}

/// How a call of a tool is reported in a response.
#[derive(Clone, Copy, Debug, PartialEq, Eq, Structural)]
pub enum ItemStatus {
    Completed,
    Incomplete,
}

/// A call of a tool, as an item of a response.
#[derive(Debug)]
pub struct FunctionCallItem {
    pub id: String,
    pub call_id: String,
    pub name: String,
    pub arguments: String,
    pub status: ItemStatus,
}

/// The content of a [`FunctionCallItem`].
pub struct ItemView {
    pub id: Seq<char>,
    pub call_id: Seq<char>,
    pub name: Seq<char>,
    pub arguments: Seq<char>,
    pub status: ItemStatus,
}

impl View for FunctionCallItem {
    type V = ItemView;

    open spec fn view(&self) -> ItemView {
        ItemView {
            id: self.id@,
            call_id: self.call_id@,
            name: self.name@,
            arguments: self.arguments@,
            status: self.status,
        }
    }
}

/// The content of an [`AgentEvent`].
pub enum EventView {
    BrainResult { text: Option<Seq<char>> },
    ToolCallStarted { tool_name: Seq<char> },
    ToolCallCompleted { item: ItemView },
    Completed { message: Seq<char>, success: bool },
    Paused,
    Error { error: Seq<char> },
    Other,
}

/// The item by which a finished call of a tool is reported: under the identifier of the
/// call, as completed where the tool succeeded, as incomplete where it failed or was denied.
pub open spec fn item_of(call: ToolCall, result: ToolResult) -> ItemView {
    ItemView {
        id: call.tool_call_id@,
        call_id: call.tool_call_id@,
        name: call.tool_name@,
        arguments: call.parameters@,
        status: if result is Success {
            ItemStatus::Completed
        } else {
            ItemStatus::Incomplete
        },
    }
}

impl View for AgentEvent {
    type V = EventView;

    open spec fn view(&self) -> EventView {
        match self {
            AgentEvent::BrainResult { text } => EventView::BrainResult {
                text: match text {
                    Some(text) => Some(text@),
                    None => None,
                },
            },
            AgentEvent::ToolCallStarted { tool_name } => EventView::ToolCallStarted {
                tool_name: tool_name@,
            },
            AgentEvent::ToolCallCompleted { call, result } => EventView::ToolCallCompleted {
                item: item_of(*call, *result),
            },
            AgentEvent::Completed { message, success } => EventView::Completed {
                message: message@,
                success: *success,
            },
            AgentEvent::Paused => EventView::Paused,
            AgentEvent::Error { error } => EventView::Error { error: error@ },
            AgentEvent::Other => EventView::Other,
        }
    }
}

/// What a handler has gathered from the events so far.
pub struct Gathered {
    /// The finished calls of tools, oldest first.
    pub calls: Seq<ItemView>,
    /// The last message of the assistant.
    pub final_message: Seq<char>,
    /// How the response stands.
    pub status: ResponseStatus,
    /// Whether an event has ended the response.
    pub ended: bool,
}

impl Gathered {
    /// Nothing gathered yet: no calls, an empty message, and a response that counts as
    /// completed unless an event says otherwise.
    pub open spec fn start() -> Gathered {
        Gathered {
            calls: Seq::empty(),
            final_message: Seq::empty(),
            status: ResponseStatus::Completed,
            ended: false,
        }
    }

    /// What is gathered once `event` is read as well.
    ///
    /// A thought with text replaces the message. A finished call of a tool is added to the
    /// calls. The end of the run ends the response: its message replaces the one gathered
    /// unless it is empty, and an unsuccessful run makes the response failed. A pause ends the
    /// response as incomplete, a failure of the agent as failed. Nothing is read after the
    /// response has ended.
    pub open spec fn read(self, event: EventView) -> Gathered {
        if self.ended {
            self
        } else {
            match event {
                EventView::BrainResult { text: Some(text) } => Gathered {
                    final_message: text,
                    ..self
                },
                EventView::ToolCallCompleted { item } => Gathered {
                    calls: self.calls.push(item),
                    ..self
                },
                EventView::Completed { message, success } => Gathered {
                    final_message: if message.len() > 0 {
                        message
                    } else {
                        self.final_message
                    },
                    status: if success {
                        self.status
                    } else {
                        ResponseStatus::Failed
                    },
                    ended: true,
                    ..self
                },
                EventView::Paused => Gathered {
                    status: ResponseStatus::Incomplete,
                    ended: true,
                    ..self
                },
                EventView::Error { error } => Gathered {
                    status: ResponseStatus::Failed,
                    ended: true,
                    ..self
                },
                _ => self,
            }
        }
    }

    /// What is gathered once all of `events` are read, in their order.
    pub open spec fn read_all(self, events: Seq<EventView>) -> Gathered
        decreases events.len(),
    {
        if events.len() == 0 {
            self
        } else {
            self.read_all(events.drop_last()).read(events.last())
        }
    }
}

/// Gathers what a response is made of from the events of an agent instance.
pub struct EventCollector {
    calls: Vec<FunctionCallItem>,
    final_message: String,
    status: ResponseStatus,
    ended: bool,
}

/// The views of the items of `calls`.
pub open spec fn items_of(calls: Seq<FunctionCallItem>) -> Seq<ItemView> {
    Seq::new(calls.len(), |i: int| calls[i]@)
}

impl View for EventCollector {
    type V = Gathered;

    closed spec fn view(&self) -> Gathered {
        Gathered {
            calls: items_of(self.calls@),
            final_message: self.final_message@,
            status: self.status,
            ended: self.ended,
        }
    }
}

/// What a response is made of, once its events are read.
#[derive(Debug)]
pub struct Summary {
    /// The finished calls of tools, oldest first.
    pub calls: Vec<FunctionCallItem>,
    /// The last message of the assistant.
    pub final_message: String,
    /// How the response ended.
    pub status: ResponseStatus,
}

impl EventCollector {
    /// A collector that has read nothing.
    pub fn new() -> (collector: Self)
        ensures
            collector@ == Gathered::start(),
    {
        let collector = EventCollector {
            calls: Vec::new(),
            final_message: String::new(),
            status: ResponseStatus::Completed,
            ended: false,
        };
        assert(items_of(collector.calls@) =~= Seq::empty());
        collector
    }

    /// Reads `event`, and says whether the response has ended: the caller then stops
    /// listening.
    pub fn observe(&mut self, event: AgentEvent) -> (ended: bool)
        ensures
            final(self)@ == old(self)@.read(event@),
            ended == final(self)@.ended,
    {
        if self.ended {
            return true;
        }
        match event {
            AgentEvent::BrainResult { text: Some(text) } => {
                self.final_message = text;
            },
            AgentEvent::ToolCallCompleted { call, result } => {
                let ghost before = self.calls@;
                let ghost item = item_of(call, result);
                let status = match result {
                    ToolResult::Success { .. } => ItemStatus::Completed,
                    _ => ItemStatus::Incomplete,
                };
                let id = call.tool_call_id.clone();
                self.calls.push(
                    FunctionCallItem {
                        id,
                        call_id: call.tool_call_id,
                        name: call.tool_name,
                        arguments: call.parameters,
                        status,
                    },
                );
                assert(items_of(self.calls@) =~= items_of(before).push(item));
            },
            AgentEvent::Completed { message, success } => {
                if !message.as_str().is_empty() {
                    self.final_message = message;
                }
                if !success {
                    self.status = ResponseStatus::Failed;
                }
                self.ended = true;
            },
            AgentEvent::Paused => {
                self.status = ResponseStatus::Incomplete;
                self.ended = true;
            },
            AgentEvent::Error { .. } => {
                self.status = ResponseStatus::Failed;
                self.ended = true;
            },
            _ => {},
        }
        self.ended
    }

    /// What was gathered: the response is built of it once the caller has stopped listening,
    /// because the response has ended or because no event will come any more.
    pub fn finish(self) -> (summary: Summary)
        ensures
            items_of(summary.calls@) == self@.calls,
            summary.final_message@ == self@.final_message,
            summary.status == self@.status,
    {
        Summary { calls: self.calls, final_message: self.final_message, status: self.status }
    }
}

/// Once an event has ended the response, whatever follows changes nothing of it.
pub proof fn law_nothing_is_read_after_the_end(gathered: Gathered, events: Seq<EventView>)
    requires
        gathered.ended,
    ensures
        gathered.read_all(events) == gathered,
    decreases events.len(),
{
    if events.len() > 0 {
        law_nothing_is_read_after_the_end(gathered, events.drop_last());
    }
}

} // verus!
