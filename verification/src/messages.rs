//! The conversation data model: messages, tool-call requests, tool results,
//! and the append-only conversation session.

use vstd::prelude::*;

use crate::errors::ErrorKind;

verus! {

/// Who a message in the conversation log speaks for.
#[derive(Clone, Copy, Debug, PartialEq, Eq, Structural)]
pub enum Role {
    /// A line the user typed.
    User,
    /// A final answer the model produced.
    Assistant,
    /// The outcome of one tool invocation, fed back to the model.
    ToolResult,
}

/// One named argument of a tool-call request.
pub struct ParamBinding {
    /// The parameter's field name.
    pub name: String,
    /// The value the model supplied for it.
    pub value: String,
}

/// The mathematical value of a [`ParamBinding`].
pub struct ParamBindingView {
    pub name: Seq<char>,
    pub value: Seq<char>,
}

impl View for ParamBinding {
    type V = ParamBindingView;

    open spec fn view(&self) -> ParamBindingView {
        ParamBindingView { name: self.name@, value: self.value@ }
    }
}

/// One tool call the model asked for: the tool's name and a mapping of field
/// names to values. Emitted by the model, never by the user.
pub struct ToolCallRequest {
    /// The name the tool was advertised under.
    pub tool_name: String,
    /// The arguments, one binding per field.
    pub parameters: Vec<ParamBinding>,
}

/// The mathematical value of a [`ToolCallRequest`].
pub struct ToolCallRequestView {
    pub tool_name: Seq<char>,
    pub parameters: Seq<ParamBindingView>,
}

impl View for ToolCallRequest {
    type V = ToolCallRequestView;

    open spec fn view(&self) -> ToolCallRequestView {
        ToolCallRequestView {
            tool_name: self.tool_name@,
            parameters: self.parameters@.map_values(|b: ParamBinding| b@),
        }
    }
}

/// How one tool invocation ended: its text on success, or an error kind with
/// its text.
pub enum ToolOutcome {
    /// The tool succeeded and produced this text.
    Success(String),
    /// The tool failed for this reason; the failure is fed back to the model,
    /// never raised.
    Failure(ErrorKind, String),
}

/// The resolved outcome of exactly one tool-call request.
pub struct ToolResult {
    /// The name of the tool the request named.
    pub tool_name: String,
    /// How the invocation ended.
    pub outcome: ToolOutcome,
}

/// One entry of the conversation log.
pub struct Message {
    /// Who the entry speaks for.
    pub role: Role,
    /// The entry's text.
    pub content: String,
    /// For tool-result entries, the tool the result belongs to.
    pub tool_name: Option<String>,
}

/// The mathematical value of a [`Message`].
pub struct MessageView {
    pub role: Role,
    pub content: Seq<char>,
    pub tool_name: Option<Seq<char>>,
}

impl View for Message {
    type V = MessageView;

    open spec fn view(&self) -> MessageView {
        MessageView {
            role: self.role,
            content: self.content@,
            tool_name: match self.tool_name {
                Some(ref n) => Some(n@),
                None => None,
            },
        }
    }
}

/// The ordered, append-only log of one conversation. Entries are never
/// reordered or rewritten; the only mutation is appending.
pub struct ConversationSession {
    messages: Vec<Message>,
}

impl View for ConversationSession {
    type V = Seq<MessageView>;

    closed spec fn view(&self) -> Seq<MessageView> {
        self.messages@.map_values(|m: Message| m@)
    }
}

impl ConversationSession {
    /// An empty log, created once at process start.
    pub fn new() -> (r: ConversationSession)
        ensures
            r@ == Seq::<MessageView>::empty(),
    {
        let r = ConversationSession { messages: Vec::new() };
        proof {
            assert(r@ =~= Seq::<MessageView>::empty());
        }
        r
    }

    /// Append one entry; everything already logged is kept in place.
    pub fn append(&mut self, m: Message)
        ensures
            final(self)@ == old(self)@.push(m@),
    {
        let ghost prev = self@;
        let ghost mv = m@;
        self.messages.push(m);
        proof {
            assert(self@ =~= prev.push(mv));
        }
    }

    /// How many entries the log holds.
    pub fn len(&self) -> (r: usize)
        ensures
            r == self@.len(),
    {
        self.messages.len()
    }

    /// The entry at position `i`, in arrival order.
    pub fn get(&self, i: usize) -> (r: &Message)
        requires
            i < self@.len(),
        ensures
            r@ == self@[i as int],
    {
        &self.messages[i]
    }
}

} // verus!
