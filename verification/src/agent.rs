//! The agent loop: the state machine that drives one user turn to
//! completion. It decides every transition — exit detection, what to append
//! to the conversation, which tool to dispatch to, how tool failures are fed
//! back — while the surrounding program performs the outside work each
//! returned [`LoopAction`] asks for (prompting, the model round-trip, the
//! tool invocations) and reports the results back.
//!
//! Tool calls within one round run strictly sequentially, in the order the
//! model requested them, and every outcome — success or failure — is appended
//! to the history as a tool-result entry; tool failures never abort the loop.
//! The number of tool-call rounds in one turn is bounded so a turn always
//! terminates.

use vstd::prelude::*;

use crate::errors::ErrorKind;
use crate::messages::{ConversationSession, Message, MessageView, Role, ToolCallRequest,
    ToolCallRequestView, ToolOutcome};
use crate::registry::{index_of_name, names_contain, params_match, ToolDescriptorView,
    ToolRegistry};
use crate::registry::lemma_index_of_name;
use crate::text::{is_exit_command, is_exit_spec};

verus! {

/// Where the loop stands between two interactions.
#[derive(Clone, Copy, Debug, PartialEq, Eq, Structural)]
pub enum LoopState {
    /// Waiting for the next line of user input.
    AwaitingUserInput,
    /// The history was sent to the model; its reply is outstanding.
    AwaitingModelResponse,
    /// A round of requested tool calls is being resolved, in request order.
    ExecutingTool,
    /// The user ended the session; this state is absorbing.
    Terminated,
}

/// What the model answered for one consultation.
pub enum ModelReply {
    /// A final answer: the turn ends with it.
    FinalAnswer(String),
    /// One round of tool-call requests, in the order the model made them.
    ToolCalls(Vec<ToolCallRequest>),
    /// The round-trip itself failed (network, timeout, malformed response).
    CommunicationFailure(String),
}

/// What the surrounding program must do next.
pub enum LoopAction {
    /// End the session; the model is not contacted.
    Exit,
    /// Send the full history plus the registry's descriptor list to the
    /// model, and report its reply through [`AgentLoop::on_model_reply`].
    QueryModel,
    /// Show the model's final answer to the user, then prompt again.
    EmitAnswer(String),
    /// Report an error to the user; the turn is abandoned, not retried.
    ReportError(ErrorKind, String),
    /// The turn used up its tool-call round budget; report and prompt again.
    RoundLimitReached,
    /// Invoke the tool at registry position `.0` with the pending call at
    /// position `.1`, and report through [`AgentLoop::on_tool_outcome`].
    InvokeTool(usize, usize),
    /// A pending call was resolved without outside work; call
    /// [`AgentLoop::advance_dispatch`] again.
    Resolved,
}

/// The agent loop's whole state: where it stands, the append-only history,
/// the registry, and the tool-call round in flight.
pub struct AgentLoop {
    state: LoopState,
    session: ConversationSession,
    registry: ToolRegistry,
    pending: Vec<ToolCallRequest>,
    next_call: usize,
    awaiting_outcome: bool,
    rounds_in_turn: u64,
    max_rounds: u64,
}

impl AgentLoop {
    /// Where the loop stands.
    pub closed spec fn state(self) -> LoopState {
        self.state
    }

    /// The conversation history, in arrival order.
    pub closed spec fn session(self) -> Seq<MessageView> {
        self.session@
    }

    /// The registered tools, in registration order.
    pub closed spec fn registry_view(self) -> Seq<ToolDescriptorView> {
        self.registry@
    }

    /// The tool calls of the round in flight, in request order.
    pub closed spec fn pending_calls(self) -> Seq<ToolCallRequestView> {
        self.pending@.map_values(|c: ToolCallRequest| c@)
    }

    /// How many of the round's calls are already resolved.
    pub closed spec fn next_call(self) -> int {
        self.next_call as int
    }

    /// A tool invocation was handed out and its outcome is outstanding.
    pub closed spec fn awaiting_outcome(self) -> bool {
        self.awaiting_outcome
    }

    /// How many tool-call rounds this turn has used.
    pub closed spec fn rounds_in_turn(self) -> int {
        self.rounds_in_turn as int
    }

    /// The bound on tool-call rounds per turn.
    pub closed spec fn max_rounds(self) -> int {
        self.max_rounds as int
    }

    /// The loop's invariant: registered names stay unique, and the dispatch
    /// cursor stays within the round.
    pub closed spec fn wf(self) -> bool {
        &&& self.registry.wf()
        &&& self.state is ExecutingTool ==> self.next_call <= self.pending@.len()
        &&& self.awaiting_outcome ==> self.state is ExecutingTool && self.next_call
            < self.pending@.len()
        &&& self.rounds_in_turn <= self.max_rounds
    }

    /// A fresh loop around a fully built registry, awaiting the first line of
    /// input with an empty history.
    pub fn new(registry: ToolRegistry, max_rounds: u64) -> (r: AgentLoop)
        requires
            registry.wf(),
        ensures
            r.wf(),
            r.state() is AwaitingUserInput,
            r.session() == Seq::<MessageView>::empty(),
            r.registry_view() == registry@,
            r.max_rounds() == max_rounds as int,
            r.rounds_in_turn() == 0,
            !r.awaiting_outcome(),
    {
        AgentLoop {
            state: LoopState::AwaitingUserInput,
            session: ConversationSession::new(),
            registry,
            pending: Vec::new(),
            next_call: 0,
            awaiting_outcome: false,
            rounds_in_turn: 0,
            max_rounds,
        }
    }

    /// One line of user input. The exit keyword (case-insensitive, trimmed)
    /// terminates the loop without contacting the model and without touching
    /// the history; anything else is logged as the user's message and sent to
    /// the model.
    pub fn on_user_input(&mut self, input: String) -> (a: LoopAction)
        requires
            old(self).wf(),
            old(self).state() is AwaitingUserInput,
        ensures
            final(self).wf(),
            final(self).registry_view() == old(self).registry_view(),
            final(self).max_rounds() == old(self).max_rounds(),
            is_exit_spec(input@) ==> final(self).state() is Terminated && final(self).session()
                == old(self).session() && a is Exit,
            !is_exit_spec(input@) ==> final(self).state() is AwaitingModelResponse && final(self).session() == old(self).session().push(
                MessageView { role: Role::User, content: input@, tool_name: None },
            ) && final(self).rounds_in_turn() == 0 && a is QueryModel,
    {
        if is_exit_command(input.as_str()) {
            self.state = LoopState::Terminated;
            LoopAction::Exit
        } else {
            self.session.append(Message { role: Role::User, content: input, tool_name: None });
            self.rounds_in_turn = 0;
            self.state = LoopState::AwaitingModelResponse;
            LoopAction::QueryModel
        }
    }

    /// The model's reply to a consultation. A final answer is logged and
    /// emitted; a communication failure abandons the turn without touching
    /// the history; a round of tool calls moves the loop into dispatch,
    /// unless the turn's round budget is spent.
    pub fn on_model_reply(&mut self, reply: ModelReply) -> (a: LoopAction)
        requires
            old(self).wf(),
            old(self).state() is AwaitingModelResponse,
        ensures
            final(self).wf(),
            final(self).registry_view() == old(self).registry_view(),
            final(self).max_rounds() == old(self).max_rounds(),
            reply matches ModelReply::FinalAnswer(t) ==> final(self).state()
                is AwaitingUserInput && final(self).session() == old(self).session().push(
                MessageView { role: Role::Assistant, content: t@, tool_name: None },
            ) && (a matches LoopAction::EmitAnswer(e) && e@ == t@),
            reply matches ModelReply::CommunicationFailure(e) ==> final(self).state()
                is AwaitingUserInput && final(self).session() == old(self).session() && (a
                matches LoopAction::ReportError(k, m) && k is ModelCommunicationError && m@ == e@),
            reply matches ModelReply::ToolCalls(calls) ==> ((old(self).rounds_in_turn() < old(self).max_rounds() ==> final(self).state() is ExecutingTool && final(self).session()
                == old(self).session() && final(self).pending_calls() == calls@.map_values(
                |c: ToolCallRequest| c@,
            ) && final(self).next_call() == 0 && !final(self).awaiting_outcome() && final(self).rounds_in_turn() == old(self).rounds_in_turn() + 1 && a is Resolved) && (old(self).rounds_in_turn() >= old(self).max_rounds() ==> final(self).state()
                is AwaitingUserInput && final(self).session() == old(self).session() && a
                is RoundLimitReached)),
    {
        match reply {
            ModelReply::FinalAnswer(t) => {
                self.session.append(
                    Message { role: Role::Assistant, content: t.clone(), tool_name: None },
                );
                self.state = LoopState::AwaitingUserInput;
                LoopAction::EmitAnswer(t)
            },
            ModelReply::CommunicationFailure(e) => {
                self.state = LoopState::AwaitingUserInput;
                LoopAction::ReportError(ErrorKind::ModelCommunicationError, e)
            },
            ModelReply::ToolCalls(calls) => {
                if self.rounds_in_turn < self.max_rounds {
                    self.rounds_in_turn = self.rounds_in_turn + 1;
                    self.pending = calls;
                    self.next_call = 0;
                    self.awaiting_outcome = false;
                    self.state = LoopState::ExecutingTool;
                    LoopAction::Resolved
                } else {
                    self.state = LoopState::AwaitingUserInput;
                    LoopAction::RoundLimitReached
                }
            },
        }
    }

    /// Resolve the round's next pending call. A call naming an unregistered
    /// tool or carrying mismatched parameters is answered with a synthesized
    /// error result rather than aborting the turn; a well-formed call is
    /// handed out for invocation; once every call is resolved the model is
    /// consulted again with the new results.
    pub fn advance_dispatch(&mut self) -> (a: LoopAction)
        requires
            old(self).wf(),
            old(self).state() is ExecutingTool,
            !old(self).awaiting_outcome(),
        ensures
            final(self).wf(),
            final(self).registry_view() == old(self).registry_view(),
            final(self).max_rounds() == old(self).max_rounds(),
            final(self).rounds_in_turn() == old(self).rounds_in_turn(),
            old(self).next_call() == old(self).pending_calls().len() ==> final(self).state()
                is AwaitingModelResponse && final(self).session() == old(self).session() && a
                is QueryModel,
            (old(self).next_call() < old(self).pending_calls().len() && !names_contain(
                old(self).registry_view(),
                old(self).pending_calls()[old(self).next_call()].tool_name,
            )) ==> final(self).state() is ExecutingTool && !final(self).awaiting_outcome()
                && final(self).session() == old(self).session().push(
                MessageView {
                    role: Role::ToolResult,
                    content: "unknown tool"@,
                    tool_name: Some(old(self).pending_calls()[old(self).next_call()].tool_name),
                },
            ) && final(self).next_call() == old(self).next_call() + 1 && final(self).pending_calls() == old(self).pending_calls() && a is Resolved,
            (old(self).next_call() < old(self).pending_calls().len() && names_contain(
                old(self).registry_view(),
                old(self).pending_calls()[old(self).next_call()].tool_name,
            ) && !params_match(
                old(self).registry_view()[index_of_name(
                    old(self).registry_view(),
                    old(self).pending_calls()[old(self).next_call()].tool_name,
                )].fields,
                old(self).pending_calls()[old(self).next_call()],
            )) ==> final(self).state() is ExecutingTool && !final(self).awaiting_outcome()
                && final(self).session() == old(self).session().push(
                MessageView {
                    role: Role::ToolResult,
                    content: "validation error"@,
                    tool_name: Some(old(self).pending_calls()[old(self).next_call()].tool_name),
                },
            ) && final(self).next_call() == old(self).next_call() + 1 && final(self).pending_calls() == old(self).pending_calls() && a is Resolved,
            (old(self).next_call() < old(self).pending_calls().len() && names_contain(
                old(self).registry_view(),
                old(self).pending_calls()[old(self).next_call()].tool_name,
            ) && params_match(
                old(self).registry_view()[index_of_name(
                    old(self).registry_view(),
                    old(self).pending_calls()[old(self).next_call()].tool_name,
                )].fields,
                old(self).pending_calls()[old(self).next_call()],
            )) ==> final(self).state() is ExecutingTool && final(self).awaiting_outcome()
                && final(self).session() == old(self).session() && final(self).next_call() == old(self).next_call() && final(self).pending_calls() == old(self).pending_calls() && (a
                matches LoopAction::InvokeTool(ri, ci) && ci == old(self).next_call() && ri
                == index_of_name(
                old(self).registry_view(),
                old(self).pending_calls()[old(self).next_call()].tool_name,
            )),
    {
        if self.next_call == self.pending.len() {
            self.state = LoopState::AwaitingModelResponse;
            return LoopAction::QueryModel;
        }
        proof {
            assert(self.pending_calls()[self.next_call as int] == self.pending@[
                self.next_call as int
            ]@);
        }
        let lookup = self.registry.lookup(self.pending[self.next_call].tool_name.as_str());
        match lookup {
            Err(_) => {
                let tool_name = self.pending[self.next_call].tool_name.clone();
                self.session.append(
                    Message {
                        role: Role::ToolResult,
                        content: String::from_str(ErrorKind::UnknownTool.text()),
                        tool_name: Some(tool_name),
                    },
                );
                self.next_call = self.next_call + 1;
                LoopAction::Resolved
            },
            Ok(ri) => {
                proof {
                    lemma_index_of_name(
                        self.registry@,
                        self.pending@[self.next_call as int]@.tool_name,
                        ri as int,
                    );
                }
                if !self.registry.validate(ri, &self.pending[self.next_call]) {
                    let tool_name = self.pending[self.next_call].tool_name.clone();
                    self.session.append(
                        Message {
                            role: Role::ToolResult,
                            content: String::from_str(ErrorKind::ValidationError.text()),
                            tool_name: Some(tool_name),
                        },
                    );
                    self.next_call = self.next_call + 1;
                    LoopAction::Resolved
                } else {
                    self.awaiting_outcome = true;
                    LoopAction::InvokeTool(ri, self.next_call)
                }
            },
        }
    }

    /// The reported outcome of the invocation handed out last. Success or
    /// failure, it is appended to the history as a tool-result entry — tool
    /// failures are fed back to the model, never raised — and the dispatch
    /// moves to the round's next call.
    pub fn on_tool_outcome(&mut self, result: ToolOutcome) -> (a: LoopAction)
        requires
            old(self).wf(),
            old(self).awaiting_outcome(),
        ensures
            final(self).wf(),
            final(self).registry_view() == old(self).registry_view(),
            final(self).max_rounds() == old(self).max_rounds(),
            final(self).rounds_in_turn() == old(self).rounds_in_turn(),
            final(self).state() is ExecutingTool,
            !final(self).awaiting_outcome(),
            final(self).next_call() == old(self).next_call() + 1,
            final(self).pending_calls() == old(self).pending_calls(),
            result matches ToolOutcome::Success(t) ==> final(self).session() == old(self).session().push(
                MessageView {
                    role: Role::ToolResult,
                    content: t@,
                    tool_name: Some(old(self).pending_calls()[old(self).next_call()].tool_name),
                },
            ),
            result matches ToolOutcome::Failure(k, m) ==> final(self).session() == old(self).session().push(
                MessageView {
                    role: Role::ToolResult,
                    content: m@,
                    tool_name: Some(old(self).pending_calls()[old(self).next_call()].tool_name),
                },
            ),
            a is Resolved,
    {
        proof {
            assert(self.pending_calls()[self.next_call as int] == self.pending@[
                self.next_call as int
            ]@);
        }
        let _bound: usize = self.pending.len();
        let tool_name = self.pending[self.next_call].tool_name.clone();
        let content = match result {
            ToolOutcome::Success(t) => t,
            ToolOutcome::Failure(_, m) => m,
        };
        self.session.append(
            Message { role: Role::ToolResult, content, tool_name: Some(tool_name) },
        );
        self.next_call = self.next_call + 1;
        self.awaiting_outcome = false;
        LoopAction::Resolved
    }

    /// Where the loop stands, for the surrounding program.
    pub fn current_state(&self) -> (s: LoopState)
        ensures
            s == self.state(),
    {
        self.state
    }

    /// How many history entries there are.
    pub fn message_count(&self) -> (r: usize)
        ensures
            r == self.session().len(),
    {
        self.session.len()
    }

    /// The history entry at position `i`, in arrival order.
    pub fn message(&self, i: usize) -> (r: &Message)
        requires
            i < self.session().len(),
        ensures
            r@ == self.session()[i as int],
    {
        self.session.get(i)
    }

    /// The registry the loop dispatches against.
    pub fn tools(&self) -> (r: &ToolRegistry)
        ensures
            r@ == self.registry_view(),
    {
        &self.registry
    }

    /// The pending call at position `i` of the round in flight.
    pub fn pending_call(&self, i: usize) -> (r: &ToolCallRequest)
        requires
            i < self.pending_calls().len(),
        ensures
            r@ == self.pending_calls()[i as int],
    {
        &self.pending[i]
    }
}

} // verus!
