//! The dispatch loop: the conversation state machine.
//!
//! After the prompt is transmitted the loop awaits events. A tool call is
//! answered — by invoking the named registered tool when the name and the
//! arguments check out, by a structured error reply otherwise — and the
//! loop keeps awaiting; a terminal result completes the interaction; a
//! transport failure or a close without result fails it. Tool-level trouble
//! is always reflected back to the agent and never ends the interaction by
//! itself.
//!
//! The transitions are given as spec functions (`event_step`,
//! `outcome_step`); the executable methods are proved to follow them
//! exactly. Awaiting the transport and running the native callables is the
//! owner loop's job: it feeds events in and carries the returned actions
//! out.

use vstd::prelude::*;
use vstd::string::StringExecFns;

use crate::error::Error;
use crate::json::{JsonValue, Schema, matches_schema, matches_value};
use crate::tools::{ToolSpec, find_tool, has_tool, spec_tool_index};

verus! {

/// One incoming message of an interaction.
#[derive(Debug, PartialEq)]
pub enum DispatchEvent {
    /// The agent asks to invoke a named tool.
    ToolCall { call_id: u64, name: String, arguments: JsonValue },
    /// The agent concludes the interaction with its final payload.
    TerminalResult { payload: JsonValue },
    /// The transport closed cleanly, without a terminal result.
    Closed,
    /// The transport failed.
    TransportError { message: String },
}

/// The outcome of invoking a native callable.
#[derive(Debug, PartialEq)]
pub enum ToolOutcome {
    /// The callable returned a value.
    Success(JsonValue),
    /// The callable failed, with a descriptive message.
    Failure(String),
}

/// Where the conversation stands.
#[derive(Debug, PartialEq)]
pub enum DispatchState {
    /// The prompt is out; the next event decides what happens.
    AwaitingEvent,
    /// A registered tool is being invoked for the given call.
    Invoking { call_id: u64, tool: usize },
    /// The agent sent its terminal result.
    Completed { payload: JsonValue },
    /// The interaction failed; the error is owed to the caller.
    Failed { error: Error },
}

/// What the owner loop must do next.
#[derive(Debug, PartialEq)]
pub enum DispatchAction {
    /// Invoke registered tool number `tool` with the given arguments and
    /// feed the outcome back through `on_outcome`.
    Invoke { tool: usize, call_id: u64, arguments: JsonValue },
    /// Send a successful tool reply, correlated by call-id.
    Reply { call_id: u64, value: JsonValue },
    /// Send a structured tool-error reply, correlated by call-id.
    ErrorReply { call_id: u64, message: String },
    /// Nothing to send: the interaction reached a terminal state.
    Stop,
}

/// The mathematical shape of a `DispatchAction`: message text as a
/// character sequence.
pub enum ActionView {
    Invoke { tool: int, call_id: u64, arguments: JsonValue },
    Reply { call_id: u64, value: JsonValue },
    ErrorReply { call_id: u64, message: Seq<char> },
    Stop,
}

impl View for DispatchAction {
    type V = ActionView;

    open spec fn view(&self) -> ActionView {
        match *self {
            DispatchAction::Invoke { tool, call_id, arguments } => ActionView::Invoke {
                tool: tool as int,
                call_id,
                arguments,
            },
            DispatchAction::Reply { call_id, value } => ActionView::Reply { call_id, value },
            DispatchAction::ErrorReply { call_id, message } => ActionView::ErrorReply {
                call_id,
                message: message@,
            },
            DispatchAction::Stop => ActionView::Stop,
        }
    }
}

/// The error-reply message for a call naming no registered tool.
pub open spec fn unknown_tool_message(name: Seq<char>) -> Seq<char> {
    "no tool is registered under the name: "@ + name
}

/// The error-reply message for arguments outside the tool's input shape.
pub open spec fn invalid_arguments_message(name: Seq<char>) -> Seq<char> {
    "arguments do not match the declared input schema of tool: "@ + name
}

/// The error-reply message for a tool result outside its output shape.
pub open spec fn invalid_output_message(name: Seq<char>) -> Seq<char> {
    "result does not match the declared output schema of tool: "@ + name
}

/// The error-reply message for a native callable that failed internally.
pub open spec fn tool_failure_message(detail: Seq<char>) -> Seq<char> {
    "tool invocation failed: "@ + detail
}

/// What one event does to an awaiting loop: the state it leaves behind and
/// the action it owes.
pub open spec fn event_step(tools: Seq<ToolSpec>, ev: DispatchEvent) -> (DispatchState,
    ActionView) {
    match ev {
        DispatchEvent::ToolCall { call_id, name, arguments } => {
            let ti = spec_tool_index(tools, name@);
            if ti < 0 {
                (
                    DispatchState::AwaitingEvent,
                    ActionView::ErrorReply { call_id, message: unknown_tool_message(name@) },
                )
            } else if !matches_schema(tools[ti].input_schema, arguments) {
                (
                    DispatchState::AwaitingEvent,
                    ActionView::ErrorReply { call_id, message: invalid_arguments_message(name@) },
                )
            } else {
                (
                    DispatchState::Invoking { call_id, tool: ti as usize },
                    ActionView::Invoke { tool: ti, call_id, arguments },
                )
            }
        },
        DispatchEvent::TerminalResult { payload } => (
            DispatchState::Completed { payload },
            ActionView::Stop,
        ),
        DispatchEvent::Closed => (
            DispatchState::Failed { error: Error::NoResult },
            ActionView::Stop,
        ),
        DispatchEvent::TransportError { message } => (
            DispatchState::Failed { error: Error::Connection(message) },
            ActionView::Stop,
        ),
    }
}

/// What a tool outcome does to an invoking loop: back to awaiting, with the
/// reply it owes for the originating call.
pub open spec fn outcome_step(
    tools: Seq<ToolSpec>,
    call_id: u64,
    tool: int,
    outcome: ToolOutcome,
) -> (DispatchState, ActionView)
    recommends
        0 <= tool < tools.len(),
{
    match outcome {
        ToolOutcome::Success(value) => if matches_schema(tools[tool].output_schema, value) {
            (DispatchState::AwaitingEvent, ActionView::Reply { call_id, value })
        } else {
            (
                DispatchState::AwaitingEvent,
                ActionView::ErrorReply {
                    call_id,
                    message: invalid_output_message(tools[tool].name@),
                },
            )
        },
        ToolOutcome::Failure(detail) => (
            DispatchState::AwaitingEvent,
            ActionView::ErrorReply { call_id, message: tool_failure_message(detail@) },
        ),
    }
}

/// One interaction's conversation state, over an immutable tool manifest.
pub struct DispatchLoop {
    /// The registered tools, fixed for the lifetime of the interaction.
    pub tools: Vec<ToolSpec>,
    /// Where the conversation stands.
    pub state: DispatchState,
}

impl DispatchLoop {
    /// An invoked tool index always lies inside the manifest.
    pub open spec fn wf(self) -> bool {
        match self.state {
            DispatchState::Invoking { call_id: _, tool } => tool < self.tools@.len(),
            _ => true,
        }
    }

    /// Begins an interaction whose prompt has just been transmitted
    /// together with this tool manifest: the loop awaits the first event.
    pub fn new(tools: Vec<ToolSpec>) -> (r: DispatchLoop)
        ensures
            r.tools@ == tools@,
            r.state is AwaitingEvent,
            r.wf(),
    {
        DispatchLoop { tools, state: DispatchState::AwaitingEvent }
    }

    /// Feeds one incoming event to an awaiting loop; follows `event_step`
    /// exactly.
    pub fn on_event(&mut self, ev: DispatchEvent) -> (a: DispatchAction)
        requires
            old(self).state is AwaitingEvent,
            old(self).wf(),
        ensures
            final(self).tools@ == old(self).tools@,
            final(self).wf(),
            ({
                let (st, av) = event_step(old(self).tools@, ev);
                final(self).state == st && a@ == av
            }),
    {
        match ev {
            DispatchEvent::ToolCall { call_id, name, arguments } => {
                match find_tool(&self.tools, &name) {
                    Some(i) => {
                        if matches_value(&self.tools[i].input_schema, &arguments) {
                            self.state = DispatchState::Invoking { call_id, tool: i };
                            DispatchAction::Invoke { tool: i, call_id, arguments }
                        } else {
                            let message = compose_message(
                                "arguments do not match the declared input schema of tool: ",
                                name.as_str(),
                            );
                            DispatchAction::ErrorReply { call_id, message }
                        }
                    },
                    None => {
                        let message = compose_message(
                            "no tool is registered under the name: ",
                            name.as_str(),
                        );
                        DispatchAction::ErrorReply { call_id, message }
                    },
                }
            },
            DispatchEvent::TerminalResult { payload } => {
                self.state = DispatchState::Completed { payload };
                DispatchAction::Stop
            },
            DispatchEvent::Closed => {
                self.state = DispatchState::Failed { error: Error::NoResult };
                DispatchAction::Stop
            },
            DispatchEvent::TransportError { message } => {
                self.state = DispatchState::Failed { error: Error::Connection(message) };
                DispatchAction::Stop
            },
        }
    }

    /// Feeds the invoked tool's outcome back to the loop; follows
    /// `outcome_step` exactly. The loop returns to awaiting events either
    /// way: a failing callable is absorbed into a structured reply, never
    /// propagated.
    pub fn on_outcome(&mut self, outcome: ToolOutcome) -> (a: DispatchAction)
        requires
            old(self).state is Invoking,
            old(self).wf(),
        ensures
            final(self).tools@ == old(self).tools@,
            final(self).wf(),
            ({
                match old(self).state {
                    DispatchState::Invoking { call_id, tool } => {
                        let (st, av) = outcome_step(old(self).tools@, call_id, tool as int,
                            outcome);
                        final(self).state == st && a@ == av
                    },
                    _ => false,
                }
            }),
    {
        let (call_id, tool) = match &self.state {
            DispatchState::Invoking { call_id, tool } => (*call_id, *tool),
            _ => vstd::pervasive::unreached(),
        };
        match outcome {
            ToolOutcome::Success(value) => {
                if matches_value(&self.tools[tool].output_schema, &value) {
                    self.state = DispatchState::AwaitingEvent;
                    DispatchAction::Reply { call_id, value }
                } else {
                    let message = compose_message(
                        "result does not match the declared output schema of tool: ",
                        self.tools[tool].name.as_str(),
                    );
                    self.state = DispatchState::AwaitingEvent;
                    DispatchAction::ErrorReply { call_id, message }
                }
            },
            ToolOutcome::Failure(detail) => {
                let message = compose_message("tool invocation failed: ", detail.as_str());
                self.state = DispatchState::AwaitingEvent;
                DispatchAction::ErrorReply { call_id, message }
            },
        }
    }

    /// Surrenders the terminal outcome: the payload of a completed
    /// interaction, the error of a failed one.
    pub fn finish(self) -> (r: Result<JsonValue, Error>)
        requires
            self.state is Completed || self.state is Failed,
        ensures
            match self.state {
                DispatchState::Completed { payload } => r == Result::<JsonValue, Error>::Ok(
                    payload,
                ),
                DispatchState::Failed { error } => r == Result::<JsonValue, Error>::Err(error),
                _ => false,
            },
    {
        match self.state {
            DispatchState::Completed { payload } => Ok(payload),
            DispatchState::Failed { error } => Err(error),
            _ => vstd::pervasive::unreached(),
        }
    }
}

/// What a whole scripted interaction comes to: the terminal outcome —
/// `None` when the script ran out before any terminal event — and the
/// replies sent to the agent, in order.
///
/// Events are consumed front to back; each invocation consumes the next
/// outcome. Everything after the terminal event is ignored, so an
/// interaction yields at most one terminal outcome.
pub open spec fn script_run(
    tools: Seq<ToolSpec>,
    events: Seq<DispatchEvent>,
    outcomes: Seq<ToolOutcome>,
) -> (Option<Result<JsonValue, Error>>, Seq<ActionView>)
    decreases events.len(),
{
    if events.len() == 0 {
        (None, Seq::empty())
    } else {
        let (st, av) = event_step(tools, events[0]);
        match st {
            DispatchState::Completed { payload } => (
                Some(Result::<JsonValue, Error>::Ok(payload)),
                Seq::empty(),
            ),
            DispatchState::Failed { error } => (
                Some(Result::<JsonValue, Error>::Err(error)),
                Seq::empty(),
            ),
            DispatchState::Invoking { call_id, tool } => {
                if outcomes.len() == 0 {
                    (None, Seq::empty())
                } else {
                    let av2 = outcome_step(tools, call_id, tool as int, outcomes[0]).1;
                    let (res, replies) = script_run(
                        tools,
                        events.drop_first(),
                        outcomes.drop_first(),
                    );
                    (res, seq![av2] + replies)
                }
            },
            DispatchState::AwaitingEvent => {
                let (res, replies) = script_run(tools, events.drop_first(), outcomes);
                (res, seq![av] + replies)
            },
        }
    }
}

/// Replays one interaction over a fixed script: events are fed to the loop
/// front to back, each invocation consumes the next outcome in place of
/// running a native callable, and the replies owed to the agent are
/// collected in the order the loop produced them. Follows `script_run`
/// exactly.
#[verifier::loop_isolation(false)]
pub fn run_script(tools: Vec<ToolSpec>, events: Vec<DispatchEvent>, outcomes: Vec<ToolOutcome>)
    -> (r: (Option<Result<JsonValue, Error>>, Vec<DispatchAction>))
    ensures
        ({
            let (res, replies) = script_run(tools@, events@, outcomes@);
            r.0 == res && r.1@.map_values(|a: DispatchAction| a@) == replies
        }),
{
    let ghost tools0 = tools@;
    let ghost events0 = events@;
    let ghost outcomes0 = outcomes@;
    let mut events = events;
    let mut outcomes = outcomes;
    let mut lp = DispatchLoop::new(tools);
    let mut replies: Vec<DispatchAction> = Vec::new();
    while events.len() > 0
        invariant
            lp.wf(),
            lp.state is AwaitingEvent,
            lp.tools@ == tools0,
            ({
                let (res, reps) = script_run(tools0, events0, outcomes0);
                let (res_s, reps_s) = script_run(tools0, events@, outcomes@);
                res == res_s && reps == replies@.map_values(|a: DispatchAction| a@) + reps_s
            }),
        decreases events@.len(),
    {
        let ghost pre_events = events@;
        let ghost pre_outcomes = outcomes@;
        let ghost pre_replies = replies@;
        let ev = events.remove(0);
        proof {
            assert(events@ =~= pre_events.drop_first());
        }
        match lp.on_event(ev) {
            DispatchAction::Invoke { tool: _, call_id: _, arguments: _ } => {
                if outcomes.len() == 0 {
                    proof {
                        assert(replies@.map_values(|a: DispatchAction| a@)
                            + Seq::<ActionView>::empty() =~= replies@.map_values(
                            |a: DispatchAction| a@));
                    }
                    return (None, replies);
                }
                let oc = outcomes.remove(0);
                proof {
                    assert(outcomes@ =~= pre_outcomes.drop_first());
                }
                let reply = lp.on_outcome(oc);
                replies.push(reply);
                proof {
                    assert(replies@.map_values(|a: DispatchAction| a@) =~= pre_replies.map_values(
                        |a: DispatchAction| a@).push(reply@));
                }
            },
            DispatchAction::ErrorReply { call_id, message } => {
                replies.push(DispatchAction::ErrorReply { call_id, message });
                proof {
                    assert(replies@.map_values(|a: DispatchAction| a@)
                        =~= pre_replies.map_values(|a: DispatchAction| a@).push(
                        replies@.last()@));
                }
            },
            DispatchAction::Reply { call_id: _, value: _ } => {
                // An awaiting loop never owes a success reply directly.
            },
            DispatchAction::Stop => {
                proof {
                    assert(replies@.map_values(|a: DispatchAction| a@)
                        + Seq::<ActionView>::empty() =~= replies@.map_values(
                        |a: DispatchAction| a@));
                }
                let res = lp.finish();
                return (Some(res), replies);
            },
        }
    }
    proof {
        assert(replies@.map_values(|a: DispatchAction| a@) + Seq::<ActionView>::empty()
            =~= replies@.map_values(|a: DispatchAction| a@));
    }
    (None, replies)
}

/// Builds an error-reply message from a fixed prefix and a detail.
fn compose_message(prefix: &str, detail: &str) -> (r: String)
    ensures
        r@ == prefix@ + detail@,
{
    let mut m = String::new();
    m.append(prefix);
    m.append(detail);
    m
}

/// With no tools registered, a terminal result completes the interaction at
/// once with exactly that payload, and no tool is ever invoked: whatever
/// tool call the agent might send can only draw an error reply, and the
/// whole interaction hands over exactly one outcome, the payload itself,
/// with no replies sent. Together with `finish` and `decode`, `run`
/// therefore gives the caller that value and nothing else.
pub proof fn lemma_no_tools_terminal(
    tools: Seq<ToolSpec>,
    payload: JsonValue,
    outcomes: Seq<ToolOutcome>,
)
    requires
        tools.len() == 0,
    ensures
        event_step(tools, (DispatchEvent::TerminalResult { payload })) == ((
            DispatchState::Completed { payload },
            ActionView::Stop,
        )),
        forall|call_id: u64, name: String, arguments: JsonValue|
            #[trigger] event_step(tools, (DispatchEvent::ToolCall { call_id, name, arguments }))
                == ((
                DispatchState::AwaitingEvent,
                ActionView::ErrorReply { call_id, message: unknown_tool_message(name@) },
            )),
        script_run(tools, seq![DispatchEvent::TerminalResult { payload }], outcomes) == ((
            Some(Result::<JsonValue, Error>::Ok(payload)),
            Seq::<ActionView>::empty(),
        )),
{
}

/// A tool call naming an unregistered tool draws exactly one structured
/// error reply, correlated to the same call-id, and leaves the loop
/// awaiting further events: the miss is recoverable, not fatal.
pub proof fn lemma_unknown_tool_recoverable(
    tools: Seq<ToolSpec>,
    call_id: u64,
    name: String,
    arguments: JsonValue,
)
    requires
        !has_tool(tools, name@),
    ensures
        event_step(tools, (DispatchEvent::ToolCall { call_id, name, arguments })) == ((
            DispatchState::AwaitingEvent,
            ActionView::ErrorReply { call_id, message: unknown_tool_message(name@) },
        )),
{
}

/// At the whole-interaction level, a call naming an unregistered tool adds
/// exactly one error reply, correlated to its call-id, in front of whatever
/// the rest of the script yields — and changes nothing else: the loop
/// remains able to process every further event.
pub proof fn lemma_unknown_tool_script(
    tools: Seq<ToolSpec>,
    call_id: u64,
    name: String,
    arguments: JsonValue,
    rest: Seq<DispatchEvent>,
    outcomes: Seq<ToolOutcome>,
)
    requires
        !has_tool(tools, name@),
    ensures
        ({
            let first = DispatchEvent::ToolCall { call_id, name, arguments };
            let tail = script_run(tools, rest, outcomes);
            script_run(tools, seq![first] + rest, outcomes) == ((
                tail.0,
                seq![ActionView::ErrorReply { call_id, message: unknown_tool_message(name@) }]
                    + tail.1,
            ))
        }),
{
    let first = DispatchEvent::ToolCall { call_id, name, arguments };
    assert((seq![first] + rest).drop_first() =~= rest);
    assert((seq![first] + rest)[0] == first);
}

/// A native callable that fails internally is converted into a structured
/// error reply on the originating call-id, and the loop returns to awaiting
/// events: the failure neither unwinds nor reaches the caller.
pub proof fn lemma_tool_failure_absorbed(
    tools: Seq<ToolSpec>,
    call_id: u64,
    tool: int,
    detail: String,
)
    requires
        0 <= tool < tools.len(),
    ensures
        outcome_step(tools, call_id, tool, ToolOutcome::Failure(detail)) == ((
            DispatchState::AwaitingEvent,
            ActionView::ErrorReply { call_id, message: tool_failure_message(detail@) },
        )),
{
}

/// A transport that closes without ever producing a terminal result fails
/// the interaction with `NoResult`; a transport-level error fails it with
/// `Connection`, carrying the transport's message. Both are terminal for
/// the interaction.
pub proof fn lemma_transport_end(tools: Seq<ToolSpec>, message: String)
    ensures
        event_step(tools, DispatchEvent::Closed) == ((
            DispatchState::Failed { error: Error::NoResult },
            ActionView::Stop,
        )),
        event_step(tools, (DispatchEvent::TransportError { message })) == ((
            DispatchState::Failed { error: (Error::Connection(message)) },
            ActionView::Stop,
        )),
{
}

/// Round trip: a value conforming to a registered tool's declared output
/// shape goes back verbatim as the reply for its call, and when the agent
/// echoes it as the terminal payload the interaction completes with a value
/// equal to the original — which `decode`, against that same shape, returns
/// unchanged.
pub proof fn lemma_output_round_trip(
    tools: Seq<ToolSpec>,
    call_id: u64,
    tool: int,
    value: JsonValue,
)
    requires
        0 <= tool < tools.len(),
        matches_schema(tools[tool].output_schema, value),
    ensures
        outcome_step(tools, call_id, tool, ToolOutcome::Success(value)) == ((
            DispatchState::AwaitingEvent,
            ActionView::Reply { call_id, value },
        )),
        event_step(tools, (DispatchEvent::TerminalResult { payload: value })).0 == (
        DispatchState::Completed { payload: value }),
{
}

} // verus!
