//! The agent: a named owner of an event registry that walks through its
//! lifecycle and emits an event at each step.

use crate::handlers::events::dispatch;
use crate::handlers::events::is_trace_of;
use crate::handlers::events::Event;
use crate::handlers::events::EventHandler;
use crate::handlers::events::EventInner;
use crate::handlers::events::EventMap;
use crate::handlers::events::EventType;
use crate::handlers::events::InvalidEventKind;
use crate::handlers::events::Invocation;
use crate::handlers::events::parse_kind;
use pyo3::Py;
use pyo3::PyAny;
use pyo3::Python;
use vstd::prelude::*;
use vstd::string::StringExecFns;

verus! {

/// Where an agent stands in its lifecycle.
#[derive(Clone, Copy, Debug, PartialEq, Eq, Structural)]
pub enum AgentState {
    Created,
    Starting,
    Started,
    Stopping,
    Stopped,
}

/// One step of the lifecycle.
#[derive(Clone, Copy, Debug, PartialEq, Eq, Structural)]
pub enum Step {
    BeginStart,
    FinishStart,
    BeginStop,
    FinishStop,
}

/// The error of a step that the agent's state does not allow.
#[derive(Clone, Copy, Debug, PartialEq, Eq, Structural)]
pub struct InvalidTransition;

/// The state that a step leads to, or `None` where the state does not allow
/// the step.
pub open spec fn step_target(state: AgentState, step: Step) -> Option<AgentState> {
    match (state, step) {
        (AgentState::Created, Step::BeginStart) => Some(AgentState::Starting),
        (AgentState::Starting, Step::FinishStart) => Some(AgentState::Started),
        (AgentState::Started, Step::BeginStop) => Some(AgentState::Stopping),
        (AgentState::Stopping, Step::FinishStop) => Some(AgentState::Stopped),
        _ => None,
    }
}

/// The event that a step emits.
pub open spec fn step_event(step: Step) -> EventInner {
    match step {
        Step::BeginStart => EventInner::BeforeStart,
        Step::FinishStart => EventInner::AfterStart,
        Step::BeginStop => EventInner::BeforeStop,
        Step::FinishStop => EventInner::AfterStop,
    }
}

/// The agent's name: the domain alone, or the domain, a colon and the id.
pub open spec fn qualified_domain(domain: Seq<char>, id: Option<Seq<char>>) -> Seq<char> {
    match id {
        Some(id) => domain + seq![':'] + id,
        None => domain,
    }
}

/// The views of an optional string.
pub open spec fn text_of(id: Option<String>) -> Option<Seq<char>> {
    match id {
        Some(id) => Some(id@),
        None => None,
    }
}

/// Computes `step_target`.
pub fn next_state(state: AgentState, step: Step) -> (target: Option<AgentState>)
    ensures
        target == step_target(state, step),
{
    match (state, step) {
        (AgentState::Created, Step::BeginStart) => Some(AgentState::Starting),
        (AgentState::Starting, Step::FinishStart) => Some(AgentState::Started),
        (AgentState::Started, Step::BeginStop) => Some(AgentState::Stopping),
        (AgentState::Stopping, Step::FinishStop) => Some(AgentState::Stopped),
        _ => None,
    }
}

/// Computes `step_event`.
pub fn event_of(step: Step) -> (event: EventType)
    ensures
        event.0 == step_event(step),
{
    match step {
        Step::BeginStart => EventType(EventInner::BeforeStart),
        Step::FinishStart => EventType(EventInner::AfterStart),
        Step::BeginStop => EventType(EventInner::BeforeStop),
        Step::FinishStop => EventType(EventInner::AfterStop),
    }
}

/// A named agent with its registry of event handlers.
pub struct Agent {
    domain: String,
    event_manager: EventHandler,
    state: AgentState,
}

impl Agent {
    /// The agent's name, fixed when it is made.
    pub closed spec fn name(&self) -> Seq<char> {
        self.domain@
    }

    /// The agent's registry of event handlers.
    pub closed spec fn registry(&self) -> EventHandler {
        self.event_manager
    }

    /// The lifecycle state.
    pub closed spec fn lifecycle(&self) -> AgentState {
        self.state
    }

    /// Whether `self` is `before` after a step to `target`: the state is
    /// `target`, the name and the registry are as they were.
    pub open spec fn stepped_from(&self, before: Agent, target: AgentState) -> bool {
        &&& self.lifecycle() == target
        &&& self.name() == before.name()
        &&& self.registry() == before.registry()
    }

    /// An agent in state `Created`, with no handler registered. With an id
    /// its name is the domain, a colon and the id; the domain is taken as it
    /// is, colons included.
    pub fn new(domain: String, id: Option<String>) -> (agent: Agent)
        ensures
            agent.name() == qualified_domain(domain@, text_of(id)),
            agent.lifecycle() == AgentState::Created,
            agent.registry().events@ == Map::<u8, EventMap>::empty(),
            forall|kind: EventInner| #[trigger]
                agent.registry().registrations(kind) == Seq::<Event>::empty(),
    {
        let domain = match id {
            Some(id) => {
                proof {
                    reveal_strlit(":");
                    assert(":"@ =~= seq![':']);
                }
                domain.concat(":").concat(id.as_str())
            },
            None => domain,
        };
        Agent { domain: domain, event_manager: EventHandler::new(), state: AgentState::Created }
    }

    /// The agent's name.
    pub fn domain(&self) -> (domain: &String)
        ensures
            domain@ == self.name(),
    {
        &self.domain
    }

    /// The agent's registry, to look at or to emit from.
    pub fn event_manager(&self) -> (registry: &EventHandler)
        ensures
            *registry == self.registry(),
    {
        &self.event_manager
    }

    /// The lifecycle state.
    pub fn state(&self) -> (state: AgentState)
        ensures
            state == self.lifecycle(),
    {
        self.state
    }

    /// Registers `handler` for the event kind that `name` names, behind the
    /// earlier registrations of that kind. A name of no kind is rejected and
    /// leaves the agent as it was.
    pub fn register_event_handler(&mut self, name: String, handler: Py<PyAny>) -> (done: Result<
        (),
        InvalidEventKind,
    >)
        ensures
            match parse_kind(name@) {
                Some(kind) => {
                    &&& done is Ok
                    &&& final(self).registry().extends(
                        old(self).registry(),
                        kind,
                        (Event { event_type: EventType(kind), filter: None::<String>, method: handler }),
                    )
                    &&& final(self).name() == old(self).name()
                    &&& final(self).lifecycle() == old(self).lifecycle()
                },
                None => done == Err::<(), InvalidEventKind>(InvalidEventKind) && *final(self) == *old(
                    self,
                ),
            },
    {
        match EventType::from_str(&name) {
            Ok(kind) => {
                self.event_manager.register(kind, Event::new(kind, handler));
                Ok(())
            },
            Err(error) => Err(error),
        }
    }

    /// Enters one step of the lifecycle without calling any handler. Where
    /// the state allows the step, the state moves on and a snapshot of the
    /// registrations for the step's event is returned, for the caller to
    /// dispatch. Otherwise the agent stays as it was.
    pub fn enter(&mut self, step: Step) -> (snapshot: Result<Vec<Event>, InvalidTransition>)
        ensures
            match step_target(old(self).lifecycle(), step) {
                Some(target) => {
                    &&& snapshot is Ok
                    &&& snapshot->Ok_0@ == old(self).registry().registrations(step_event(step))
                    &&& final(self).stepped_from(*old(self), target)
                },
                None => snapshot is Err && *final(self) == *old(self),
            },
    {
        match next_state(self.state, step) {
            Some(target) => {
                let snapshot = self.event_manager.snapshot(event_of(step));
                self.state = target;
                Ok(snapshot)
            },
            None => Err(InvalidTransition),
        }
    }

    /// Takes one step of the lifecycle. Where the state allows the step, the
    /// state moves on, the step's event is emitted to the handlers registered
    /// for it, and the report of the emission is returned; failing handlers
    /// do not fail the step. Otherwise the agent stays as it was.
    pub fn advance(&mut self, py: Python<'_>, step: Step) -> (report: Result<Vec<Invocation>, InvalidTransition>)
        ensures
            match step_target(old(self).lifecycle(), step) {
                Some(target) => {
                    &&& report is Ok
                    &&& is_trace_of(
                        report->Ok_0@,
                        old(self).registry().registrations(step_event(step)),
                        None::<Py<PyAny>>,
                    )
                    &&& final(self).stepped_from(*old(self), target)
                },
                None => report is Err && *final(self) == *old(self),
            },
    {
        match self.enter(step) {
            Ok(snapshot) => Ok(dispatch(py, &snapshot, &None)),
            Err(error) => Err(error),
        }
    }

    /// Starts a newly created agent: emits `BeforeStart`, then `AfterStart`,
    /// and leaves the agent `Started`. The two reports come back in that
    /// order. In any other state nothing is emitted and the agent stays as
    /// it was.
    pub fn start(&mut self, py: Python<'_>) -> (reports: Result<
        (Vec<Invocation>, Vec<Invocation>),
        InvalidTransition,
    >)
        ensures
            old(self).lifecycle() == AgentState::Created ==> {
                &&& reports is Ok
                &&& is_trace_of(
                    reports->Ok_0.0@,
                    old(self).registry().registrations(EventInner::BeforeStart),
                    None::<Py<PyAny>>,
                )
                &&& is_trace_of(
                    reports->Ok_0.1@,
                    old(self).registry().registrations(EventInner::AfterStart),
                    None::<Py<PyAny>>,
                )
                &&& final(self).stepped_from(*old(self), AgentState::Started)
            },
            old(self).lifecycle() != AgentState::Created ==> reports is Err && *final(self) == *old(
                self,
            ),
    {
        match self.advance(py, Step::BeginStart) {
            Ok(before) => match self.advance(py, Step::FinishStart) {
                Ok(after) => Ok((before, after)),
                Err(error) => Err(error),
            },
            Err(error) => Err(error),
        }
    }

    /// Stops a started agent: emits `BeforeStop`, then `AfterStop`, and
    /// leaves the agent `Stopped`. The two reports come back in that order.
    /// In any other state nothing is emitted and the agent stays as it was.
    pub fn stop(&mut self, py: Python<'_>) -> (reports: Result<
        (Vec<Invocation>, Vec<Invocation>),
        InvalidTransition,
    >)
        ensures
            old(self).lifecycle() == AgentState::Started ==> {
                &&& reports is Ok
                &&& is_trace_of(
                    reports->Ok_0.0@,
                    old(self).registry().registrations(EventInner::BeforeStop),
                    None::<Py<PyAny>>,
                )
                &&& is_trace_of(
                    reports->Ok_0.1@,
                    old(self).registry().registrations(EventInner::AfterStop),
                    None::<Py<PyAny>>,
                )
                &&& final(self).stepped_from(*old(self), AgentState::Stopped)
            },
            old(self).lifecycle() != AgentState::Started ==> reports is Err && *final(self) == *old(
                self,
            ),
    {
        match self.advance(py, Step::BeginStop) {
            Ok(before) => match self.advance(py, Step::FinishStop) {
                Ok(after) => Ok((before, after)),
                Err(error) => Err(error),
            },
            Err(error) => Err(error),
        }
    }

    /// The agent as text: `Agent: ` and its name.
    pub fn to_string(&self) -> (text: String)
        ensures
            text@ == "Agent: "@ + self.name(),
    {
        "Agent: ".to_owned().concat(self.domain.as_str())
    }
}

} // verus!
