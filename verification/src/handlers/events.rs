//! Event kinds, registrations, the registry and emission.

use crate::handlers::host::call_handler;
use crate::handlers::host::schedule_reply;
use crate::handlers::host::share_object;
use pyo3::Py;
use pyo3::PyAny;
use pyo3::PyErr;
use pyo3::Python;
use std::collections::HashMap;
use vstd::prelude::*;

verus! {

/// The closed set of event categories.
#[derive(Clone, Copy, Debug, PartialEq, Eq, Hash, Structural)]
pub enum EventInner {
    BeforeStart,
    AfterStart,
    BeforeStop,
    AfterStop,
    Message,
}

/// An event kind, as handed to the registry and the dispatcher.
#[derive(Clone, Copy, Debug, PartialEq, Eq, Hash, Structural)]
pub struct EventType(pub EventInner);

/// The error of parsing a string that names no event kind.
#[derive(Clone, Copy, Debug, PartialEq, Eq, Structural)]
pub struct InvalidEventKind;

/// The canonical name of an event kind.
pub open spec fn kind_name(kind: EventInner) -> Seq<char> {
    match kind {
        EventInner::BeforeStart => "before_start"@,
        EventInner::AfterStart => "after_start"@,
        EventInner::BeforeStop => "before_stop"@,
        EventInner::AfterStop => "after_stop"@,
        EventInner::Message => "message"@,
    }
}

/// The kind that a string names: an exact match against the five canonical
/// names, with no case folding and no trimming.
pub open spec fn parse_kind(s: Seq<char>) -> Option<EventInner> {
    if s == "before_start"@ {
        Some(EventInner::BeforeStart)
    } else if s == "after_start"@ {
        Some(EventInner::AfterStart)
    } else if s == "before_stop"@ {
        Some(EventInner::BeforeStop)
    } else if s == "after_stop"@ {
        Some(EventInner::AfterStop)
    } else if s == "message"@ {
        Some(EventInner::Message)
    } else {
        None
    }
}

/// Whether a string is exactly the given literal.
fn names(s: &String, literal: &str) -> (same: bool)
    ensures
        same == (s@ == literal@),
{
    let owned = literal.to_owned();
    *s == owned
}

impl EventType {
    /// Parses a canonical name; any other string is rejected.
    pub fn from_str(event_type: &String) -> (parsed: Result<EventType, InvalidEventKind>)
        ensures
            parsed == match parse_kind(event_type@) {
                Some(kind) => Ok::<EventType, InvalidEventKind>(EventType(kind)),
                None => Err::<EventType, InvalidEventKind>(InvalidEventKind),
            },
    {
        if names(event_type, "before_start") {
            Ok(EventType(EventInner::BeforeStart))
        } else if names(event_type, "after_start") {
            Ok(EventType(EventInner::AfterStart))
        } else if names(event_type, "before_stop") {
            Ok(EventType(EventInner::BeforeStop))
        } else if names(event_type, "after_stop") {
            Ok(EventType(EventInner::AfterStop))
        } else if names(event_type, "message") {
            Ok(EventType(EventInner::Message))
        } else {
            Err(InvalidEventKind)
        }
    }

    /// The canonical name of this kind.
    pub fn as_str(&self) -> (name: &'static str)
        ensures
            name@ == kind_name(self.0),
    {
        match self.0 {
            EventInner::BeforeStart => "before_start",
            EventInner::AfterStart => "after_start",
            EventInner::BeforeStop => "before_stop",
            EventInner::AfterStop => "after_stop",
            EventInner::Message => "message",
        }
    }
}

/// A registration: an event kind, an optional filter and the handler to call.
/// The filter is carried along and plays no part in dispatch.
#[derive(Debug)]
pub struct Event {
    pub event_type: EventType,
    pub filter: Option<String>,
    pub method: Py<PyAny>,
}

impl Event {
    /// A registration of `method` for `event_type`, with no filter.
    pub fn new(event_type: EventType, method: Py<PyAny>) -> (event: Event)
        ensures
            event == (Event { event_type: event_type, filter: None::<String>, method: method }),
    {
        Event { event_type, method, filter: None }
    }
}

impl Clone for Event {
    /// A registration that refers to the same handler object.
    fn clone(&self) -> (copy: Event)
        ensures
            copy == *self,
    {
        let filter = match &self.filter {
            Some(text) => Some(text.clone()),
            None => None,
        };
        Event { event_type: self.event_type, filter: filter, method: share_object(&self.method) }
    }
}

/// The registrations of one kind, in the order in which they were made.
#[derive(Debug)]
pub struct EventMap {
    pub event_map: Vec<Event>,
}

impl EventMap {
    /// A list with no registration.
    pub fn new() -> (list: EventMap)
        ensures
            list.event_map@ == Seq::<Event>::empty(),
    {
        EventMap { event_map: Vec::new() }
    }

    /// Appends a registration after all earlier ones.
    pub fn register(&mut self, event: Event)
        ensures
            final(self).event_map@ == old(self).event_map@.push(event),
    {
        self.event_map.push(event);
    }

    /// A copy of the registrations, in order. Later registrations do not
    /// reach a copy already taken.
    pub fn get_event_list(&self) -> (list: Vec<Event>)
        ensures
            list@ == self.event_map@,
    {
        let mut list: Vec<Event> = Vec::new();
        let mut i: usize = 0;
        while i < self.event_map.len()
            invariant
                i <= self.event_map@.len(),
                list@ == self.event_map@.take(i as int),
            decreases self.event_map@.len() - i,
        {
            list.push(self.event_map[i].clone());
            assert(self.event_map@.take(i + 1) == self.event_map@.take(i as int).push(
                self.event_map@[i as int],
            ));
            i += 1;
        }
        assert(self.event_map@.take(i as int) == self.event_map@);
        list
    }
}

/// What became of one handler call.
#[derive(Debug)]
pub enum Outcome {
    /// The handler returned and its result was handed to the event loop.
    Scheduled,
    /// The handler returned, but its result could not be handed to an event
    /// loop; the error says why.
    Unscheduled(PyErr),
    /// The handler raised; the error is what it raised.
    Failed(PyErr),
}

/// One handler call of an emission: which handler, the payload it was
/// called with, and what became of the call.
#[derive(Debug)]
pub struct Invocation {
    pub handler: Py<PyAny>,
    pub payload: Option<Py<PyAny>>,
    pub outcome: Outcome,
}

/// A second reference to the payload, if there is one.
pub fn share_payload(data: &Option<Py<PyAny>>) -> (shared: Option<Py<PyAny>>)
    ensures
        shared == *data,
{
    match data {
        Some(object) => Some(share_object(object)),
        None => None,
    }
}

/// The outcome of a handler that returned, given what became of handing its
/// result to the event loop.
pub fn outcome_of_scheduling(scheduled: Result<(), PyErr>) -> (outcome: Outcome)
    ensures
        outcome == match scheduled {
            Ok(_) => Outcome::Scheduled,
            Err(cause) => Outcome::Unscheduled(cause),
        },
{
    match scheduled {
        Ok(_) => Outcome::Scheduled,
        Err(cause) => Outcome::Unscheduled(cause),
    }
}

/// The outcome of a handler call, given what the call gave. A handler that
/// raised has failed, with what it raised as the cause. What a handler
/// returned is handed to the event loop, and the outcome says whether the
/// loop took it.
pub fn outcome_of_call(py: Python<'_>, called: Result<Py<PyAny>, PyErr>) -> (outcome: Outcome)
    ensures
        match called {
            Ok(_) => !(outcome is Failed),
            Err(cause) => outcome == Outcome::Failed(cause),
        },
{
    match called {
        Ok(reply) => outcome_of_scheduling(schedule_reply(py, &reply)),
        Err(cause) => Outcome::Failed(cause),
    }
}

/// Whether `report` holds one call for each registration of `snapshot`, in
/// the same order, each of that registration's handler and with the payload
/// `data`.
pub open spec fn is_trace_of(
    report: Seq<Invocation>,
    snapshot: Seq<Event>,
    data: Option<Py<PyAny>>,
) -> bool {
    &&& report.len() == snapshot.len()
    &&& forall|i: int|
        0 <= i < report.len() ==> {
            &&& (#[trigger] report[i]).handler == snapshot[i].method
            &&& report[i].payload == data
        }
}

/// Calls the handler of one registration with the payload and records what
/// became of the call. A handler that raises is recorded, not passed on.
/// The caller holds the host's interpreter lock, as `py` shows.
pub fn issue(py: Python<'_>, event: &Event, data: &Option<Py<PyAny>>) -> (invocation: Invocation)
    ensures
        invocation.handler == event.method,
        invocation.payload == *data,
{
    let outcome = outcome_of_call(py, call_handler(py, &event.method, data));
    Invocation {
        handler: share_object(&event.method),
        payload: share_payload(data),
        outcome: outcome,
    }
}

/// Calls the handler of every registration of `snapshot` with the payload,
/// first to last, whatever becomes of the calls before it.
pub fn dispatch(py: Python<'_>, snapshot: &Vec<Event>, data: &Option<Py<PyAny>>) -> (report: Vec<
    Invocation,
>)
    ensures
        is_trace_of(report@, snapshot@, *data),
{
    let mut report: Vec<Invocation> = Vec::new();
    let mut i: usize = 0;
    while i < snapshot.len()
        invariant
            i <= snapshot@.len(),
            is_trace_of(report@, snapshot@.take(i as int), *data),
        decreases snapshot@.len() - i,
    {
        let invocation = issue(py, &snapshot[i], data);
        report.push(invocation);
        i += 1;
    }
    report
}

/// The number under which the registry keeps the registrations of a kind.
pub open spec fn kind_slot(kind: EventInner) -> u8 {
    match kind {
        EventInner::BeforeStart => 0u8,
        EventInner::AfterStart => 1u8,
        EventInner::BeforeStop => 2u8,
        EventInner::AfterStop => 3u8,
        EventInner::Message => 4u8,
    }
}

/// Computes `kind_slot`.
fn slot_of(kind: EventInner) -> (slot: u8)
    ensures
        slot == kind_slot(kind),
{
    match kind {
        EventInner::BeforeStart => 0u8,
        EventInner::AfterStart => 1u8,
        EventInner::BeforeStop => 2u8,
        EventInner::AfterStop => 3u8,
        EventInner::Message => 4u8,
    }
}

/// The registry and dispatcher: for each kind, the registrations made for
/// it, in order.
pub struct EventHandler {
    pub events: HashMap<u8, EventMap>,
}

impl EventHandler {
    /// The registrations made for `kind`, oldest first; empty where none was
    /// made.
    pub open spec fn registrations(&self, kind: EventInner) -> Seq<Event> {
        if self.events@.contains_key(kind_slot(kind)) {
            self.events@[kind_slot(kind)].event_map@
        } else {
            Seq::<Event>::empty()
        }
    }

    /// Whether this registry is `before` with `event` registered for `kind`:
    /// `event` stands behind the earlier registrations of `kind`, the list
    /// of `kind` exists, and every other list is as it was, where there was
    /// one, and is still missing where there was none.
    pub open spec fn extends(&self, before: EventHandler, kind: EventInner, event: Event) -> bool {
        &&& self.registrations(kind) == before.registrations(kind).push(event)
        &&& forall|other: EventInner|
            other != kind ==> #[trigger] self.registrations(other) == before.registrations(other)
        &&& self.events@.dom() == before.events@.dom().insert(kind_slot(kind))
        &&& forall|slot: u8|
            slot != kind_slot(kind) && before.events@.contains_key(slot) ==> #[trigger] self.events@[slot]
                == before.events@[slot]
    }

    /// A registry that holds no list: no kind has a registration.
    pub fn new() -> (registry: EventHandler)
        ensures
            registry.events@ == Map::<u8, EventMap>::empty(),
            forall|kind: EventInner| #[trigger]
                registry.registrations(kind) == Seq::<Event>::empty(),
    {
        EventHandler { events: HashMap::new() }
    }

    /// Registers `event` for `kind`, behind the earlier registrations of that
    /// kind. Always succeeds.
    pub fn register(&mut self, kind: EventType, event: Event)
        ensures
            final(self).extends(*old(self), kind.0, event),
    {
        broadcast use vstd::std_specs::hash::group_hash_axioms;

        let ghost before = self.events@;
        let slot = slot_of(kind.0);
        let mut list = match self.events.remove(&slot) {
            Some(list) => list,
            None => EventMap::new(),
        };
        list.register(event);
        self.events.insert(slot, list);
        assert(self.events@.dom() =~= before.dom().insert(slot));
    }

    /// The list kept for a kind, or `None` where nothing was ever registered
    /// for it.
    pub fn get_editable_event_list(&self, event_type: EventType) -> (list: Option<&EventMap>)
        ensures
            list == (if self.events@.contains_key(kind_slot(event_type.0)) {
                Some(&self.events@[kind_slot(event_type.0)])
            } else {
                None::<&EventMap>
            }),
    {
        broadcast use vstd::std_specs::hash::group_hash_axioms;

        let slot = slot_of(event_type.0);
        self.events.get(&slot)
    }

    /// A copy of the registrations of a kind, in order; empty where there is
    /// none.
    pub fn snapshot(&self, event_type: EventType) -> (list: Vec<Event>)
        ensures
            list@ == self.registrations(event_type.0),
    {
        match self.get_editable_event_list(event_type) {
            Some(list) => list.get_event_list(),
            None => Vec::new(),
        }
    }

    /// Emits an event: takes a snapshot of the registrations of the kind and
    /// calls each handler with the one payload, in registration order. A failing
    /// handler is recorded in the report and does not stop the ones behind
    /// it. With no registration the report is empty.
    pub fn emit(&self, py: Python<'_>, event_type: EventType, data: Option<Py<PyAny>>) -> (report: Vec<
        Invocation,
    >)
        ensures
            is_trace_of(report@, self.registrations(event_type.0), data),
    {
        let snapshot = self.snapshot(event_type);
        dispatch(py, &snapshot, &data)
    }
}

} // verus!
