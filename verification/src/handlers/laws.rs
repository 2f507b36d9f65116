//! Laws that relate parsing, registration and emission.

use crate::handlers::events::is_trace_of;
use crate::handlers::events::kind_name;
use crate::handlers::events::parse_kind;
use crate::handlers::events::Event;
use crate::handlers::events::EventHandler;
use crate::handlers::events::EventInner;
use crate::handlers::events::Invocation;
use pyo3::Py;
use pyo3::PyAny;
use vstd::prelude::*;

verus! {

/// Whether a string is one of the five canonical names.
pub open spec fn is_canonical(s: Seq<char>) -> bool {
    exists|kind: EventInner| s == kind_name(kind)
}

/// The canonical names of two different kinds differ.
pub proof fn lemma_names_differ(a: EventInner, b: EventInner)
    requires
        a != b,
    ensures
        kind_name(a) != kind_name(b),
{
    reveal_strlit("before_start");
    reveal_strlit("after_start");
    reveal_strlit("before_stop");
    reveal_strlit("after_stop");
    reveal_strlit("message");
    assert("before_start"@.len() == 12);
    assert("after_start"@.len() == 11);
    assert("before_stop"@.len() == 11);
    assert("after_stop"@.len() == 10);
    assert("message"@.len() == 7);
    assert("after_start"@[0] == 'a');
    assert("before_stop"@[0] == 'b');
}

/// Parsing the canonical name of a kind gives that kind back.
pub proof fn lemma_parse_of_name(kind: EventInner)
    ensures
        parse_kind(kind_name(kind)) == Some(kind),
{
    if kind != EventInner::BeforeStart {
        lemma_names_differ(kind, EventInner::BeforeStart);
    }
    if kind != EventInner::AfterStart {
        lemma_names_differ(kind, EventInner::AfterStart);
    }
    if kind != EventInner::BeforeStop {
        lemma_names_differ(kind, EventInner::BeforeStop);
    }
    if kind != EventInner::AfterStop {
        lemma_names_differ(kind, EventInner::AfterStop);
    }
}

/// Round trip: a string that parses is the canonical name of the kind it
/// parses to, so every canonical name comes back unchanged.
pub proof fn lemma_name_of_parse(s: Seq<char>)
    ensures
        is_canonical(s) <==> parse_kind(s).is_some(),
        parse_kind(s).is_some() ==> kind_name(parse_kind(s).unwrap()) == s,
{
    if is_canonical(s) {
        let kind = choose|kind: EventInner| s == kind_name(kind);
        lemma_parse_of_name(kind);
    }
    if parse_kind(s).is_some() {
        assert(s == kind_name(parse_kind(s).unwrap()));
    }
}

/// Rejection: a string that is the name of no kind does not parse.
pub proof fn lemma_rejects_other_strings(s: Seq<char>)
    requires
        forall|kind: EventInner| s != kind_name(kind),
    ensures
        parse_kind(s).is_none(),
{
    assert(s != kind_name(EventInner::BeforeStart));
    assert(s != kind_name(EventInner::AfterStart));
    assert(s != kind_name(EventInner::BeforeStop));
    assert(s != kind_name(EventInner::AfterStop));
    assert(s != kind_name(EventInner::Message));
}

/// Order preservation: three registrations made one after the other for one
/// kind stand behind the earlier ones in the order in which they were made,
/// and an emission of that kind ends with their three handlers in that
/// order.
pub proof fn lemma_registration_order(
    r0: EventHandler,
    r1: EventHandler,
    r2: EventHandler,
    r3: EventHandler,
    kind: EventInner,
    h1: Event,
    h2: Event,
    h3: Event,
    data: Option<Py<PyAny>>,
    report: Seq<Invocation>,
)
    requires
        r1.extends(r0, kind, h1),
        r2.extends(r1, kind, h2),
        r3.extends(r2, kind, h3),
        is_trace_of(report, r3.registrations(kind), data),
    ensures
        r3.registrations(kind) == r0.registrations(kind) + seq![h1, h2, h3],
        report.len() == r0.registrations(kind).len() + 3,
        report[report.len() - 3].handler == h1.method,
        report[report.len() - 2].handler == h2.method,
        report[report.len() - 1].handler == h3.method,
{
    let before = r0.registrations(kind);
    assert(before.push(h1).push(h2).push(h3) =~= before + seq![h1, h2, h3]);
}

/// Isolation: in the report of an emission the call at each position is of
/// the registration at that position, whichever of the calls failed. So a
/// failure at one position leaves every other handler called once, in its
/// place.
pub proof fn lemma_failure_is_isolated(
    report: Seq<Invocation>,
    snapshot: Seq<Event>,
    data: Option<Py<PyAny>>,
    failed: int,
)
    requires
        is_trace_of(report, snapshot, data),
        0 <= failed < report.len(),
        report[failed].outcome is Failed,
    ensures
        report.len() == snapshot.len(),
        report.map_values(|invocation: Invocation| invocation.handler) == snapshot.map_values(
            |event: Event| event.method,
        ),
{
    assert(report.map_values(|invocation: Invocation| invocation.handler) =~= snapshot.map_values(
        |event: Event| event.method,
    ));
}

/// Empty kind: an emission over no registration makes no call.
pub proof fn lemma_empty_kind_makes_no_call(
    registry: EventHandler,
    kind: EventInner,
    data: Option<Py<PyAny>>,
    report: Seq<Invocation>,
)
    requires
        registry.registrations(kind).len() == 0,
        is_trace_of(report, registry.registrations(kind), data),
    ensures
        report == Seq::<Invocation>::empty(),
{
    assert(report =~= Seq::<Invocation>::empty());
}

/// Snapshot isolation: a registration made after a snapshot was taken lies
/// outside it. The snapshot is the registry's list without its new last
/// entry, and an emission over the snapshot makes one call for each entry of
/// the snapshot and none for the new one.
pub proof fn lemma_snapshot_is_isolated(
    before: EventHandler,
    after: EventHandler,
    kind: EventInner,
    late: Event,
    snapshot: Seq<Event>,
    data: Option<Py<PyAny>>,
    report: Seq<Invocation>,
)
    requires
        snapshot == before.registrations(kind),
        after.extends(before, kind, late),
        is_trace_of(report, snapshot, data),
    ensures
        snapshot == after.registrations(kind).drop_last(),
        report.len() + 1 == after.registrations(kind).len(),
        forall|i: int|
            0 <= i < report.len() ==> (#[trigger] report[i]).handler == after.registrations(
                kind,
            )[i].method,
{
    assert(snapshot =~= after.registrations(kind).drop_last());
}

} // verus!
