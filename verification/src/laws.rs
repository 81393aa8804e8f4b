//! What holds of every run of requests and events, proved from the contracts
//! of the registry and of the supervisor.

use vstd::prelude::*;
use crate::sidecar::{
    action_for, action_for_close, after_event, after_exit, after_terminate, backend_healthy,
    marker_port, port_marker, ProbeOutcome, SidecarAction, SidecarEvent, SidecarState,
    SupervisorView,
};
use crate::terminal::{
    after_close, after_create, after_resize, after_touch, not_found_text, session_failure_text,
    Geometry, RegistryView,
};
use crate::text::{
    contains, decimal, is_whitespace, occurs_at, lemma_decimal_denotes, lemma_parse_decimal, lemma_trim_end_cuts,
    lemma_trim_start_cuts, utf8_lossy,
};

verus! {

/// A request that changes the registry.
pub enum RegistryOp<H> {
    /// Register a session with this handle.
    Create(H),
    /// Replace the handle of a session, as a read or a write through it does.
    Touch(u32, H),
    /// Give a session a new geometry.
    Resize(u32, Geometry),
    /// Close a session.
    Close(u32),
}

/// The registry after one request.
pub open spec fn apply<H>(v: RegistryView<H>, op: RegistryOp<H>) -> RegistryView<H> {
    match op {
        RegistryOp::Create(handle) => after_create(v, handle),
        RegistryOp::Touch(id, handle) => after_touch(v, id, handle),
        RegistryOp::Resize(id, geometry) => after_resize(v, id, geometry),
        RegistryOp::Close(id) => after_close(v, id),
    }
}

/// The registry after a run of requests.
pub open spec fn run<H>(v: RegistryView<H>, ops: Seq<RegistryOp<H>>) -> RegistryView<H>
    decreases ops.len(),
{
    if ops.len() == 0 {
        v
    } else {
        apply(run(v, ops.drop_last()), ops.last())
    }
}

/// The identifier that a request issues, if it is a creation that succeeds.
pub open spec fn issued<H>(v: RegistryView<H>, op: RegistryOp<H>) -> Option<u32> {
    match op {
        RegistryOp::Create(_) if v.next_id <= u32::MAX => Some(v.next_id as u32),
        _ => None,
    }
}

/// One request keeps a registry in order and never lowers the next identifier.
pub proof fn lemma_apply_keeps_order<H>(v: RegistryView<H>, op: RegistryOp<H>)
    requires
        crate::terminal::view_wf(v),
    ensures
        crate::terminal::view_wf(apply(v, op)),
        v.next_id <= apply(v, op).next_id,
        issued(v, op) matches Some(id) ==> id < apply(v, op).next_id,
{
}

/// A run of requests keeps a registry in order and never lowers the next
/// identifier.
pub proof fn lemma_run_keeps_order<H>(v: RegistryView<H>, ops: Seq<RegistryOp<H>>)
    requires
        crate::terminal::view_wf(v),
    ensures
        crate::terminal::view_wf(run(v, ops)),
        v.next_id <= run(v, ops).next_id,
    decreases ops.len(),
{
    if ops.len() > 0 {
        lemma_run_keeps_order(v, ops.drop_last());
        lemma_apply_keeps_order(run(v, ops.drop_last()), ops.last());
    }
}

/// The next identifier only grows along a run: after more requests it is no
/// smaller than after fewer.
pub proof fn lemma_next_id_grows<H>(v: RegistryView<H>, ops: Seq<RegistryOp<H>>, i: int, j: int)
    requires
        crate::terminal::view_wf(v),
        0 <= i <= j <= ops.len(),
    ensures
        run(v, ops.take(i)).next_id <= run(v, ops.take(j)).next_id,
    decreases j - i,
{
    if i < j {
        lemma_next_id_grows(v, ops, i, j - 1);
        lemma_run_keeps_order(v, ops.take(j - 1));
        assert(ops.take(j).drop_last() =~= ops.take(j - 1));
        lemma_apply_keeps_order(run(v, ops.take(j - 1)), ops.take(j).last());
    }
}

/// Identifiers are issued in strictly increasing order. Of two sessions
/// created in one run of requests the later one has the greater identifier,
/// whatever was closed in between; so no identifier is issued twice.
pub proof fn lemma_issued_ids_increase<H>(
    v: RegistryView<H>,
    ops: Seq<RegistryOp<H>>,
    i: int,
    j: int,
)
    requires
        crate::terminal::view_wf(v),
        0 <= i < j < ops.len(),
    ensures
        issued(run(v, ops.take(i)), ops[i]) is Some && issued(run(v, ops.take(j)), ops[j]) is Some
            ==> issued(run(v, ops.take(i)), ops[i]).unwrap() < issued(
            run(v, ops.take(j)),
            ops[j],
        ).unwrap(),
{
    lemma_run_keeps_order(v, ops.take(i));
    lemma_apply_keeps_order(run(v, ops.take(i)), ops[i]);
    assert(ops.take(i + 1).drop_last() =~= ops.take(i));
    assert(ops.take(i + 1).last() == ops[i]);
    lemma_next_id_grows(v, ops, i + 1, j);
}

/// An identifier that was never issued names no live session.
pub proof fn lemma_unissued_is_not_live<H>(v: RegistryView<H>, id: u32)
    requires
        crate::terminal::view_wf(v),
        id == 0 || id >= v.next_id,
    ensures
        !v.live.contains_key(id),
{
}

/// A session that was closed is not live after the close.
pub proof fn lemma_closed_is_not_live<H>(v: RegistryView<H>, id: u32)
    ensures
        !after_close(v, id).live.contains_key(id),
{
}

/// An identifier that was issued and names no live session any more never
/// names one again, whatever requests follow.
pub proof fn lemma_closed_stays_closed<H>(v: RegistryView<H>, ops: Seq<RegistryOp<H>>, id: u32)
    requires
        crate::terminal::view_wf(v),
        id < v.next_id,
        !v.live.contains_key(id),
    ensures
        !run(v, ops).live.contains_key(id),
    decreases ops.len(),
{
    if ops.len() > 0 {
        lemma_closed_stays_closed(v, ops.drop_last(), id);
        lemma_run_keeps_order(v, ops.drop_last());
    }
}

/// The line that the backend is to write, the marker and then the port in
/// decimal, announces that port: whatever the port, and with or without
/// whitespace around the number, such as the end of the line.
pub proof fn lemma_announcement_is_read(port: u16, before: Seq<char>, after: Seq<char>)
    requires
        forall|i: int| 0 <= i < before.len() ==> is_whitespace(#[trigger] before[i]),
        forall|i: int| 0 <= i < after.len() ==> is_whitespace(#[trigger] after[i]),
    ensures
        marker_port(port_marker() + before + decimal(port as nat) + after) == Some(port),
{
    let number = decimal(port as nat);
    let line = port_marker() + before + number + after;
    lemma_decimal_denotes(port as nat);
    lemma_parse_decimal(port);
    assert(line.take(port_marker().len() as int) =~= port_marker());
    assert(line.skip(port_marker().len() as int) =~= before + (number + after));
    assert((number + after)[0] == number[0]);
    assert(crate::text::is_digit(number[0]));
    lemma_trim_start_cuts(before, number + after);
    assert(crate::text::is_digit(number.last()));
    lemma_trim_end_cuts(number, after);
}

/// Every failure on a session names the session: the decimal writing of the
/// identifier stands in the text of a failed read, write or resize, and in the
/// text for a session that is not live.
pub proof fn lemma_failure_names_session(operation: Seq<char>, id: u32, detail: Seq<char>)
    ensures
        contains(session_failure_text(operation, id, detail), decimal(id as nat)),
        contains(not_found_text(id), decimal(id as nat)),
{
    let number = decimal(id as nat);
    let text = session_failure_text(operation, id, detail);
    assert(text.subrange(operation.len() as int, (operation.len() + number.len()) as int) =~= number);
    assert(occurs_at(text, number, operation.len() as int));
    let absent = not_found_text(id);
    assert(absent.subrange("PTY "@.len() as int, ("PTY "@.len() + number.len()) as int) =~= number);
    assert(occurs_at(absent, number, "PTY "@.len() as int));
}

/// When the output stream ends the process counts as gone, whether or not
/// its exit was reported: the port is withdrawn, no process is tracked, and
/// "backend terminated" is called for unless it was called for before.
pub proof fn lemma_stream_end_withdraws_port<C>(v: SupervisorView<C>)
    requires
        crate::sidecar::view_wf(v),
    ensures
        crate::sidecar::view_wf(after_exit(v)),
        after_exit(v).port == 0,
        after_exit(v).child is None,
        after_exit(v).state is Terminated,
        action_for_close(after_exit(v)) == SidecarAction::Nothing,
        forall|code: Option<i32>|
            action_for_close(#[trigger] after_event(v, SidecarEvent::Terminated(code)))
                == SidecarAction::Nothing,
{
}

/// Whether an event is a line of standard output that announces a port.
pub open spec fn announces(event: SidecarEvent) -> bool {
    event matches SidecarEvent::Stdout(bytes) && marker_port(utf8_lossy(bytes@)) is Some
}

/// The supervisor after a run of events.
pub open spec fn run_events<C>(v: SupervisorView<C>, events: Seq<SidecarEvent>) -> SupervisorView<
    C,
>
    decreases events.len(),
{
    if events.len() == 0 {
        v
    } else {
        after_event(run_events(v, events.drop_last()), events.last())
    }
}

/// How many "backend ready" notifications a run of events calls for.
pub open spec fn ready_count<C>(v: SupervisorView<C>, events: Seq<SidecarEvent>) -> nat
    decreases events.len(),
{
    if events.len() == 0 {
        0
    } else {
        ready_count(v, events.drop_last()) + (if action_for(
            run_events(v, events.drop_last()),
            events.last(),
        ) is AnnounceReady {
            1nat
        } else {
            0nat
        })
    }
}

/// Events keep the supervisor's rules.
pub proof fn lemma_events_keep_rules<C>(v: SupervisorView<C>, events: Seq<SidecarEvent>)
    requires
        crate::sidecar::view_wf(v),
    ensures
        crate::sidecar::view_wf(run_events(v, events)),
    decreases events.len(),
{
    if events.len() > 0 {
        lemma_events_keep_rules(v, events.drop_last());
    }
}

/// Before any announcement is seen the port is not known: from a supervisor
/// without a published port, events of which none announces a port leave the
/// port at 0.
pub proof fn lemma_no_announcement_no_port<C>(v: SupervisorView<C>, events: Seq<SidecarEvent>)
    requires
        crate::sidecar::view_wf(v),
        v.port == 0,
        forall|i: int| 0 <= i < events.len() ==> !announces(#[trigger] events[i]),
    ensures
        run_events(v, events).port == 0,
    decreases events.len(),
{
    if events.len() > 0 {
        assert(!announces(events[events.len() - 1]));
        lemma_no_announcement_no_port(v, events.drop_last());
    }
}

/// An announcement from the tracked process publishes the announced port.
pub proof fn lemma_announcement_publishes<C>(v: SupervisorView<C>, bytes: Vec<u8>, port: u16)
    requires
        crate::sidecar::view_wf(v),
        v.child is Some,
        marker_port(utf8_lossy(bytes@)) == Some(port),
    ensures
        after_event(v, SidecarEvent::Stdout(bytes)).port == port,
        after_event(v, SidecarEvent::Stdout(bytes)).state == SidecarState::Running(port),
        v.state is Starting ==> action_for(v, SidecarEvent::Stdout(bytes))
            == SidecarAction::AnnounceReady(port),
{
}

/// The backend counts as running, and its port as known, only through an
/// announcement: an event after which the port differs from before and is not
/// 0 is a line of standard output that announces that port.
pub proof fn lemma_port_only_by_announcement<C>(v: SupervisorView<C>, event: SidecarEvent)
    requires
        crate::sidecar::view_wf(v),
        after_event(v, event).port != v.port,
        after_event(v, event).port != 0,
    ensures
        announces(event),
        event matches SidecarEvent::Stdout(bytes) && marker_port(utf8_lossy(bytes@)) == Some(
            after_event(v, event).port,
        ),
        after_event(v, event).state is Running,
{
}

/// When the process exits, or is terminated on request, the port is withdrawn
/// and no process is tracked.
pub proof fn lemma_exit_withdraws_port<C>(v: SupervisorView<C>, code: Option<i32>)
    requires
        crate::sidecar::view_wf(v),
    ensures
        after_event(v, SidecarEvent::Terminated(code)).port == 0,
        after_event(v, SidecarEvent::Terminated(code)).state is Terminated,
        after_event(v, SidecarEvent::Terminated(code)).child is None,
        action_for(v, SidecarEvent::Terminated(code)) == SidecarAction::AnnounceTerminated(code),
        after_terminate(v).port == 0,
        after_terminate(v).child is None,
{
}

/// One launch calls for "backend ready" at most once: in any run of events
/// that follows it, however many announcements it holds.
pub proof fn lemma_ready_at_most_once<C>(v: SupervisorView<C>, events: Seq<SidecarEvent>)
    requires
        crate::sidecar::view_wf(v),
    ensures
        ready_count(v, events) <= 1,
        ready_count(v, events) == 1 ==> !(run_events(v, events).state is Starting),
        !(v.state is Starting) ==> ready_count(v, events) == 0,
        !(v.state is Starting) ==> !(run_events(v, events).state is Starting),
    decreases events.len(),
{
    if events.len() > 0 {
        lemma_ready_at_most_once(v, events.drop_last());
        lemma_events_keep_rules(v, events.drop_last());
    }
}

/// How far along a state is: not started, starting, running, terminated.
pub open spec fn state_rank(state: SidecarState) -> nat {
    match state {
        SidecarState::NotStarted => 0,
        SidecarState::Starting => 1,
        SidecarState::Running(_) => 2,
        SidecarState::Terminated => 3,
    }
}

/// Events only move the state forward: from starting to running, and from
/// anywhere to terminated. Only a new launch leads back to starting.
pub proof fn lemma_events_move_forward<C>(v: SupervisorView<C>, events: Seq<SidecarEvent>)
    requires
        crate::sidecar::view_wf(v),
    ensures
        state_rank(v.state) <= state_rank(run_events(v, events).state),
        v.state is Terminated ==> run_events(v, events) == v,
    decreases events.len(),
{
    if events.len() > 0 {
        lemma_events_move_forward(v, events.drop_last());
        lemma_events_keep_rules(v, events.drop_last());
    }
}

/// While the port is not known the backend counts as not healthy, whatever a
/// probe would say; and the port is known only while the backend runs.
pub proof fn lemma_unknown_port_is_unhealthy<C>(
    v: SupervisorView<C>,
    outcome: Option<ProbeOutcome>,
)
    requires
        crate::sidecar::view_wf(v),
    ensures
        v.port == 0 ==> !backend_healthy(v.port, outcome),
        !(v.state is Running) ==> !backend_healthy(v.port, outcome),
{
}

} // verus!
