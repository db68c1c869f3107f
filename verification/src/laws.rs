//! The orchestrator's laws: properties of whole runs of [`BootFlow`],
//! proved over the transition function [`BootFlow::step_spec`].

use vstd::prelude::*;
use crate::device_path::PathNode;
use crate::flow::{Action, BootFlow, Event, Outcome, Phase};
use crate::types::{FwError, Handle, MilestoneId};

verus! {

/// Every step preserves well-formedness.
pub proof fn lemma_step_preserves_wf(m: BootFlow, event: Event)
    requires
        m.wf(),
        m.accepts(event),
    ensures
        m.step_spec(event).0.wf(),
{
}

/// Law: outside the two phases that stand between a transient event's
/// creation and its close, a well-formed machine holds no open event — in
/// particular in every terminal state, whatever the outcome.
pub proof fn lemma_no_event_open_outside_milestone(m: BootFlow)
    requires
        m.wf(),
        !(m.phase is MilestoneSignal),
        !(m.phase is MilestoneClose),
    ensures
        m.open_events == 0,
{
}

/// Law: a milestone whose event creation fails opens nothing and halts at
/// once; there is no event to leak.
pub proof fn lemma_milestone_creation_failure_opens_nothing(
    m: BootFlow,
    id: MilestoneId,
    e: FwError,
)
    requires
        m.wf(),
        m.phase == (Phase::MilestoneCreate { id }),
    ensures
        m.step_spec(Event::EventCreated(Err(e))).0.open_events == 0,
        m.step_spec(Event::EventCreated(Err(e))).0.phase is Done,
{
}

/// Law: a milestone whose event was created always signals it once and then
/// closes that same event, whatever the signal and the close returned; after
/// the three steps no event is open, and a failure of either call halts the
/// machine only after the close was issued.
pub proof fn lemma_milestone_closes_its_event(
    m: BootFlow,
    id: MilestoneId,
    ev: Handle,
    signal_result: Result<(), FwError>,
    close_result: Result<(), FwError>,
)
    requires
        m.wf(),
        m.phase == (Phase::MilestoneCreate { id }),
    ensures
        ({
            let events = seq![
                Event::EventCreated(Ok(ev)),
                Event::Completed(signal_result),
                Event::Completed(close_result),
            ];
            &&& m.run_ok(events)
            &&& m.run_actions(events)[0] == Action::SignalEvent(ev)
            &&& m.run_actions(events)[1] == Action::CloseEvent(ev)
            &&& m.run_state(events).open_events == 0
            &&& ((signal_result is Err || close_result is Err) ==> m.run_state(events).phase
                is Done)
        }),
{
    let events = seq![
        Event::EventCreated(Ok(ev)),
        Event::Completed(signal_result),
        Event::Completed(close_result),
    ];
    let (m1, a1) = m.step_spec(events[0]);
    lemma_step_preserves_wf(m, events[0]);
    let rest1 = events.drop_first();
    assert(rest1 =~= seq![Event::Completed(signal_result), Event::Completed(close_result)]);
    let (m2, a2) = m1.step_spec(rest1[0]);
    lemma_step_preserves_wf(m1, rest1[0]);
    let rest2 = rest1.drop_first();
    assert(rest2 =~= seq![Event::Completed(close_result)]);
    let (m3, a3) = m2.step_spec(rest2[0]);
    lemma_step_preserves_wf(m2, rest2[0]);
    let rest3 = rest2.drop_first();
    assert(rest3.len() == 0);
    assert(m.run_state(events) == m1.run_state(rest1));
    assert(m1.run_state(rest1) == m2.run_state(rest2));
    assert(m2.run_state(rest2) == m3.run_state(rest3));
    assert(m3.run_state(rest3) == m3);
    assert(m.run_actions(events) == seq![a1] + m1.run_actions(rest1));
    assert(m1.run_actions(rest1) == seq![a2] + m2.run_actions(rest2));
    assert(m2.run_actions(rest2) == seq![a3] + m3.run_actions(rest3));
    assert(m3.run_actions(rest3) =~= Seq::<Action>::empty());
    assert(m.run_actions(events)[0] == a1);
    assert(m.run_actions(events)[1] == (seq![a2] + m2.run_actions(rest2))[0]);
    assert(m3.run_ok(rest3));
    assert(m2.accepts(rest2[0]));
    assert(m2.run_ok(rest2));
    assert(m1.run_ok(rest1));
    assert(m.run_ok(events));
}

/// Law: the milestone chain is fixed. A milestone that signalled and closed
/// successfully hands over to the next step of the sequence: SD-card detect
/// to driver connection, ready-to-boot to the end-of-DXE broadcast, and
/// end-of-DXE to the filesystem scan — so the three milestones can only be
/// emitted in that order.
pub proof fn lemma_milestone_order(
    m: BootFlow,
    id: MilestoneId,
    ev: Handle,
)
    requires
        m.wf(),
        m.phase == (Phase::MilestoneClose { id, event: ev, signal_result: Ok(()) }),
    ensures
        m.step_spec(Event::Completed(Ok(()))).0.phase == (match id {
            MilestoneId::SdCardDetect => Phase::ConnectLocate,
            MilestoneId::ReadyToBoot => Phase::MilestoneCreate { id: MilestoneId::EndOfDxe },
            MilestoneId::EndOfDxe => Phase::FsLocate,
        }),
{
}

/// Helper for [`lemma_connect_all_attempts_every_handle`]: from the middle of
/// the connect loop, each remaining handle gets exactly one connect attempt,
/// in order, whatever each attempt returned, and the loop ends at the
/// ready-to-boot milestone.
proof fn lemma_connecting_drains(
    m: BootFlow,
    handles: Vec<Handle>,
    index: usize,
    events: Seq<Event>,
)
    requires
        m.wf(),
        m.phase == (Phase::Connecting { handles, index }),
        events.len() == handles@.len() - index,
        forall|i: int| 0 <= i < events.len() ==> events[i] is Completed,
    ensures
        m.run_ok(events),
        m.run_state(events).phase == (Phase::MilestoneCreate { id: MilestoneId::ReadyToBoot }),
        m.run_state(events).slot == m.slot,
        m.run_actions(events).len() == events.len(),
        forall|i: int|
            0 <= i < events.len() - 1 ==> m.run_actions(events)[i] == Action::ConnectController(
                handles@[index + 1 + i],
            ),
        m.run_actions(events)[events.len() - 1] == Action::CreateMilestoneEvent(
            MilestoneId::ReadyToBoot,
        ),
    decreases events.len(),
{
    assert(handles@.len() == handles.len());
    let (m1, a1) = m.step_spec(events[0]);
    lemma_step_preserves_wf(m, events[0]);
    let rest = events.drop_first();
    assert(forall|i: int| 0 <= i < rest.len() ==> rest[i] is Completed);
    if index + 1 < handles@.len() {
        assert(m1.phase == (Phase::Connecting { handles, index: (index + 1) as usize }));
        lemma_connecting_drains(m1, handles, (index + 1) as usize, rest);
        assert(m.run_actions(events) == seq![a1] + m1.run_actions(rest));
        assert forall|i: int| 0 <= i < events.len() - 1 implies m.run_actions(events)[i]
            == Action::ConnectController(handles@[index + 1 + i]) by {
            if i > 0 {
                assert(m1.run_actions(rest)[i - 1] == Action::ConnectController(
                    handles@[index + 1 + i],
                ));
            }
        }
    } else {
        assert(rest.len() == 0);
        assert(m1.run_state(rest) == m1);
        assert(m.run_actions(events) =~= seq![a1]);
    }
}

/// Law: driver connection is best-effort. Given the enumerated handles, the
/// orchestrator issues exactly one connect attempt per handle, in enumeration
/// order, discards every per-handle result, and proceeds to the ready-to-boot
/// milestone even if every attempt failed. Zero handles are simply not
/// iterated.
pub proof fn lemma_connect_all_attempts_every_handle(
    m: BootFlow,
    handles: Vec<Handle>,
    events: Seq<Event>,
)
    requires
        m.wf(),
        m.phase is ConnectLocate,
        events.len() == handles@.len() + 1,
        events[0] == (Event::Handles(Ok(handles))),
        forall|i: int| 1 <= i < events.len() ==> events[i] is Completed,
    ensures
        m.run_ok(events),
        m.run_state(events).phase == (Phase::MilestoneCreate { id: MilestoneId::ReadyToBoot }),
        m.run_state(events).slot == m.slot,
        m.run_actions(events).len() == handles@.len() + 1,
        forall|i: int|
            0 <= i < handles@.len() ==> m.run_actions(events)[i] == Action::ConnectController(
                handles@[i],
            ),
        m.run_actions(events)[handles@.len() as int] == Action::CreateMilestoneEvent(
            MilestoneId::ReadyToBoot,
        ),
{
    assert(handles@.len() == handles.len());
    let (m1, a1) = m.step_spec(events[0]);
    lemma_step_preserves_wf(m, events[0]);
    let rest = events.drop_first();
    assert(forall|i: int| 0 <= i < rest.len() ==> rest[i] is Completed);
    if handles@.len() == 0 {
        assert(rest.len() == 0);
        assert(m1.run_state(rest) == m1);
        assert(m.run_actions(events) =~= seq![a1]);
        assert(m1.run_ok(rest));
        assert(m.run_ok(events));
    } else {
        assert(m1.phase == (Phase::Connecting { handles, index: 0usize }));
        lemma_connecting_drains(m1, handles, 0, rest);
        assert(m.run_ok(events));
        assert(m.run_actions(events) == seq![a1] + m1.run_actions(rest));
        assert forall|i: int| 0 <= i < handles@.len() implies m.run_actions(events)[i]
            == Action::ConnectController(handles@[i]) by {
            if i > 0 {
                assert(m1.run_actions(rest)[i - 1] == Action::ConnectController(handles@[i]));
            }
        }
    }
}

/// Law: a failure of the connect-phase handle enumeration itself is fatal.
pub proof fn lemma_connect_enumeration_failure_is_fatal(m: BootFlow, e: FwError)
    requires
        m.wf(),
        m.phase is ConnectLocate,
    ensures
        m.step_spec(Event::Handles(Err(e))).0.phase is Done,
{
}

/// Law: when no handle exposes the display-power capability — the
/// enumeration failed or matched nothing — initialization is a soft success:
/// boot proceeds to hook registration and the slot remains absent.
pub proof fn lemma_display_absent_leaves_slot_untouched(
    m: BootFlow,
    res: Result<Vec<Handle>, FwError>,
)
    requires
        m.wf(),
        m.phase is DisplayLocate,
        (res matches Ok(handles) ==> handles@.len() == 0),
    ensures
        m.step_spec(Event::Handles(res)).0.phase is RegisterHook,
        m.step_spec(Event::Handles(res)).0.slot == m.slot,
        m.step_spec(Event::Handles(res)).0.slot.spec_absent(),
        m.step_spec(Event::Handles(res)).1 == Action::RegisterExitHook,
{
}

/// Law: with at least one matching handle, exactly the first (in enumeration
/// order) is used for the raw interface retrieval.
pub proof fn lemma_display_uses_first_handle(m: BootFlow, handles: Vec<Handle>)
    requires
        m.wf(),
        m.phase is DisplayLocate,
        handles@.len() > 0,
    ensures
        m.step_spec(Event::Handles(Ok(handles))).0.phase == (Phase::DisplayRetrieve {
            handle: handles@[0],
        }),
        m.step_spec(Event::Handles(Ok(handles))).1 == Action::RetrieveRawInterface(handles@[0]),
        m.step_spec(Event::Handles(Ok(handles))).0.slot == m.slot,
{
}

/// Law: a successful raw retrieval publishes exactly the retrieved pointer:
/// the store action is issued once and the slot then holds that pointer.
pub proof fn lemma_display_publishes_retrieved_pointer(m: BootFlow, p: u64)
    requires
        m.wf(),
        m.phase is DisplayRetrieve,
    ensures
        m.step_spec(Event::RawInterface { status_ok: true, interface: Some(p) }).1
            == Action::PublishInterface(p),
        m.step_spec(Event::RawInterface { status_ok: true, interface: Some(p) }).0.slot.interface
            == Some(p),
{
}

/// Law: a file that opens on a probed handle wins immediately: the machine
/// requests the load over exactly that handle's descriptor — whose
/// three-node load path [`crate::device_path::build_boot_path`] pins — and
/// abandons the remaining handles.
pub proof fn lemma_matching_file_requests_load(
    m: BootFlow,
    handles: Vec<Handle>,
    index: usize,
    descriptor: Vec<PathNode>,
)
    requires
        m.wf(),
        m.phase == (Phase::ProbeFile { handles, index, descriptor }),
        descriptor@.len() >= 2,
    ensures
        m.step_spec(Event::Completed(Ok(()))).0.phase is Load,
        m.step_spec(Event::Completed(Ok(()))).1 == Action::LoadImage(descriptor),
{
}

/// Law: running out of filesystem handles halts with the distinct not-found
/// outcome, never a hard error.
pub proof fn lemma_exhausted_probe_is_not_found(
    m: BootFlow,
    handles: Vec<Handle>,
    index: usize,
    descriptor: Vec<PathNode>,
    e: FwError,
)
    requires
        m.wf(),
        m.phase == (Phase::ProbeFile { handles, index, descriptor }),
        index + 1 == handles@.len(),
    ensures
        m.step_spec(Event::Completed(Err(e))).0.phase == (Phase::Done {
            outcome: Outcome::ImageNotFound,
        }),
        m.step_spec(Event::Completed(Err(e))).1 == Action::Halt(Outcome::ImageNotFound),
{
}

/// Law: zero filesystem handles give the same not-found outcome.
pub proof fn lemma_no_filesystem_handles_is_not_found(m: BootFlow, handles: Vec<Handle>)
    requires
        m.wf(),
        m.phase is FsLocate,
        handles@.len() == 0,
    ensures
        m.step_spec(Event::Handles(Ok(handles))).0.phase == (Phase::Done {
            outcome: Outcome::ImageNotFound,
        }),
{
}

/// How many store-to-slot actions a trace holds.
pub open spec fn publish_count(actions: Seq<Action>) -> nat
    decreases actions.len(),
{
    if actions.len() == 0 {
        0
    } else {
        (if actions[0] is PublishInterface {
            1nat
        } else {
            0nat
        }) + publish_count(actions.drop_first())
    }
}

/// A step publishes only from an absent slot, and is the only thing that
/// changes the slot.
proof fn lemma_step_slot_facts(m: BootFlow, event: Event)
    requires
        m.wf(),
        m.accepts(event),
    ensures
        m.step_spec(event).1 is PublishInterface ==> m.slot.spec_absent() && !m.step_spec(
            event,
        ).0.slot.spec_absent(),
        !(m.step_spec(event).1 is PublishInterface) ==> m.step_spec(event).0.slot == m.slot,
{
}

/// Once the slot holds a pointer, no run ever changes it or issues another
/// store: the published value survives, unclobbered, into the teardown
/// context.
pub proof fn lemma_published_slot_is_never_reassigned(m: BootFlow, events: Seq<Event>)
    requires
        m.run_ok(events),
        !m.slot.spec_absent(),
    ensures
        m.run_state(events).slot == m.slot,
        publish_count(m.run_actions(events)) == 0,
    decreases events.len(),
{
    if events.len() > 0 {
        let (m1, a1) = m.step_spec(events[0]);
        let rest = events.drop_first();
        lemma_step_slot_facts(m, events[0]);
        lemma_published_slot_is_never_reassigned(m1, rest);
        assert(m.run_actions(events) == seq![a1] + m1.run_actions(rest));
        assert(m.run_actions(events).drop_first() =~= m1.run_actions(rest));
    }
}

/// Law: over any run of the machine, the process-wide slot is written at
/// most once; single writer, write-once.
pub proof fn lemma_slot_written_at_most_once(m: BootFlow, events: Seq<Event>)
    requires
        m.run_ok(events),
        m.slot.spec_absent(),
    ensures
        publish_count(m.run_actions(events)) <= 1,
    decreases events.len(),
{
    if events.len() > 0 {
        let (m1, a1) = m.step_spec(events[0]);
        let rest = events.drop_first();
        lemma_step_slot_facts(m, events[0]);
        assert(m.run_actions(events) == seq![a1] + m1.run_actions(rest));
        assert(m.run_actions(events).drop_first() =~= m1.run_actions(rest));
        if a1 is PublishInterface {
            lemma_published_slot_is_never_reassigned(m1, rest);
        } else {
            lemma_slot_written_at_most_once(m1, rest);
        }
    }
}

} // verus!
