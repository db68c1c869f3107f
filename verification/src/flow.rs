//! The boot orchestrator: a step machine over firmware calls.
//!
//! Every firmware service the boot sequence consumes (handle enumeration,
//! controller connection, event creation and signalling, protocol retrieval,
//! image load and start) is asynchronous to this crate: the machine hands an
//! [`Action`] to a thin driver, the driver performs the call and hands the
//! outcome back as an [`Event`]. [`BootFlow::step`] holds all the decision
//! logic — the fixed step order, which failures are fatal and which are soft,
//! first-match selection, best-effort per-handle loops — and its contract
//! pins every transition to the transition function [`BootFlow::step_spec`].

use vstd::prelude::*;
use vstd::pervasive::unreached;
use crate::device_path::PathNode;
use crate::display::ProtocolSlot;
use crate::types::{DisplayPowerState, FwError, Handle, MilestoneId, ProtocolId};

verus! {

/// Number of microseconds the orchestrator pauses before reporting an
/// abnormal return from a started image.
pub const STALL_MICROSECONDS: u64 = 10_000_000;

/// Why the orchestration sequence halted.
#[derive(Clone, Copy, Debug, PartialEq, Eq)]
pub enum Outcome {
    /// No filesystem handle held the boot image: an absence condition,
    /// reported distinctly from any hard error.
    ImageNotFound,
    /// A matching handle's descriptor had fewer than two nodes, so no load
    /// path could be built from it.
    ShortDevicePath,
    /// A fatal step failed with the given firmware status.
    Failed(FwError),
    /// Control returned after a successful image start: the sentinel path,
    /// reached only after the fixed pause.
    ReturnedAfterStart,
}

/// A firmware call the orchestrator asks its driver to perform next.
#[derive(Debug, PartialEq, Eq)]
pub enum Action {
    /// Initialize the runtime helpers (answer: `Completed`).
    InitializeHelpers,
    /// Enumerate the handles exposing the given capability (answer: `Handles`).
    LocateHandles(ProtocolId),
    /// Enumerate every handle known to the firmware (answer: `Handles`).
    LocateAllHandles,
    /// Fetch the raw display-power interface pointer from the handle through
    /// the lowest-level protocol-retrieval call (answer: `RawInterface`).
    RetrieveRawInterface(Handle),
    /// Store the pointer into the process-wide slot with a fully ordered
    /// write (answer: `Completed`; the store itself cannot fail).
    PublishInterface(u64),
    /// Read the display power state through the published interface
    /// (answer: `StateRead`).
    GetDisplayState,
    /// Command the display power state through the published interface
    /// (answer: `Completed`).
    SetDisplayState(DisplayPowerState),
    /// Register the shutdown-time teardown callback on the firmware's
    /// boot-services-exit event class (answer: `Completed`). The created
    /// event is intentionally never closed: its lifetime passes to the
    /// firmware.
    RegisterExitHook,
    /// Create a transient notification bound to the milestone identifier,
    /// with a side-effect-free callback (answer: `EventCreated`).
    CreateMilestoneEvent(MilestoneId),
    /// Signal the transient event (answer: `Completed`).
    SignalEvent(Handle),
    /// Close the transient event (answer: `Completed`).
    CloseEvent(Handle),
    /// Attempt a recursive controller connect on the handle (answer:
    /// `Completed`; the result is discarded).
    ConnectController(Handle),
    /// Open the handle's device location descriptor (answer: `PathOpened`).
    OpenDevicePath(Handle),
    /// Open the handle's filesystem interface (answer: `Completed`).
    OpenFileSystem(Handle),
    /// Open the handle's root volume (answer: `Completed`).
    OpenVolume(Handle),
    /// Open the fixed boot image path read-only on the opened volume
    /// (answer: `Completed`).
    OpenBootFile(Handle),
    /// Load the boot image from the load path built over this descriptor by
    /// [`crate::device_path::build_boot_path`] with an exact-match policy
    /// (answer: `ImageLoaded`).
    LoadImage(Vec<PathNode>),
    /// Transfer control into the loaded image (answer: `Completed`, observed
    /// only if control abnormally returns).
    StartImage(Handle),
    /// Pause for the given number of microseconds (answer: `Completed`).
    Stall(u64),
    /// Terminal: the sequence is over with this outcome; no answer follows.
    Halt(Outcome),
}

/// The outcome of a performed [`Action`], handed back to the orchestrator.
#[derive(Debug, PartialEq, Eq)]
pub enum Event {
    /// A call that yields no value finished with this status.
    Completed(Result<(), FwError>),
    /// A handle enumeration finished.
    Handles(Result<Vec<Handle>, FwError>),
    /// The raw protocol-retrieval call finished: its status, and the
    /// returned pointer (`None` for a null pointer).
    RawInterface { status_ok: bool, interface: Option<u64> },
    /// The display state was read.
    StateRead(Result<DisplayPowerState, FwError>),
    /// A device location descriptor was opened.
    PathOpened(Result<Vec<PathNode>, FwError>),
    /// An event creation finished.
    EventCreated(Result<Handle, FwError>),
    /// An image load finished.
    ImageLoaded(Result<Handle, FwError>),
}

/// Where the orchestration sequence stands: each variant awaits the answer
/// to exactly one outstanding [`Action`].
#[derive(Debug, PartialEq, Eq)]
pub enum Phase {
    /// Awaiting runtime helper initialization (fatal on failure).
    InitHelpers,
    /// Awaiting the enumeration of display-power handles (soft).
    DisplayLocate,
    /// Awaiting the raw interface pointer from the first matching handle.
    DisplayRetrieve { handle: Handle },
    /// Awaiting the store of the retrieved pointer into the slot.
    DisplayPublish { interface: u64 },
    /// Awaiting the self-test read of the display state.
    DisplaySelfGet,
    /// Awaiting the self-test command that turns the display on.
    DisplaySelfSet,
    /// Awaiting the registration of the shutdown teardown hook (soft).
    RegisterHook,
    /// Awaiting the creation of the transient event for this milestone.
    MilestoneCreate { id: MilestoneId },
    /// Awaiting the signal of the transient event, which is held open.
    MilestoneSignal { id: MilestoneId, event: Handle },
    /// Awaiting the close of the transient event; the close is issued
    /// whatever the signal returned, so no event outlives its milestone.
    MilestoneClose { id: MilestoneId, event: Handle, signal_result: Result<(), FwError> },
    /// Awaiting the enumeration of all handles for driver connection.
    ConnectLocate,
    /// Awaiting the connect attempt on `handles[index]`; every handle is
    /// attempted once, in order, and every per-handle result is discarded.
    Connecting { handles: Vec<Handle>, index: usize },
    /// Awaiting the enumeration of filesystem-capable handles.
    FsLocate,
    /// Awaiting the device location descriptor of `handles[index]`.
    ProbePath { handles: Vec<Handle>, index: usize },
    /// Awaiting the filesystem interface of `handles[index]`.
    ProbeFs { handles: Vec<Handle>, index: usize, descriptor: Vec<PathNode> },
    /// Awaiting the root volume of `handles[index]`.
    ProbeVolume { handles: Vec<Handle>, index: usize, descriptor: Vec<PathNode> },
    /// Awaiting the read-only open of the fixed path on `handles[index]`.
    ProbeFile { handles: Vec<Handle>, index: usize, descriptor: Vec<PathNode> },
    /// Awaiting the image load from the matched handle's load path.
    Load,
    /// Awaiting the transfer of control into the loaded image.
    Start { image: Handle },
    /// Awaiting the fixed pause after an abnormal return.
    Stalling,
    /// Terminal: the sequence is over.
    Done { outcome: Outcome },
}

/// The boot orchestrator: the current phase, the process-wide slot for the
/// display-power interface pointer, and a count of the transient milestone
/// events currently open.
#[derive(Debug, PartialEq, Eq)]
pub struct BootFlow {
    pub phase: Phase,
    pub slot: ProtocolSlot,
    pub open_events: u64,
}

/// A halted machine and its terminal action.
pub open spec fn spec_halted(slot: ProtocolSlot, outcome: Outcome) -> (BootFlow, Action) {
    (
        BootFlow { phase: Phase::Done { outcome }, slot, open_events: 0 },
        Action::Halt(outcome),
    )
}

/// Move the filesystem probe to the next handle, or halt with the distinct
/// not-found outcome when every handle has been probed.
pub open spec fn spec_advance_probe(slot: ProtocolSlot, handles: Vec<Handle>, index: usize) -> (
    BootFlow,
    Action,
) {
    if index + 1 < handles@.len() {
        (
            BootFlow {
                phase: Phase::ProbePath { handles, index: (index + 1) as usize },
                slot,
                open_events: 0,
            },
            Action::OpenDevicePath(handles@[index + 1]),
        )
    } else {
        spec_halted(slot, Outcome::ImageNotFound)
    }
}

fn halted(slot: ProtocolSlot, outcome: Outcome) -> (r: (BootFlow, Action))
    ensures
        r == spec_halted(slot, outcome),
{
    (
        BootFlow { phase: Phase::Done { outcome }, slot, open_events: 0 },
        Action::Halt(outcome),
    )
}

fn advance_probe(slot: ProtocolSlot, handles: Vec<Handle>, index: usize) -> (r: (BootFlow, Action))
    requires
        index < handles@.len(),
    ensures
        r == spec_advance_probe(slot, handles, index),
{
    let count = handles.len();
    if index + 1 < count {
        let next = handles[index + 1];
        (
            BootFlow {
                phase: Phase::ProbePath { handles, index: index + 1 },
                slot,
                open_events: 0,
            },
            Action::OpenDevicePath(next),
        )
    } else {
        halted(slot, Outcome::ImageNotFound)
    }
}

impl BootFlow {
    /// The loop indices of the two per-handle loops stay in range.
    pub open spec fn probe_index_ok(self) -> bool {
        match self.phase {
            Phase::Connecting { handles, index } => index < handles@.len(),
            Phase::ProbePath { handles, index } => index < handles@.len(),
            Phase::ProbeFs { handles, index, .. } => index < handles@.len(),
            Phase::ProbeVolume { handles, index, .. } => index < handles@.len(),
            Phase::ProbeFile { handles, index, .. } => index < handles@.len(),
            _ => true,
        }
    }

    /// A transient milestone event is held open exactly between its
    /// creation and the completion of its close.
    pub open spec fn holds_transient_event(self) -> bool {
        self.phase is MilestoneSignal || self.phase is MilestoneClose
    }

    /// The open-event count is exact: one while a transient event is held,
    /// zero everywhere else — in particular in every terminal state.
    pub open spec fn event_accounting_ok(self) -> bool {
        self.open_events == (if self.holds_transient_event() {
            1u64
        } else {
            0u64
        })
    }

    /// The slot is absent until the one publishing transition, and holds the
    /// just-published pointer while the store is outstanding.
    pub open spec fn slot_coherent(self) -> bool {
        match self.phase {
            Phase::InitHelpers => self.slot.spec_absent(),
            Phase::DisplayLocate => self.slot.spec_absent(),
            Phase::DisplayRetrieve { .. } => self.slot.spec_absent(),
            Phase::DisplayPublish { interface } => self.slot.interface == Some(interface),
            _ => true,
        }
    }

    /// Well-formedness: established by [`BootFlow::boot`] and preserved by
    /// every step.
    pub open spec fn wf(self) -> bool {
        self.probe_index_ok() && self.event_accounting_ok() && self.slot_coherent()
    }

    /// Which event kind answers the outstanding action of this phase. A
    /// terminal machine accepts nothing.
    pub open spec fn accepts(self, event: Event) -> bool {
        match self.phase {
            Phase::InitHelpers => event is Completed,
            Phase::DisplayLocate => event is Handles,
            Phase::DisplayRetrieve { .. } => event is RawInterface,
            Phase::DisplayPublish { .. } => event is Completed,
            Phase::DisplaySelfGet => event is StateRead,
            Phase::DisplaySelfSet => event is Completed,
            Phase::RegisterHook => event is Completed,
            Phase::MilestoneCreate { .. } => event is EventCreated,
            Phase::MilestoneSignal { .. } => event is Completed,
            Phase::MilestoneClose { .. } => event is Completed,
            Phase::ConnectLocate => event is Handles,
            Phase::Connecting { .. } => event is Completed,
            Phase::FsLocate => event is Handles,
            Phase::ProbePath { .. } => event is PathOpened,
            Phase::ProbeFs { .. } => event is Completed,
            Phase::ProbeVolume { .. } => event is Completed,
            Phase::ProbeFile { .. } => event is Completed,
            Phase::Load => event is ImageLoaded,
            Phase::Start { .. } => event is Completed,
            Phase::Stalling => event is Completed,
            Phase::Done { .. } => false,
        }
    }

    /// The transition function: the whole orchestration policy in one place.
    pub open spec fn step_spec(self, event: Event) -> (BootFlow, Action) {
        let slot = self.slot;
        match (self.phase, event) {
            // Runtime helpers first — fatal on failure.
            (Phase::InitHelpers, Event::Completed(res)) => match res {
                Ok(_) => (
                    BootFlow { phase: Phase::DisplayLocate, slot, open_events: 0 },
                    Action::LocateHandles(ProtocolId::DisplayPower),
                ),
                Err(e) => spec_halted(slot, Outcome::Failed(e)),
            },
            // Display-power initialization — soft throughout. An
            // enumeration failure or an empty result leaves the capability
            // unsupported; otherwise exactly the first handle is used.
            (Phase::DisplayLocate, Event::Handles(res)) => match res {
                Ok(handles) => if handles@.len() == 0 {
                    (BootFlow { phase: Phase::RegisterHook, slot, open_events: 0 }, Action::RegisterExitHook)
                } else {
                    (
                        BootFlow {
                            phase: Phase::DisplayRetrieve { handle: handles@[0] },
                            slot,
                            open_events: 0,
                        },
                        Action::RetrieveRawInterface(handles@[0]),
                    )
                },
                Err(_) => (BootFlow { phase: Phase::RegisterHook, slot, open_events: 0 }, Action::RegisterExitHook),
            },
            // A failed status or a null pointer both fold into "capability
            // unavailable": the slot stays absent and boot continues.
            (Phase::DisplayRetrieve { .. }, Event::RawInterface { status_ok, interface }) => match interface {
                Some(p) => if status_ok {
                    (
                        BootFlow {
                            phase: Phase::DisplayPublish { interface: p },
                            slot: ProtocolSlot { interface: Some(p) },
                            open_events: 0,
                        },
                        Action::PublishInterface(p),
                    )
                } else {
                    (BootFlow { phase: Phase::RegisterHook, slot, open_events: 0 }, Action::RegisterExitHook)
                },
                None => (BootFlow { phase: Phase::RegisterHook, slot, open_events: 0 }, Action::RegisterExitHook),
            },
            (Phase::DisplayPublish { .. }, Event::Completed(_)) => (
                BootFlow { phase: Phase::DisplaySelfGet, slot, open_events: 0 },
                Action::GetDisplayState,
            ),
            // Self-test: read the state; only on success command it on.
            // Either outcome is informational and never alters control flow.
            (Phase::DisplaySelfGet, Event::StateRead(res)) => match res {
                Ok(_) => (
                    BootFlow { phase: Phase::DisplaySelfSet, slot, open_events: 0 },
                    Action::SetDisplayState(DisplayPowerState::On),
                ),
                Err(_) => (BootFlow { phase: Phase::RegisterHook, slot, open_events: 0 }, Action::RegisterExitHook),
            },
            (Phase::DisplaySelfSet, Event::Completed(_)) => (
                BootFlow { phase: Phase::RegisterHook, slot, open_events: 0 },
                Action::RegisterExitHook,
            ),
            // Teardown-hook registration — soft either way.
            (Phase::RegisterHook, Event::Completed(_)) => (
                BootFlow {
                    phase: Phase::MilestoneCreate { id: MilestoneId::SdCardDetect },
                    slot,
                    open_events: 0,
                },
                Action::CreateMilestoneEvent(MilestoneId::SdCardDetect),
            ),
            // Milestones — fatal. A created event is always
            // closed before the failure is acted on.
            (Phase::MilestoneCreate { id }, Event::EventCreated(res)) => match res {
                Ok(ev) => (
                    BootFlow {
                        phase: Phase::MilestoneSignal { id, event: ev },
                        slot,
                        open_events: 1,
                    },
                    Action::SignalEvent(ev),
                ),
                Err(e) => spec_halted(slot, Outcome::Failed(e)),
            },
            (Phase::MilestoneSignal { id, event: ev }, Event::Completed(res)) => (
                BootFlow {
                    phase: Phase::MilestoneClose { id, event: ev, signal_result: res },
                    slot,
                    open_events: 1,
                },
                Action::CloseEvent(ev),
            ),
            (Phase::MilestoneClose { id, signal_result, .. }, Event::Completed(close_res)) => match signal_result {
                Err(e) => spec_halted(slot, Outcome::Failed(e)),
                Ok(_) => match close_res {
                    Err(e) => spec_halted(slot, Outcome::Failed(e)),
                    Ok(_) => match id {
                        MilestoneId::SdCardDetect => (
                            BootFlow { phase: Phase::ConnectLocate, slot, open_events: 0 },
                            Action::LocateAllHandles,
                        ),
                        MilestoneId::ReadyToBoot => (
                            BootFlow {
                                phase: Phase::MilestoneCreate { id: MilestoneId::EndOfDxe },
                                slot,
                                open_events: 0,
                            },
                            Action::CreateMilestoneEvent(MilestoneId::EndOfDxe),
                        ),
                        MilestoneId::EndOfDxe => (
                            BootFlow { phase: Phase::FsLocate, slot, open_events: 0 },
                            Action::LocateHandles(ProtocolId::SimpleFileSystem),
                        ),
                    },
                },
            },
            // Driver connection — only the enumeration itself can
            // fail the boot; zero handles are simply not iterated.
            (Phase::ConnectLocate, Event::Handles(res)) => match res {
                Ok(handles) => if handles@.len() == 0 {
                    (
                        BootFlow {
                            phase: Phase::MilestoneCreate { id: MilestoneId::ReadyToBoot },
                            slot,
                            open_events: 0,
                        },
                        Action::CreateMilestoneEvent(MilestoneId::ReadyToBoot),
                    )
                } else {
                    (
                        BootFlow { phase: Phase::Connecting { handles, index: 0 }, slot, open_events: 0 },
                        Action::ConnectController(handles@[0]),
                    )
                },
                Err(e) => spec_halted(slot, Outcome::Failed(e)),
            },
            (Phase::Connecting { handles, index }, Event::Completed(_)) => if index + 1 < handles@.len() {
                (
                    BootFlow {
                        phase: Phase::Connecting { handles, index: (index + 1) as usize },
                        slot,
                        open_events: 0,
                    },
                    Action::ConnectController(handles@[index + 1]),
                )
            } else {
                (
                    BootFlow {
                        phase: Phase::MilestoneCreate { id: MilestoneId::ReadyToBoot },
                        slot,
                        open_events: 0,
                    },
                    Action::CreateMilestoneEvent(MilestoneId::ReadyToBoot),
                )
            },
            // Locating the boot image — per-handle failures skip to
            // the next handle; running out of handles is the distinct
            // not-found outcome, not an error.
            (Phase::FsLocate, Event::Handles(res)) => match res {
                Ok(handles) => if handles@.len() == 0 {
                    spec_halted(slot, Outcome::ImageNotFound)
                } else {
                    (
                        BootFlow { phase: Phase::ProbePath { handles, index: 0 }, slot, open_events: 0 },
                        Action::OpenDevicePath(handles@[0]),
                    )
                },
                Err(e) => spec_halted(slot, Outcome::Failed(e)),
            },
            (Phase::ProbePath { handles, index }, Event::PathOpened(res)) => match res {
                Ok(descriptor) => (
                    BootFlow {
                        phase: Phase::ProbeFs { handles, index, descriptor },
                        slot,
                        open_events: 0,
                    },
                    Action::OpenFileSystem(handles@[index as int]),
                ),
                Err(_) => spec_advance_probe(slot, handles, index),
            },
            (Phase::ProbeFs { handles, index, descriptor }, Event::Completed(res)) => match res {
                Ok(_) => (
                    BootFlow {
                        phase: Phase::ProbeVolume { handles, index, descriptor },
                        slot,
                        open_events: 0,
                    },
                    Action::OpenVolume(handles@[index as int]),
                ),
                Err(_) => spec_advance_probe(slot, handles, index),
            },
            (Phase::ProbeVolume { handles, index, descriptor }, Event::Completed(res)) => match res {
                Ok(_) => (
                    BootFlow {
                        phase: Phase::ProbeFile { handles, index, descriptor },
                        slot,
                        open_events: 0,
                    },
                    Action::OpenBootFile(handles@[index as int]),
                ),
                Err(_) => spec_advance_probe(slot, handles, index),
            },
            // A matching file wins immediately: the first two descriptor
            // nodes become the load path. A load failure past this point is
            // fatal, not an absence condition.
            (Phase::ProbeFile { handles, index, descriptor }, Event::Completed(res)) => match res {
                Ok(_) => if descriptor@.len() < 2 {
                    spec_halted(slot, Outcome::ShortDevicePath)
                } else {
                    (
                        BootFlow { phase: Phase::Load, slot, open_events: 0 },
                        Action::LoadImage(descriptor),
                    )
                },
                Err(_) => spec_advance_probe(slot, handles, index),
            },
            (Phase::Load, Event::ImageLoaded(res)) => match res {
                Ok(image) => (
                    BootFlow { phase: Phase::Start { image }, slot, open_events: 0 },
                    Action::StartImage(image),
                ),
                Err(e) => spec_halted(slot, Outcome::Failed(e)),
            },
            // Image start: a successful start never returns; if control
            // does come back, pause briefly, then halt with the sentinel.
            (Phase::Start { .. }, Event::Completed(res)) => match res {
                Ok(_) => (
                    BootFlow { phase: Phase::Stalling, slot, open_events: 0 },
                    Action::Stall(STALL_MICROSECONDS),
                ),
                Err(e) => spec_halted(slot, Outcome::Failed(e)),
            },
            (Phase::Stalling, Event::Completed(_)) => spec_halted(slot, Outcome::ReturnedAfterStart),
            // No other pairing is accepted.
            _ => spec_halted(slot, Outcome::ReturnedAfterStart),
        }
    }

    /// The entry point: a fresh machine, its slot absent, with the first
    /// action of the fixed sequence.
    pub fn boot() -> (r: (BootFlow, Action))
        ensures
            r.0.wf(),
            r.0 == (BootFlow {
                phase: Phase::InitHelpers,
                slot: ProtocolSlot { interface: None },
                open_events: 0,
            }),
            r.1 == Action::InitializeHelpers,
    {
        (
            BootFlow { phase: Phase::InitHelpers, slot: ProtocolSlot::new(), open_events: 0 },
            Action::InitializeHelpers,
        )
    }

    /// Advance by one firmware response: consume the answer to the
    /// outstanding action and produce the next action.
    pub fn step(self, event: Event) -> (r: (BootFlow, Action))
        requires
            self.wf(),
            self.accepts(event),
        ensures
            r == self.step_spec(event),
            r.0.wf(),
    {
        let BootFlow { phase, slot, open_events: _ } = self;
        match (phase, event) {
            (Phase::InitHelpers, Event::Completed(res)) => match res {
                Ok(_) => (
                    BootFlow { phase: Phase::DisplayLocate, slot, open_events: 0 },
                    Action::LocateHandles(ProtocolId::DisplayPower),
                ),
                Err(e) => halted(slot, Outcome::Failed(e)),
            },
            (Phase::DisplayLocate, Event::Handles(res)) => match res {
                Ok(handles) => if handles.len() == 0 {
                    (BootFlow { phase: Phase::RegisterHook, slot, open_events: 0 }, Action::RegisterExitHook)
                } else {
                    let first = handles[0];
                    (
                        BootFlow {
                            phase: Phase::DisplayRetrieve { handle: first },
                            slot,
                            open_events: 0,
                        },
                        Action::RetrieveRawInterface(first),
                    )
                },
                Err(_) => (BootFlow { phase: Phase::RegisterHook, slot, open_events: 0 }, Action::RegisterExitHook),
            },
            (Phase::DisplayRetrieve { .. }, Event::RawInterface { status_ok, interface }) => match interface {
                Some(p) => if status_ok {
                    (
                        BootFlow {
                            phase: Phase::DisplayPublish { interface: p },
                            slot: ProtocolSlot { interface: Some(p) },
                            open_events: 0,
                        },
                        Action::PublishInterface(p),
                    )
                } else {
                    (BootFlow { phase: Phase::RegisterHook, slot, open_events: 0 }, Action::RegisterExitHook)
                },
                None => (BootFlow { phase: Phase::RegisterHook, slot, open_events: 0 }, Action::RegisterExitHook),
            },
            (Phase::DisplayPublish { .. }, Event::Completed(_)) => (
                BootFlow { phase: Phase::DisplaySelfGet, slot, open_events: 0 },
                Action::GetDisplayState,
            ),
            (Phase::DisplaySelfGet, Event::StateRead(res)) => match res {
                Ok(_) => (
                    BootFlow { phase: Phase::DisplaySelfSet, slot, open_events: 0 },
                    Action::SetDisplayState(DisplayPowerState::On),
                ),
                Err(_) => (BootFlow { phase: Phase::RegisterHook, slot, open_events: 0 }, Action::RegisterExitHook),
            },
            (Phase::DisplaySelfSet, Event::Completed(_)) => (
                BootFlow { phase: Phase::RegisterHook, slot, open_events: 0 },
                Action::RegisterExitHook,
            ),
            (Phase::RegisterHook, Event::Completed(_)) => (
                BootFlow {
                    phase: Phase::MilestoneCreate { id: MilestoneId::SdCardDetect },
                    slot,
                    open_events: 0,
                },
                Action::CreateMilestoneEvent(MilestoneId::SdCardDetect),
            ),
            (Phase::MilestoneCreate { id }, Event::EventCreated(res)) => match res {
                Ok(ev) => (
                    BootFlow {
                        phase: Phase::MilestoneSignal { id, event: ev },
                        slot,
                        open_events: 1,
                    },
                    Action::SignalEvent(ev),
                ),
                Err(e) => halted(slot, Outcome::Failed(e)),
            },
            (Phase::MilestoneSignal { id, event: ev }, Event::Completed(res)) => (
                BootFlow {
                    phase: Phase::MilestoneClose { id, event: ev, signal_result: res },
                    slot,
                    open_events: 1,
                },
                Action::CloseEvent(ev),
            ),
            (Phase::MilestoneClose { id, signal_result, .. }, Event::Completed(close_res)) => match signal_result {
                Err(e) => halted(slot, Outcome::Failed(e)),
                Ok(_) => match close_res {
                    Err(e) => halted(slot, Outcome::Failed(e)),
                    Ok(_) => match id {
                        MilestoneId::SdCardDetect => (
                            BootFlow { phase: Phase::ConnectLocate, slot, open_events: 0 },
                            Action::LocateAllHandles,
                        ),
                        MilestoneId::ReadyToBoot => (
                            BootFlow {
                                phase: Phase::MilestoneCreate { id: MilestoneId::EndOfDxe },
                                slot,
                                open_events: 0,
                            },
                            Action::CreateMilestoneEvent(MilestoneId::EndOfDxe),
                        ),
                        MilestoneId::EndOfDxe => (
                            BootFlow { phase: Phase::FsLocate, slot, open_events: 0 },
                            Action::LocateHandles(ProtocolId::SimpleFileSystem),
                        ),
                    },
                },
            },
            (Phase::ConnectLocate, Event::Handles(res)) => match res {
                Ok(handles) => if handles.len() == 0 {
                    (
                        BootFlow {
                            phase: Phase::MilestoneCreate { id: MilestoneId::ReadyToBoot },
                            slot,
                            open_events: 0,
                        },
                        Action::CreateMilestoneEvent(MilestoneId::ReadyToBoot),
                    )
                } else {
                    let first = handles[0];
                    (
                        BootFlow { phase: Phase::Connecting { handles, index: 0 }, slot, open_events: 0 },
                        Action::ConnectController(first),
                    )
                },
                Err(e) => halted(slot, Outcome::Failed(e)),
            },
            (Phase::Connecting { handles, index }, Event::Completed(_)) => {
                let count = handles.len();
                if index + 1 < count {
                let next = handles[index + 1];
                (
                    BootFlow {
                        phase: Phase::Connecting { handles, index: index + 1 },
                        slot,
                        open_events: 0,
                    },
                    Action::ConnectController(next),
                )
            } else {
                (
                    BootFlow {
                        phase: Phase::MilestoneCreate { id: MilestoneId::ReadyToBoot },
                        slot,
                        open_events: 0,
                    },
                    Action::CreateMilestoneEvent(MilestoneId::ReadyToBoot),
                )
            }
            },
            (Phase::FsLocate, Event::Handles(res)) => match res {
                Ok(handles) => if handles.len() == 0 {
                    halted(slot, Outcome::ImageNotFound)
                } else {
                    let first = handles[0];
                    (
                        BootFlow { phase: Phase::ProbePath { handles, index: 0 }, slot, open_events: 0 },
                        Action::OpenDevicePath(first),
                    )
                },
                Err(e) => halted(slot, Outcome::Failed(e)),
            },
            (Phase::ProbePath { handles, index }, Event::PathOpened(res)) => match res {
                Ok(descriptor) => {
                    let current = handles[index];
                    (
                        BootFlow {
                            phase: Phase::ProbeFs { handles, index, descriptor },
                            slot,
                            open_events: 0,
                        },
                        Action::OpenFileSystem(current),
                    )
                },
                Err(_) => advance_probe(slot, handles, index),
            },
            (Phase::ProbeFs { handles, index, descriptor }, Event::Completed(res)) => match res {
                Ok(_) => {
                    let current = handles[index];
                    (
                        BootFlow {
                            phase: Phase::ProbeVolume { handles, index, descriptor },
                            slot,
                            open_events: 0,
                        },
                        Action::OpenVolume(current),
                    )
                },
                Err(_) => advance_probe(slot, handles, index),
            },
            (Phase::ProbeVolume { handles, index, descriptor }, Event::Completed(res)) => match res {
                Ok(_) => {
                    let current = handles[index];
                    (
                        BootFlow {
                            phase: Phase::ProbeFile { handles, index, descriptor },
                            slot,
                            open_events: 0,
                        },
                        Action::OpenBootFile(current),
                    )
                },
                Err(_) => advance_probe(slot, handles, index),
            },
            (Phase::ProbeFile { handles, index, descriptor }, Event::Completed(res)) => match res {
                Ok(_) => if descriptor.len() < 2 {
                    halted(slot, Outcome::ShortDevicePath)
                } else {
                    (
                        BootFlow { phase: Phase::Load, slot, open_events: 0 },
                        Action::LoadImage(descriptor),
                    )
                },
                Err(_) => advance_probe(slot, handles, index),
            },
            (Phase::Load, Event::ImageLoaded(res)) => match res {
                Ok(image) => (
                    BootFlow { phase: Phase::Start { image }, slot, open_events: 0 },
                    Action::StartImage(image),
                ),
                Err(e) => halted(slot, Outcome::Failed(e)),
            },
            (Phase::Start { .. }, Event::Completed(res)) => match res {
                Ok(_) => (
                    BootFlow { phase: Phase::Stalling, slot, open_events: 0 },
                    Action::Stall(STALL_MICROSECONDS),
                ),
                Err(e) => halted(slot, Outcome::Failed(e)),
            },
            (Phase::Stalling, Event::Completed(_)) => halted(slot, Outcome::ReturnedAfterStart),
            _ => unreached(),
        }
    }

    /// The terminal outcome, once the machine has halted.
    pub fn outcome(&self) -> (r: Option<Outcome>)
        ensures
            r == (match self.phase {
                Phase::Done { outcome } => Some(outcome),
                _ => None::<Outcome>,
            }),
    {
        match &self.phase {
            Phase::Done { outcome } => Some(*outcome),
            _ => None,
        }
    }

    /// The machine after answering a whole sequence of events, one step each.
    pub open spec fn run_state(self, events: Seq<Event>) -> BootFlow
        decreases events.len(),
    {
        if events.len() == 0 {
            self
        } else {
            self.step_spec(events[0]).0.run_state(events.drop_first())
        }
    }

    /// The actions issued while answering a whole sequence of events.
    pub open spec fn run_actions(self, events: Seq<Event>) -> Seq<Action>
        decreases events.len(),
    {
        if events.len() == 0 {
            Seq::empty()
        } else {
            seq![self.step_spec(events[0]).1] + self.step_spec(events[0]).0.run_actions(
                events.drop_first(),
            )
        }
    }

    /// Every event of the sequence answers the then-outstanding action of a
    /// well-formed, non-terminal machine.
    pub open spec fn run_ok(self, events: Seq<Event>) -> bool
        decreases events.len(),
    {
        events.len() == 0 || (self.wf() && self.accepts(events[0]) && self.step_spec(
            events[0],
        ).0.run_ok(events.drop_first()))
    }
}

} // verus!
