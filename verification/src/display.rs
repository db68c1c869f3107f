//! The optional display-power capability: the process-wide published
//! interface pointer and the shutdown-time teardown decision.

use vstd::prelude::*;
use crate::types::DisplayPowerState;

verus! {

/// Process-wide, single-writer-then-multi-reader storage for the
/// display-power interface pointer.
///
/// Invariant: before being written it reads as absent; once written to a
/// valid pointer it is never cleared or reassigned. The write-once
/// discipline is enforced by [`ProtocolSlot::publish`], which only an absent
/// slot admits.
#[derive(Clone, Copy, Debug, PartialEq, Eq)]
pub struct ProtocolSlot {
    pub interface: Option<u64>,
}

impl ProtocolSlot {
    /// Whether no interface pointer has been published yet.
    pub open spec fn spec_absent(self) -> bool {
        self.interface is None
    }

    /// A fresh slot: reads as absent until the one writer publishes.
    pub fn new() -> (r: ProtocolSlot)
        ensures
            r.spec_absent(),
    {
        ProtocolSlot { interface: None }
    }

    /// Publish a valid interface pointer. Only an absent slot may be
    /// written, so a published pointer is never reassigned.
    pub fn publish(&mut self, interface: u64)
        requires
            old(self).spec_absent(),
        ensures
            final(self).interface == Some(interface),
    {
        self.interface = Some(interface);
    }

    /// The teardown-time load: the published pointer, if any.
    pub fn read(&self) -> (r: Option<u64>)
        ensures
            r == self.interface,
    {
        self.interface
    }
}

/// The one firmware call the teardown callback may issue: a set-state
/// request through a published interface pointer.
#[derive(Clone, Copy, Debug, PartialEq, Eq)]
pub struct DisplayCommand {
    pub interface: u64,
    pub target: DisplayPowerState,
}

/// Decide the shutdown-time teardown work from the published slot.
///
/// Runs in a restricted context where diagnostics are unavailable, so it
/// returns at most one command and nothing else: an absent slot means no
/// operation at all; a published slot means exactly one Off request through
/// the published pointer, whose result the caller discards.
pub fn disable_display_callback(slot: &ProtocolSlot) -> (r: Option<DisplayCommand>)
    ensures
        match slot.interface {
            None => r is None,
            Some(p) => r == Some(DisplayCommand { interface: p, target: DisplayPowerState::Off }),
        },
{
    match slot.interface {
        None => None,
        Some(p) => Some(DisplayCommand { interface: p, target: DisplayPowerState::Off }),
    }
}

} // verus!
