//! Events and effects of the boot orchestrator.

use vstd::prelude::*;

verus! {

/// A component of the boot chain.
#[derive(Debug, Clone, Copy, PartialEq, Eq, Structural)]
pub struct ComponentId {
    id: u8,
}

impl ComponentId {
    /// The number of the component.
    pub closed spec fn number(self) -> u8 {
        self.id
    }

    pub fn new(id: u8) -> (c: Self)
        ensures
            c.number() == id,
    {
        ComponentId { id }
    }

    /// The number of the component.
    pub fn get(self) -> (id: u8)
        ensures
            id == self.number(),
    {
        self.id
    }
}

/// What drives the orchestrator.
#[non_exhaustive]
#[derive(Debug, Clone, Copy, PartialEq, Eq, Structural)]
pub enum Event {
    /// An update was requested.
    UpdateRequest,
    /// The staged image passed authentication.
    UpdateVerified,
    /// The staged image is to be discarded.
    UpdateRejected,
    /// The boot watchdog of a component fired.
    Timeout(ComponentId),
    /// The commit watchdog fired.
    CommitTimeout,
}

/// What the orchestrator has its platform do.
#[derive(Debug, Clone, Copy, PartialEq, Eq, Structural)]
pub enum Effect {
    ReadFirmware(ComponentId),
    VerifyFirmware(ComponentId),
    ReleaseReset(ComponentId),
    AssertReset(ComponentId),
    SignAttestation,
    CommitSvnFloor(ComponentId),
    RecoverComponent { id: ComponentId },
    ReportIsolated(ComponentId),
    ReportRecoveryFailed(ComponentId),
    StageUpdate,
    AuthenticateUpdate,
    ActivateUpdate,
    DiscardStaged,
    ReportUpdateDeferred,
    ReportUpdateAborted,
    LatchLockdown,
    Emit(Event),
}

} // verus!
