//! The resource-acquisition state machine: a connection is built by three
//! OS steps in strict order (open memory object, map view, open event), any
//! failure rolls back everything already acquired, and teardown releases
//! the three resources in strict reverse order. The machine decides; a
//! platform driver performs each OS call and reports its outcome back.

use crate::sdk::SdkError;
use crate::sdk::spec_map_error;
use crate::sdk::spec_open_error;
use vstd::prelude::*;

verus! {

/// One of the three OS resources the client owns, carrying the raw handle
/// value (or view base address) a release directive applies to.
#[derive(Clone, Copy, Debug, PartialEq, Eq, Structural)]
pub enum Resource {
    /// The readiness event handle.
    Event(u64),
    /// The mapped view, by its base address.
    View(u64),
    /// The shared memory object handle.
    Memory(u64),
}

/// Teardown rank: the event is released first, then the view, then the
/// memory handle — the strict reverse of acquisition order.
pub open spec fn release_rank(r: Resource) -> int {
    match r {
        Resource::Event(_) => 0,
        Resource::View(_) => 1,
        Resource::Memory(_) => 2,
    }
}

/// One step of the acquisition sequence.
#[derive(Clone, Copy, Debug, PartialEq, Eq, Structural)]
pub enum Step {
    /// Open the named shared memory object, read-only.
    OpenMemory,
    /// Map a read-only view over the whole memory object.
    MapView,
    /// Open the named readiness event, wait-only.
    OpenEvent,
}

/// Where the client stands in its lifecycle.
#[derive(Clone, Copy, Debug, PartialEq, Eq, Structural)]
pub enum Phase {
    /// Nothing acquired yet.
    Start,
    /// The memory object handle is held.
    MemoryOpened,
    /// The memory handle and the mapped view are held.
    ViewMapped,
    /// All three resources are held: the client is usable.
    Connected,
    /// Everything has been released. Terminal.
    Closed,
}

/// A failed construction attempt: which step failed, the semantic error to
/// surface to the caller, and the rollback releases the driver must
/// perform, already in teardown order.
#[derive(Debug)]
pub struct Failure {
    /// The acquisition step whose outcome was a failure.
    pub step: Step,
    /// The semantic error to surface for that step.
    pub error: SdkError,
    /// Exactly the resources acquired by earlier steps, in the order they
    /// must be released.
    pub releases: Vec<Resource>,
}

/// The acquisition state machine. Handles are opaque raw values recorded
/// from the driver's outcomes; the machine never interprets them beyond
/// the non-null invariant.
#[derive(Clone, Copy, Debug)]
pub struct Acquisition {
    /// Lifecycle phase.
    pub phase: Phase,
    /// Shared memory object handle; meaningful from `MemoryOpened` on.
    pub memory: u64,
    /// Base address of the mapped view; meaningful from `ViewMapped` on.
    pub view_base: u64,
    /// Byte length of the mapped view; meaningful from `ViewMapped` on.
    pub view_len: usize,
    /// Readiness event handle; meaningful in `Connected`.
    pub event: u64,
}

impl Acquisition {
    /// Every held resource has a non-null handle.
    pub open spec fn wf(self) -> bool {
        match self.phase {
            Phase::Start => true,
            Phase::MemoryOpened => self.memory != 0,
            Phase::ViewMapped => self.memory != 0 && self.view_base != 0,
            Phase::Connected => self.memory != 0 && self.view_base != 0 && self.event != 0,
            Phase::Closed => true,
        }
    }

    /// The resources currently held, listed in the order a teardown must
    /// release them: event, then view, then memory handle.
    pub open spec fn held(self) -> Seq<Resource> {
        match self.phase {
            Phase::Start => Seq::<Resource>::empty(),
            Phase::MemoryOpened => seq![Resource::Memory(self.memory)],
            Phase::ViewMapped => seq![
                Resource::View(self.view_base),
                Resource::Memory(self.memory),
            ],
            Phase::Connected => seq![
                Resource::Event(self.event),
                Resource::View(self.view_base),
                Resource::Memory(self.memory),
            ],
            Phase::Closed => Seq::<Resource>::empty(),
        }
    }

    /// Start an acquisition: nothing is held yet.
    pub fn begin() -> (a: Acquisition)
        ensures
            a.phase == Phase::Start,
            a.wf(),
    {
        Acquisition { phase: Phase::Start, memory: 0, view_base: 0, view_len: 0, event: 0 }
    }

    /// The step the driver must perform next, or `None` once the client is
    /// connected or closed. `MapView` applies to the held memory handle.
    pub fn pending_step(&self) -> (s: Option<Step>)
        ensures
            self.phase == Phase::Start ==> s == Some(Step::OpenMemory),
            self.phase == Phase::MemoryOpened ==> s == Some(Step::MapView),
            self.phase == Phase::ViewMapped ==> s == Some(Step::OpenEvent),
            self.phase == Phase::Connected || self.phase == Phase::Closed ==> s == None::<Step>,
    {
        match self.phase {
            Phase::Start => Some(Step::OpenMemory),
            Phase::MemoryOpened => Some(Step::MapView),
            Phase::ViewMapped => Some(Step::OpenEvent),
            Phase::Connected => None,
            Phase::Closed => None,
        }
    }

    /// Record the outcome of opening the named memory object: `Ok` carries
    /// the non-null handle, `Err` the raw OS status. On failure nothing was
    /// acquired, so the rollback releases nothing, and the raw status is
    /// translated to its semantic error.
    pub fn on_memory_opened(self, outcome: Result<u64, u32>) -> (r: Result<Acquisition, Failure>)
        requires
            self.wf(),
            self.phase == Phase::Start,
            outcome matches Ok(h) ==> h != 0,
        ensures
            outcome matches Ok(h) ==> (r matches Ok(a) && a.wf() && a.phase
                == Phase::MemoryOpened && a.memory == h),
            outcome matches Err(c) ==> (r matches Err(f) && f.step == Step::OpenMemory && f.error
                == spec_open_error(c) && f.releases@ == self.held()),
    {
        match outcome {
            Ok(h) => Ok(Acquisition { phase: Phase::MemoryOpened, memory: h, ..self }),
            Err(c) => {
                let releases: Vec<Resource> = Vec::new();
                Err(Failure { step: Step::OpenMemory, error: crate::sdk::open_error(c), releases })
            },
        }
    }

    /// Record the outcome of mapping a view over the held memory handle:
    /// `Ok` carries the non-null base address and the byte length of the
    /// mapped region, `Err` the raw OS status. On failure the rollback
    /// releases the memory handle acquired before it.
    pub fn on_view_mapped(self, outcome: Result<(u64, usize), u32>) -> (r: Result<
        Acquisition,
        Failure,
    >)
        requires
            self.wf(),
            self.phase == Phase::MemoryOpened,
            outcome matches Ok(v) ==> v.0 != 0,
        ensures
            outcome matches Ok(v) ==> (r matches Ok(a) && a.wf() && a.phase == Phase::ViewMapped
                && a.memory == self.memory && a.view_base == v.0 && a.view_len == v.1),
            outcome matches Err(c) ==> (r matches Err(f) && f.step == Step::MapView && f.error
                == spec_map_error(c) && f.releases@ == self.held()),
    {
        match outcome {
            Ok(v) => Ok(
                Acquisition { phase: Phase::ViewMapped, view_base: v.0, view_len: v.1, ..self },
            ),
            Err(c) => {
                let mut releases: Vec<Resource> = Vec::new();
                releases.push(Resource::Memory(self.memory));
                proof {
                    assert(releases@ =~= self.held());
                }
                Err(Failure { step: Step::MapView, error: crate::sdk::map_error(c), releases })
            },
        }
    }

    /// Record the outcome of opening the named readiness event: `Ok`
    /// carries the non-null handle, `Err` the raw OS status. On failure the
    /// rollback releases the view first and the memory handle second.
    pub fn on_event_opened(self, outcome: Result<u64, u32>) -> (r: Result<Acquisition, Failure>)
        requires
            self.wf(),
            self.phase == Phase::ViewMapped,
            outcome matches Ok(h) ==> h != 0,
        ensures
            outcome matches Ok(h) ==> (r matches Ok(a) && a.wf() && a.phase == Phase::Connected
                && a.memory == self.memory && a.view_base == self.view_base && a.view_len
                == self.view_len && a.event == h),
            outcome matches Err(c) ==> (r matches Err(f) && f.step == Step::OpenEvent && f.error
                == spec_open_error(c) && f.releases@ == self.held()),
    {
        match outcome {
            Ok(h) => Ok(Acquisition { phase: Phase::Connected, event: h, ..self }),
            Err(c) => {
                let mut releases: Vec<Resource> = Vec::new();
                releases.push(Resource::View(self.view_base));
                releases.push(Resource::Memory(self.memory));
                proof {
                    assert(releases@ =~= self.held());
                }
                Err(Failure { step: Step::OpenEvent, error: crate::sdk::open_error(c), releases })
            },
        }
    }

    /// Release the client, explicitly or at end of scope, from any phase:
    /// the result is the terminal `Closed` state together with exactly the
    /// resources that were held, in teardown order. Release is best-effort
    /// on the driver's side: a failed release must not stop the others, and
    /// no release failure is surfaced. Closing a closed client releases
    /// nothing.
    pub fn close(self) -> (r: (Acquisition, Vec<Resource>))
        requires
            self.wf(),
        ensures
            r.0.phase == Phase::Closed,
            r.0.wf(),
            r.1@ == self.held(),
    {
        let mut releases: Vec<Resource> = Vec::new();
        match self.phase {
            Phase::Start => (),
            Phase::MemoryOpened => {
                releases.push(Resource::Memory(self.memory));
            },
            Phase::ViewMapped => {
                releases.push(Resource::View(self.view_base));
                releases.push(Resource::Memory(self.memory));
            },
            Phase::Connected => {
                releases.push(Resource::Event(self.event));
                releases.push(Resource::View(self.view_base));
                releases.push(Resource::Memory(self.memory));
            },
            Phase::Closed => (),
        }
        proof {
            assert(releases@ =~= self.held());
        }
        (Acquisition { phase: Phase::Closed, ..self }, releases)
    }
}

/// Teardown ordering law: whatever phase a client is in, the resources it
/// holds — which are exactly what `close` and every rollback release —
/// stand in strictly increasing teardown rank: the event handle before the
/// view, the view before the memory handle.
pub proof fn lemma_teardown_order(a: Acquisition)
    requires
        a.wf(),
    ensures
        forall|i: int, j: int|
            0 <= i < j < a.held().len() ==> release_rank(a.held()[i]) < release_rank(a.held()[j]),
{
}

/// Release-once law: no teardown path names the same resource twice; in
/// particular a view is never unmapped twice and a handle never closed
/// twice by the same teardown.
pub proof fn lemma_release_once(a: Acquisition)
    requires
        a.wf(),
    ensures
        forall|i: int, j: int|
            0 <= i < a.held().len() && 0 <= j < a.held().len() && i != j ==> a.held()[i]
                != a.held()[j],
{
    lemma_teardown_order(a);
    assert forall|i: int, j: int|
        0 <= i < a.held().len() && 0 <= j < a.held().len() && i != j implies a.held()[i]
        != a.held()[j] by {
        if i < j {
            assert(release_rank(a.held()[i]) < release_rank(a.held()[j]));
        } else {
            assert(release_rank(a.held()[j]) < release_rank(a.held()[i]));
        }
    }
}

} // verus!
