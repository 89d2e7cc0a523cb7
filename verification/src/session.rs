//! The life of the background worker as the coordinator keeps track of it.

use vstd::prelude::*;
use std::sync::Arc;
use std::sync::atomic::AtomicBool;
use std::sync::atomic::Ordering;
use crate::mapping::KeyMapping;

verus! {

/// Where the coordinator stands with its worker.
#[derive(Clone, Copy, Debug, PartialEq, Eq, Structural)]
pub enum SessionPhase {
    /// No worker is out.
    Idle,
    /// A worker was started and has not been told to stop.
    Running,
    /// A worker was told to stop and has not been let go of.
    StoppingRequested,
}

/// The flag that tells a worker to go on, at the coordinator's end. The
/// coordinator alone writes it, so it knows what the flag says; the worker
/// watches it through a handle of its own.
pub struct RunFlag {
    flag: Arc<AtomicBool>,
    raised: bool,
}

impl View for RunFlag {
    type V = bool;

    /// Whether the flag says "go on".
    closed spec fn view(&self) -> bool {
        self.raised
    }
}

impl RunFlag {
    /// The flag itself, which the worker's handle shares.
    pub closed spec fn handle(&self) -> Arc<AtomicBool> {
        self.flag
    }

    /// A flag that says "stop", for a coordinator without a worker.
    pub fn lowered() -> (r: Self)
        ensures
            !r@,
    {
        RunFlag { flag: Arc::new(AtomicBool::new(false)), raised: false }
    }

    /// A new flag that says "go on".
    pub fn raised() -> (r: Self)
        ensures
            r@,
    {
        RunFlag { flag: Arc::new(AtomicBool::new(true)), raised: true }
    }

    /// Whether the flag says "go on".
    pub fn is_raised(&self) -> (r: bool)
        ensures
            r == self@,
    {
        self.raised
    }

    /// A handle to the flag for the worker to watch.
    pub fn watch(&self) -> (r: Arc<AtomicBool>)
        ensures
            r == self.handle(),
    {
        self.flag.clone()
    }

    /// Makes the flag say "stop": the worker that watches it stops when it
    /// next looks.
    pub fn lower(&mut self)
        ensures
            !final(self)@,
            final(self).handle() == old(self).handle(),
    {
        self.flag.store(false, Ordering::SeqCst);
        self.raised = false;
    }
}

/// What a worker is started with: a copy of the mapping and a handle to the
/// flag that tells it to go on.
pub struct WorkerLaunch {
    pub mapping: KeyMapping,
    pub running: Arc<AtomicBool>,
}

} // verus!
