//! The determinator decides what work follows from an activity.
//!
//! Each activity that reaches it becomes exactly one job for its worker.
use vstd::prelude::*;

use crate::messages::{Activity, Job};

verus! {

/// Turns activities into jobs for a worker.
///
/// `W` is the handle through which jobs reach the worker; the determinator
/// only keeps it and hands it out again.
pub struct Determinator<W> {
    worker: W,
}

impl<W> Determinator<W> {
    /// The worker that receives this determinator's jobs.
    pub closed spec fn worker_of(&self) -> W {
        self.worker
    }

    /// A determinator that hands its jobs to `worker`.
    pub fn start(worker: W) -> (determinator: Self)
        ensures
            determinator.worker_of() == worker,
    {
        Determinator { worker }
    }

    /// The worker that receives this determinator's jobs.
    pub fn worker(&self) -> (worker: &W)
        ensures
            *worker == self.worker_of(),
    {
        &self.worker
    }

    /// Handles one activity: the result is the one job to hand to the worker.
    pub fn handle(&self, msg: Activity) -> (job: Job)
        ensures
            job == Job,
    {
        let _ = msg;
        Job
    }
}

} // verus!
