//! The message type carried by the pool's queue channel.

use vstd::prelude::*;

verus! {

/// A message on the queue channel: either a unit of work, identified by the
/// ordinal the pool gave it at submission, or the stop signal that tells a
/// worker to terminate.
#[derive(Clone, Copy, Debug, PartialEq, Eq, Structural)]
pub enum Message {
    NewJob(usize),
    Terminate,
}

impl Message {
    /// Whether this message carries a unit of work.
    pub open spec fn is_job(self) -> bool {
        self is NewJob
    }

    /// The submission ordinal of the work this message carries.
    pub open spec fn job_id(self) -> usize
        recommends
            self is NewJob,
    {
        self->0
    }
}

} // verus!
