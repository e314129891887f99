//! A bounded pool of workers draining a shared queue of numbered tasks,
//! where each task drives a two-stage external pipeline and reports live
//! progress through a per-worker output log.

use vstd::prelude::*;

pub mod digits;
pub mod log;
pub mod pipeline;
pub mod queue;
pub mod ring;
pub mod status;

verus! {

/// What a worker is currently doing. Exactly one worker owns its marker;
/// `Done` is terminal and set once, when the queue yields no further work.
#[derive(Debug, PartialEq, Eq, Structural, Clone, Copy)]
pub enum TaskKind {
    Uninit,
    MxdysEnum(u32),
    SligockiEnum(u32),
    MoveFile,
    Done,
}

impl TaskKind {
    /// A worker with this marker has terminated.
    pub fn is_done_marker(&self) -> (r: bool)
        ensures
            r <==> *self is Done,
    {
        match self {
            TaskKind::Done => true,
            _ => false,
        }
    }
}

} // verus!
