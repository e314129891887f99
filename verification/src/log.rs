//! Per-worker observability state: the current stage marker, the start time
//! of the latest external spawn, a bounded ring of the most recent stdout
//! lines and an unbounded list of stderr lines. One worker owns its log; the
//! surrounding program serializes all access through one lock around the
//! whole structure.

use crate::ring;
use crate::TaskKind;
use circular_buffer::CircularBuffer;
use vstd::prelude::*;

verus! {

/// Whether setting this marker starts a new external spawn, which resets the
/// start time and clears the stderr log.
pub open spec fn starts_spawn(k: TaskKind) -> bool {
    k is MxdysEnum || k is SligockiEnum
}

/// Elapsed milliseconds between a recorded start and a later reading of the
/// clock; a clock that moved backwards reads as no time elapsed.
pub open spec fn elapsed_since(start_ms: u64, now_ms: u64) -> u64 {
    if now_ms >= start_ms {
        (now_ms - start_ms) as u64
    } else {
        0
    }
}

/// The state a worker reports about its current task.
pub struct TaskInfo {
    kind: TaskKind,
    start_ms: u64,
    out_buf: CircularBuffer<20, String>,
    err_buf: Vec<String>,
}

impl TaskInfo {
    /// The current stage marker.
    pub closed spec fn marker(&self) -> TaskKind {
        self.kind
    }

    /// The recorded start of the latest external spawn, in milliseconds.
    pub closed spec fn start_time_ms(&self) -> u64 {
        self.start_ms
    }

    /// The captured stdout lines, oldest first.
    pub closed spec fn out_lines(&self) -> Seq<Seq<char>> {
        ring::ring_contents(self.out_buf)
    }

    /// The captured stderr lines, oldest first.
    pub closed spec fn err_lines(&self) -> Seq<Seq<char>> {
        self.err_buf@.map_values(|s: String| s@)
    }

    /// The stdout ring never holds more than 20 lines.
    pub closed spec fn wf(&self) -> bool {
        self.out_lines().len() <= 20
    }

    /// A fresh log: no task yet, no captured output.
    pub fn new(now_ms: u64) -> (r: TaskInfo)
        ensures
            r.wf(),
            r.marker() is Uninit,
            r.start_time_ms() == now_ms,
            r.out_lines() == Seq::<Seq<char>>::empty(),
            r.err_lines() == Seq::<Seq<char>>::empty(),
    {
        let r = TaskInfo {
            kind: TaskKind::Uninit,
            start_ms: now_ms,
            out_buf: ring::ring_new(),
            err_buf: Vec::new(),
        };
        proof {
            assert(r.err_lines() =~= Seq::<Seq<char>>::empty());
        }
        r
    }

    /// Sets the stage marker; a marker that starts a new external spawn also
    /// resets the start time and clears the stderr log. The stdout ring is
    /// never touched.
    pub fn begin_stage(&mut self, kind: TaskKind, now_ms: u64)
        ensures
            final(self).marker() == kind,
            final(self).out_lines() == old(self).out_lines(),
            final(self).wf() == old(self).wf(),
            starts_spawn(kind) ==> final(self).start_time_ms() == now_ms && final(self).err_lines()
                == Seq::<Seq<char>>::empty(),
            !starts_spawn(kind) ==> final(self).start_time_ms() == old(self).start_time_ms()
                && final(self).err_lines() == old(self).err_lines(),
    {
        let spawning = match kind {
            TaskKind::MxdysEnum(_) => true,
            TaskKind::SligockiEnum(_) => true,
            _ => false,
        };
        self.kind = kind;
        if spawning {
            self.start_ms = now_ms;
            self.err_buf.clear();
            proof {
                assert(self.err_lines() =~= Seq::<Seq<char>>::empty());
            }
        }
    }

    /// Appends one captured stdout line into the bounded ring: the line goes
    /// to the back, and once the ring holds 20 lines the oldest is evicted.
    pub fn append_stdout(&mut self, line: String)
        requires
            old(self).wf(),
        ensures
            final(self).wf(),
            final(self).out_lines() == ring::ring_step(old(self).out_lines(), line@),
            final(self).out_lines().len() <= 20,
            final(self).marker() == old(self).marker(),
            final(self).start_time_ms() == old(self).start_time_ms(),
            final(self).err_lines() == old(self).err_lines(),
    {
        ring::ring_push_back(&mut self.out_buf, line);
    }

    /// Appends one captured stderr line; the stderr log is unbounded.
    pub fn append_stderr(&mut self, line: String)
        ensures
            final(self).err_lines() == old(self).err_lines().push(line@),
            final(self).out_lines() == old(self).out_lines(),
            final(self).wf() == old(self).wf(),
            final(self).marker() == old(self).marker(),
            final(self).start_time_ms() == old(self).start_time_ms(),
    {
        self.err_buf.push(line);
        proof {
            assert(self.err_lines() =~= old(self).err_lines().push(self.err_buf@.last()@));
        }
    }

    /// A locked read for status reporting: the marker, the time elapsed since
    /// the last spawn started, and the most recent stdout line, if any.
    pub fn snapshot(&self, now_ms: u64) -> (r: (TaskKind, u64, Option<String>))
        ensures
            r.0 == self.marker(),
            r.1 == elapsed_since(self.start_time_ms(), now_ms),
            match r.2 {
                Some(s) => self.out_lines().len() > 0 && s@ == self.out_lines().last(),
                None => self.out_lines().len() == 0,
            },
    {
        let elapsed = if now_ms >= self.start_ms {
            now_ms - self.start_ms
        } else {
            0
        };
        (self.kind, elapsed, ring::ring_back(&self.out_buf))
    }

    /// The most recent stdout line, if any.
    pub fn last_stdout(&self) -> (r: Option<String>)
        ensures
            match r {
                Some(s) => self.out_lines().len() > 0 && s@ == self.out_lines().last(),
                None => self.out_lines().len() == 0,
            },
    {
        ring::ring_back(&self.out_buf)
    }

    /// All captured stdout lines, oldest first.
    pub fn stdout_lines(&self) -> (r: Vec<String>)
        ensures
            r@.map_values(|s: String| s@) == self.out_lines(),
    {
        ring::ring_to_vec(&self.out_buf)
    }

    /// All captured stderr lines, oldest first.
    pub fn stderr_lines(&self) -> (r: Vec<String>)
        ensures
            r@.map_values(|s: String| s@) == self.err_lines(),
    {
        let mut r: Vec<String> = Vec::new();
        let mut idx: usize = 0;
        while idx < self.err_buf.len()
            invariant
                0 <= idx <= self.err_buf@.len(),
                r@.len() == idx,
                forall|i: int| 0 <= i < idx ==> r@[i]@ == self.err_buf@[i]@,
            decreases self.err_buf@.len() - idx,
        {
            let line = self.err_buf[idx].clone();
            assert(line@ == self.err_buf@[idx as int]@);
            r.push(line);
            idx = idx + 1;
        }
        proof {
            assert(r@.map_values(|s: String| s@) =~= self.err_lines());
        }
        r
    }
}

} // verus!
