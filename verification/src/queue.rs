//! The shared queue of pending task identifiers, backed by an outside
//! lock-free queue. Under exclusive access the queue behaves as a plain
//! first-in-first-out sequence, which is what the contracts state; the
//! surrounding program may also drive it concurrently, where only the
//! queue's own internal synchronization orders the calls.

use crossbeam_queue::SegQueue;
use vstd::prelude::*;

verus! {

#[verifier::external_type_specification]
#[verifier::external_body]
#[verifier::reject_recursive_types(T)]
pub struct ExSegQueue<T>(SegQueue<T>);

/// The pending task identifiers, in the order they were pushed.
pub uninterp spec fn queue_contents(q: SegQueue<u32>) -> Seq<u32>;

/// Relies on `SegQueue::new`: returns an empty queue.
#[verifier::external_body]
pub(crate) fn task_queue_new() -> (r: SegQueue<u32>)
    ensures
        queue_contents(r) == Seq::<u32>::empty(),
{
    SegQueue::new()
}

/// Relies on `SegQueue::push`: appends the value at the tail of the queue.
#[verifier::external_body]
pub(crate) fn task_queue_push(q: &mut SegQueue<u32>, id: u32)
    ensures
        queue_contents(*final(q)) == queue_contents(*old(q)).push(id),
{
    q.push(id);
}

/// Relies on `SegQueue::pop`: removes and returns the element at the head of
/// the queue, or `None` when the queue is empty. It never blocks.
#[verifier::external_body]
pub(crate) fn task_queue_pop(q: &mut SegQueue<u32>) -> (r: Option<u32>)
    ensures
        match r {
            Some(id) => queue_contents(*old(q)).len() > 0 && id == queue_contents(*old(q))[0]
                && queue_contents(*final(q)) == queue_contents(*old(q)).drop_first(),
            None => queue_contents(*old(q)).len() == 0 && queue_contents(*final(q))
                == queue_contents(*old(q)),
        },
{
    q.pop()
}

/// Relies on `SegQueue::is_empty`: whether the queue holds no element.
#[verifier::external_body]
pub(crate) fn task_queue_is_empty(q: &SegQueue<u32>) -> (r: bool)
    ensures
        r <==> queue_contents(*q).len() == 0,
{
    q.is_empty()
}

/// Discards every pending task, leaving the queue empty.
pub fn clear_pending_jobs(q: &mut SegQueue<u32>)
    ensures
        queue_contents(*final(q)) == Seq::<u32>::empty(),
{
    while !task_queue_is_empty(q)
        decreases queue_contents(*q).len(),
    {
        task_queue_pop(q);
    }
    proof {
        assert(queue_contents(*q) =~= Seq::<u32>::empty());
    }
}

/// Builds a queue already seeded with the given task identifiers, in order.
pub fn seeded_queue(ids: &Vec<u32>) -> (q: SegQueue<u32>)
    ensures
        queue_contents(q) == ids@,
{
    let mut q = task_queue_new();
    let mut idx: usize = 0;
    while idx < ids.len()
        invariant
            0 <= idx <= ids@.len(),
            queue_contents(q) == ids@.subrange(0, idx as int),
        decreases ids@.len() - idx,
    {
        task_queue_push(&mut q, ids[idx]);
        proof {
            assert(queue_contents(q) =~= ids@.subrange(0, idx + 1));
        }
        idx = idx + 1;
    }
    proof {
        assert(queue_contents(q) =~= ids@);
    }
    q
}

/// Pops one pending task, or reports exhaustion: `Some` returns the oldest
/// pending identifier and removes it; `None` means the queue was empty, the
/// signal on which a worker terminates.
pub fn next_task(q: &mut SegQueue<u32>) -> (r: Option<u32>)
    ensures
        match r {
            Some(id) => queue_contents(*old(q)).len() > 0 && id == queue_contents(*old(q))[0]
                && queue_contents(*final(q)) == queue_contents(*old(q)).drop_first(),
            None => queue_contents(*old(q)).len() == 0 && queue_contents(*final(q))
                == queue_contents(*old(q)),
        },
{
    task_queue_pop(q)
}

/// Pops until exhaustion: every pushed identifier comes out exactly once, in
/// the order it was pushed, and the queue is left empty.
pub fn drain_all(q: &mut SegQueue<u32>) -> (ids: Vec<u32>)
    ensures
        ids@ == queue_contents(*old(q)),
        queue_contents(*final(q)) == Seq::<u32>::empty(),
{
    let mut ids: Vec<u32> = Vec::new();
    loop
        invariant
            ids@ + queue_contents(*q) == queue_contents(*old(q)),
        ensures
            ids@ == queue_contents(*old(q)),
            queue_contents(*q) == Seq::<u32>::empty(),
        decreases queue_contents(*q).len(),
    {
        match task_queue_pop(q) {
            Some(id) => {
                ids.push(id);
                proof {
                    assert(ids@ + queue_contents(*q) =~= queue_contents(*old(q)));
                }
            },
            None => {
                proof {
                    assert(queue_contents(*q) =~= Seq::<u32>::empty());
                    assert(ids@ =~= queue_contents(*old(q)));
                }
                break ;
            },
        }
    }
    ids
}

/// A pool draining the queue, under any interleaving of its workers: the
/// schedule picks which worker pops next. Every pushed identifier is popped
/// by exactly one worker exactly once — the returned assignment pairs each
/// identifier, in push order, with the single worker that took it — and the
/// queue is left exhausted, which is what terminates every worker.
pub fn run_pool_model(q: &mut SegQueue<u32>, schedule: &Vec<usize>, n_workers: usize) -> (assignment:
    Vec<(usize, u32)>)
    requires
        n_workers > 0,
    ensures
        assignment@.map_values(|p: (usize, u32)| p.1) == queue_contents(*old(q)),
        forall|i: int|
            0 <= i < assignment@.len() ==> (#[trigger] assignment@[i]).0 < n_workers,
        queue_contents(*final(q)) == Seq::<u32>::empty(),
{
    let mut assignment: Vec<(usize, u32)> = Vec::new();
    let mut step: usize = 0;
    proof {
        assert(assignment@.map_values(|p: (usize, u32)| p.1) + queue_contents(*q)
            =~= queue_contents(*old(q)));
    }
    loop
        invariant
            n_workers > 0,
            assignment@.map_values(|p: (usize, u32)| p.1) + queue_contents(*q) == queue_contents(
                *old(q),
            ),
            forall|i: int|
                0 <= i < assignment@.len() ==> (#[trigger] assignment@[i]).0 < n_workers,
        ensures
            assignment@.map_values(|p: (usize, u32)| p.1) == queue_contents(*old(q)),
            forall|i: int|
                0 <= i < assignment@.len() ==> (#[trigger] assignment@[i]).0 < n_workers,
            queue_contents(*q) == Seq::<u32>::empty(),
        decreases queue_contents(*q).len(),
    {
        match task_queue_pop(q) {
            Some(id) => {
                let worker = if schedule.len() > 0 {
                    schedule[step % schedule.len()] % n_workers
                } else {
                    0
                };
                assignment.push((worker, id));
                step = if step == usize::MAX {
                    0
                } else {
                    step + 1
                };
                proof {
                    assert(assignment@.map_values(|p: (usize, u32)| p.1) + queue_contents(*q)
                        =~= queue_contents(*old(q)));
                }
            },
            None => {
                proof {
                    assert(queue_contents(*q) =~= Seq::<u32>::empty());
                    assert(assignment@.map_values(|p: (usize, u32)| p.1) =~= queue_contents(
                        *old(q),
                    ));
                }
                break ;
            },
        }
    }
    assignment
}

} // verus!
