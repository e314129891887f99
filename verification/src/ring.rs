//! The bounded ring of most-recent stdout lines, backed by a fixed-capacity
//! circular buffer of an outside crate. The buffer keeps at most 20 lines;
//! pushing into a full buffer evicts the oldest line.

use circular_buffer::CircularBuffer;
use vstd::prelude::*;

verus! {

#[verifier::external_type_specification]
#[verifier::external_body]
#[verifier::reject_recursive_types(T)]
pub struct ExCircularBuffer<const N: usize, T>(CircularBuffer<N, T>);

/// The lines the buffer holds, oldest first.
pub uninterp spec fn ring_contents(b: CircularBuffer<20, String>) -> Seq<Seq<char>>;

/// What one append does to a ring of capacity 20: a line is added at the
/// back, and once the ring is full the oldest line is evicted first.
pub open spec fn ring_step(s: Seq<Seq<char>>, line: Seq<char>) -> Seq<Seq<char>> {
    if s.len() < 20 {
        s.push(line)
    } else {
        s.drop_first().push(line)
    }
}

/// The ring left by a whole sequence of appends, starting from empty.
pub open spec fn ring_fold(lines: Seq<Seq<char>>) -> Seq<Seq<char>>
    decreases lines.len(),
{
    if lines.len() == 0 {
        Seq::empty()
    } else {
        ring_step(ring_fold(lines.drop_last()), lines.last())
    }
}

/// After any sequence of appends the ring never holds more than 20 lines,
/// and holds exactly the most recent ones, in their original relative order.
pub proof fn lemma_ring_keeps_most_recent(lines: Seq<Seq<char>>)
    ensures
        ring_fold(lines).len() <= 20,
        ring_fold(lines).len() == if lines.len() < 20 {
            lines.len() as int
        } else {
            20
        },
        ring_fold(lines) == lines.skip(lines.len() - ring_fold(lines).len()),
    decreases lines.len(),
{
    if lines.len() == 0 {
        assert(ring_fold(lines) =~= lines.skip(0));
    } else {
        let prefix = lines.drop_last();
        lemma_ring_keeps_most_recent(prefix);
        if prefix.len() < 20 {
            assert(ring_fold(lines) =~= lines.skip(
                lines.len() - ring_fold(lines).len(),
            ));
        } else {
            assert(ring_fold(lines) =~= lines.skip(lines.len() - 20));
        }
    }
}

/// Relies on `CircularBuffer::new`: returns an empty buffer.
#[verifier::external_body]
pub(crate) fn ring_new() -> (r: CircularBuffer<20, String>)
    ensures
        ring_contents(r) == Seq::<Seq<char>>::empty(),
{
    CircularBuffer::new()
}

/// Relies on `CircularBuffer::push_back`: appends at the back; when the
/// buffer is full (its capacity is 20) the front element is evicted.
#[verifier::external_body]
pub(crate) fn ring_push_back(b: &mut CircularBuffer<20, String>, line: String)
    ensures
        ring_contents(*old(b)).len() < 20 ==> ring_contents(*final(b)) == ring_contents(
            *old(b),
        ).push(line@),
        ring_contents(*old(b)).len() == 20 ==> ring_contents(*final(b)) == ring_contents(
            *old(b),
        ).drop_first().push(line@),
{
    let _ = b.push_back(line);
}

/// Relies on `CircularBuffer::back`: the most recently pushed element, or
/// `None` when the buffer is empty.
#[verifier::external_body]
pub(crate) fn ring_back(b: &CircularBuffer<20, String>) -> (r: Option<String>)
    ensures
        match r {
            Some(s) => ring_contents(*b).len() > 0 && s@ == ring_contents(*b).last(),
            None => ring_contents(*b).len() == 0,
        },
{
    b.back().cloned()
}

/// Relies on `CircularBuffer::iter`: yields the buffer's elements from the
/// oldest to the most recent.
#[verifier::external_body]
pub(crate) fn ring_to_vec(b: &CircularBuffer<20, String>) -> (r: Vec<String>)
    ensures
        r@.map_values(|s: String| s@) == ring_contents(*b),
{
    b.iter().cloned().collect()
}

} // verus!
