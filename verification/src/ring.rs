//! The bounded ring buffer of recent log lines, kept in an outside queue.
//!
//! The queue itself comes from the `circular_queue` crate; its contents and
//! its capacity are named here, the few methods the application calls are
//! wrapped with contracts read off that crate's source, and the eviction law
//! of such a buffer is proved over the named contents.

use vstd::prelude::*;

use circular_queue::CircularQueue;

verus! {

/// Declares circular_queue::CircularQueue so it can stand in signatures and
/// fields; what a queue holds is spoken of only through [`rb_contents`] and
/// [`rb_capacity`].
#[verifier::external_type_specification]
#[verifier::external_body]
#[verifier::reject_recursive_types(T)]
pub struct ExCircularQueue<T>(CircularQueue<T>);

/// The lines held by the queue, oldest first.
pub uninterp spec fn rb_contents(q: CircularQueue<String>) -> Seq<Seq<char>>;

/// The capacity the queue was created with.
pub uninterp spec fn rb_capacity(q: CircularQueue<String>) -> nat;

/// What one push does to the contents of a queue of capacity `cap`: a push
/// into a queue with no capacity is dropped, a push into a queue with room
/// appends, and a push into a full queue evicts the oldest line first.
pub open spec fn ring_push(s: Seq<Seq<char>>, cap: nat, x: Seq<char>) -> Seq<Seq<char>> {
    if cap == 0 {
        s
    } else if s.len() < cap {
        s.push(x)
    } else {
        s.drop_first().push(x)
    }
}

/// Relies on circular_queue::CircularQueue::with_capacity: the new queue is
/// empty and remembers the requested capacity.
#[verifier::external_body]
pub(crate) fn rb_with_capacity(capacity: usize) -> (q: CircularQueue<String>)
    ensures
        rb_contents(q) == Seq::<Seq<char>>::empty(),
        rb_capacity(q) == capacity as nat,
{
    CircularQueue::with_capacity(capacity)
}

/// Relies on circular_queue::CircularQueue::push: once the capacity is
/// reached, a push overwrites the oldest line and hands it back.
#[verifier::external_body]
pub(crate) fn rb_push(q: &mut CircularQueue<String>, x: String) -> (popped: Option<String>)
    ensures
        rb_capacity(*final(q)) == rb_capacity(*old(q)),
        rb_contents(*final(q)) == ring_push(rb_contents(*old(q)), rb_capacity(*old(q)), x@),
        popped is Some ==> rb_capacity(*old(q)) > 0 && rb_contents(*old(q)).len() == rb_capacity(
            *old(q),
        ) && popped->0@ == rb_contents(*old(q))[0],
        popped is None ==> rb_capacity(*old(q)) == 0 || rb_contents(*old(q)).len() < rb_capacity(
            *old(q),
        ),
{
    q.push(x)
}

/// Relies on circular_queue::CircularQueue::asc_iter: it yields the queue's
/// contents from the oldest line to the newest.
#[verifier::external_body]
pub(crate) fn rb_to_vec(q: &CircularQueue<String>) -> (v: Vec<String>)
    ensures
        v.deep_view() == rb_contents(*q),
{
    q.asc_iter().cloned().collect()
}

/// The last `n` elements of a sequence, or all of it if it is shorter.
pub open spec fn seq_last_n<A>(s: Seq<A>, n: nat) -> Seq<A> {
    if s.len() <= n {
        s
    } else {
        s.subrange(s.len() - n, s.len() as int)
    }
}

/// The contents after pushing a batch of lines one by one, oldest first.
pub open spec fn ring_push_all(s: Seq<Seq<char>>, cap: nat, xs: Seq<Seq<char>>) -> Seq<Seq<char>>
    decreases xs.len(),
{
    if xs.len() == 0 {
        s
    } else {
        ring_push_all(ring_push(s, cap, xs[0]), cap, xs.drop_first())
    }
}

/// Law: a buffer of positive capacity holds, after any batch of pushes, the
/// last `cap` lines of what it held followed by the batch, in order: the
/// oldest lines are the ones evicted.
pub proof fn lemma_ring_push_all_last(s: Seq<Seq<char>>, cap: nat, xs: Seq<Seq<char>>)
    requires
        cap > 0,
        s.len() <= cap,
    ensures
        ring_push_all(s, cap, xs) == seq_last_n(s + xs, cap),
    decreases xs.len(),
{
    if xs.len() == 0 {
        assert(s + xs =~= s);
    } else {
        let s1 = ring_push(s, cap, xs[0]);
        assert(s1 =~= seq_last_n(s + seq![xs[0]], cap));
        lemma_ring_push_all_last(s1, cap, xs.drop_first());
        assert(seq_last_n(seq_last_n(s + seq![xs[0]], cap) + xs.drop_first(), cap) =~= seq_last_n(
            s + xs,
            cap,
        ));
    }
}

/// Law: pushing at least `cap` lines leaves exactly the `cap` most recent
/// ones, oldest first, whatever the buffer held before.
pub proof fn lemma_ring_keeps_most_recent(s: Seq<Seq<char>>, cap: nat, xs: Seq<Seq<char>>)
    requires
        cap > 0,
        s.len() <= cap,
        xs.len() >= cap,
    ensures
        ring_push_all(s, cap, xs) == xs.subrange(xs.len() - cap, xs.len() as int),
{
    lemma_ring_push_all_last(s, cap, xs);
    assert(seq_last_n(s + xs, cap) =~= xs.subrange(xs.len() - cap, xs.len() as int));
}

} // verus!
