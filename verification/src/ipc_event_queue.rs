//! In-process buffer for follow-up events.
//!
//! An event that a handler of a state machine emits is produced inside the
//! task, and is drained ahead of the next blocking read of the task's channel.

use heapless::Deque;
use vstd::prelude::*;

verus! {

/// `heapless::Deque`, a ring of at most `N` items.
#[verifier::external_type_specification]
#[verifier::external_body]
#[verifier::reject_recursive_types(T)]
pub struct ExDeque<T, const N: usize>(Deque<T, N>);

/// A deque and the items in it, front first.
///
/// A value of this type is made and changed by the functions below alone,
/// and their contracts keep the second field in step with the first.
#[verifier::reject_recursive_types(M)]
struct Ring<M, const N: usize> {
    deque: Deque<M, N>,
    items: Ghost<Seq<M>>,
}

/// `heapless::Deque::new`: a deque without items.
///
/// A program in which `N` is zero does not compile.
#[verifier::external_body]
fn ring_new<M, const N: usize>() -> (r: Ring<M, N>)
    ensures
        r.items@ == Seq::<M>::empty(),
{
    Ring { deque: Deque::new(), items: Ghost(Seq::empty()) }
}

/// `heapless::Deque::push_back`: the item goes behind the others, unless the
/// deque holds `N` items; then it comes back and the deque stays as it was.
#[verifier::external_body]
fn ring_push_back<M, const N: usize>(ring: &mut Ring<M, N>, item: M) -> (r: Result<(), M>)
    ensures
        r is Ok == (old(ring).items@.len() < N),
        r is Ok ==> final(ring).items@ == old(ring).items@.push(item),
        r is Err ==> final(ring).items@ == old(ring).items@ && r->Err_0 == item,
{
    ring.deque.push_back(item)
}

/// `heapless::Deque::pop_front`: the front item leaves; an empty deque stays
/// as it was.
#[verifier::external_body]
fn ring_pop_front<M, const N: usize>(ring: &mut Ring<M, N>) -> (r: Option<M>)
    ensures
        r is Some == (old(ring).items@.len() > 0),
        r is Some ==> final(ring).items@ == old(ring).items@.skip(1) && r->0 == old(ring).items@[0],
        r is None ==> final(ring).items@ == old(ring).items@,
{
    ring.deque.pop_front()
}

/// `heapless::Deque::is_empty`: whether the deque holds no item.
#[verifier::external_body]
fn ring_is_empty<M, const N: usize>(ring: &Ring<M, N>) -> (r: bool)
    ensures
        r == (ring.items@.len() == 0),
{
    ring.deque.is_empty()
}

/// `heapless::Deque::is_full`: whether the deque holds `N` items.
#[verifier::external_body]
fn ring_is_full<M, const N: usize>(ring: &Ring<M, N>) -> (r: bool)
    ensures
        r == (ring.items@.len() >= N),
{
    ring.deque.is_full()
}

/// A first-in first-out buffer of at most `N` messages.
#[verifier::reject_recursive_types(M)]
pub struct PendingQueue<M, const N: usize> {
    inner: Ring<M, N>,
}

impl<M, const N: usize> View for PendingQueue<M, N> {
    type V = Seq<M>;

    /// The buffered messages, oldest first.
    closed spec fn view(&self) -> Seq<M> {
        self.inner.items@
    }
}

impl<M, const N: usize> Default for PendingQueue<M, N> {
    fn default() -> (q: Self)
        ensures
            q@ == Seq::<M>::empty(),
    {
        Self::new()
    }
}

impl<M, const N: usize> PendingQueue<M, N> {
    /// Whether the buffer keeps to its capacity.
    pub open spec fn wf(&self) -> bool {
        self@.len() <= N
    }

    /// An empty buffer.
    pub fn new() -> (q: Self)
        ensures
            q@ == Seq::<M>::empty(),
            q.wf(),
    {
        PendingQueue { inner: ring_new() }
    }

    /// Append a message. A full buffer hands the message back.
    pub fn push(&mut self, message: M) -> (r: Result<(), M>)
        ensures
            if old(self)@.len() < N {
                &&& r is Ok
                &&& final(self)@ == old(self)@.push(message)
            } else {
                &&& r == Err::<(), M>(message)
                &&& final(self)@ == old(self)@
            },
            old(self).wf() ==> final(self).wf(),
    {
        ring_push_back(&mut self.inner, message)
    }

    /// Take the oldest message.
    pub fn pop(&mut self) -> (r: Option<M>)
        ensures
            if old(self)@.len() > 0 {
                &&& r == Some(old(self)@[0])
                &&& final(self)@ == old(self)@.skip(1)
            } else {
                &&& r == None::<M>
                &&& final(self)@ == old(self)@
            },
            old(self).wf() ==> final(self).wf(),
    {
        ring_pop_front(&mut self.inner)
    }

    /// Whether there is no message.
    pub fn is_empty(&self) -> (r: bool)
        ensures
            r == (self@.len() == 0),
    {
        ring_is_empty(&self.inner)
    }

    /// Whether the buffer is at capacity.
    pub fn is_full(&self) -> (r: bool)
        ensures
            r == (self@.len() >= N),
    {
        ring_is_full(&self.inner)
    }
}

/// What a run of pushes and pops on a buffer does to its contents.
pub enum QueueOp<M> {
    Push(M),
    Pop,
}

/// The contents of a buffer of capacity `n` after a run of operations.
pub open spec fn contents_after<M>(start: Seq<M>, n: nat, ops: Seq<QueueOp<M>>) -> Seq<M>
    decreases ops.len(),
{
    if ops.len() == 0 {
        start
    } else {
        let before = contents_after(start, n, ops.drop_last());
        match ops.last() {
            QueueOp::Push(m) => if before.len() < n {
                before.push(m)
            } else {
                before
            },
            QueueOp::Pop => if before.len() > 0 {
                before.skip(1)
            } else {
                before
            },
        }
    }
}

/// No run of operations takes a buffer beyond its capacity.
pub proof fn capacity_is_kept<M>(start: Seq<M>, n: nat, ops: Seq<QueueOp<M>>)
    requires
        start.len() <= n,
    ensures
        contents_after(start, n, ops).len() <= n,
    decreases ops.len(),
{
    if ops.len() > 0 {
        capacity_is_kept(start, n, ops.drop_last());
    }
}

/// Messages leave in the order in which they came: pushing a run of messages
/// that fits and popping as many again takes them out oldest first, and leaves
/// the buffer empty.
pub proof fn first_in_first_out<M>(messages: Seq<M>, n: nat, k: nat)
    requires
        messages.len() <= n,
        k <= messages.len(),
    ensures
        contents_after(
            Seq::empty(),
            n,
            messages.map_values(|m: M| QueueOp::Push(m)) + Seq::new(k, |i: int| QueueOp::<M>::Pop),
        ) == messages.skip(k as int),
    decreases messages.len() + k,
{
    let pushes = messages.map_values(|m: M| QueueOp::Push(m));
    let pops = Seq::new(k, |i: int| QueueOp::<M>::Pop);
    let ops = pushes + pops;
    if k > 0 {
        let fewer = Seq::new((k - 1) as nat, |i: int| QueueOp::<M>::Pop);
        assert(ops.drop_last() =~= pushes + fewer);
        first_in_first_out(messages, n, (k - 1) as nat);
    } else if messages.len() > 0 {
        let shorter = messages.drop_last();
        let none = Seq::new(0, |i: int| QueueOp::<M>::Pop);
        assert(ops.drop_last() =~= shorter.map_values(|m: M| QueueOp::Push(m)) + none);
        first_in_first_out(shorter, n, 0);
    }
}

/// A message goes behind those that wait, and they stay as they are. A full buffer
/// gives the message back and changes nothing.
pub proof fn a_message_goes_behind<M, const N: usize>(
    q: &mut PendingQueue<M, N>,
    message: M,
    r: Result<(), M>,
)
    requires
        call_ensures(PendingQueue::<M, N>::push, (q, message), r),
    ensures
        r is Ok <==> old(q)@.len() < N,
        r is Ok ==> final(q)@.len() == old(q)@.len() + 1 && final(q)@.last() == message,
        r is Err ==> final(q)@.len() == old(q)@.len() && r->Err_0 == message,
        forall|i: int| 0 <= i < old(q)@.len() ==> #[trigger] final(q)@[i] == old(q)@[i],
{
}

/// The message that waited longest leaves, and the others move up by one. An empty
/// buffer gives nothing.
pub proof fn the_oldest_message_leaves<M, const N: usize>(
    q: &mut PendingQueue<M, N>,
    r: Option<M>,
)
    requires
        call_ensures(PendingQueue::<M, N>::pop, (q,), r),
    ensures
        r is Some <==> old(q)@.len() > 0,
        r is Some ==> r->0 == old(q)@[0] && final(q)@.len() == old(q)@.len() - 1,
        r is None ==> final(q)@.len() == 0,
        forall|i: int| 0 <= i < final(q)@.len() ==> #[trigger] final(q)@[i] == old(q)@[i + 1],
{
}

/// Empty and full are told by what waits.
pub proof fn empty_and_full_are_told<M, const N: usize>(
    q: PendingQueue<M, N>,
    empty: bool,
    full: bool,
)
    requires
        call_ensures(PendingQueue::<M, N>::is_empty, (&q,), empty),
        call_ensures(PendingQueue::<M, N>::is_full, (&q,), full),
        q.wf(),
    ensures
        empty <==> q@.len() == 0,
        full <==> q@.len() == N,
{
}

} // verus!
