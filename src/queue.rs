use std::collections::VecDeque;
use vstd::prelude::*;

verus! {

/// An unbounded first-in, first-out queue.
#[derive(Debug)]
pub struct Queue<T> {
    items: VecDeque<T>,
}

impl<T> View for Queue<T> {
    type V = Seq<T>;

    /// The pending items, front first.
    closed spec fn view(&self) -> Seq<T> {
        self.items@
    }
}

impl<T> Queue<T> {
    pub fn new() -> (q: Self)
        ensures
            q@ == Seq::<T>::empty(),
    {
        Queue { items: VecDeque::new() }
    }

    /// Appends `item` at the back.
    pub fn enqueue(&mut self, item: T)
        ensures
            final(self)@ == old(self)@.push(item),
            final(self)@ == apply_ops(old(self)@, seq![QueueOp::Enqueue(item)]).0,
    {
        proof {
            lemma_apply_one(self@, QueueOp::Enqueue(item));
        }
        self.items.push_back(item);
    }

    /// Removes and returns the front item, or `None` when the queue is empty.
    pub fn dequeue(&mut self) -> (r: Option<T>)
        ensures
            old(self)@.len() == 0 ==> r.is_none() && final(self)@ == old(self)@,
            old(self)@.len() > 0 ==> r == Some(old(self)@[0]) && final(self)@ == old(self)@.drop_first(),
            final(self)@ == apply_ops(old(self)@, seq![QueueOp::<T>::Dequeue]).0,
            apply_ops(old(self)@, seq![QueueOp::<T>::Dequeue]).1 == (match r {
                Some(x) => seq![x],
                None => Seq::<T>::empty(),
            }),
    {
        proof {
            lemma_apply_one(self@, QueueOp::<T>::Dequeue);
        }
        self.items.pop_front()
    }

    pub fn is_empty(&self) -> (r: bool)
        ensures
            r == (self@.len() == 0),
    {
        self.items.len() == 0
    }

    pub fn len(&self) -> (r: usize)
        ensures
            r == self@.len(),
    {
        self.items.len()
    }
}

/// One operation on a queue: append an item, or take the front item.
pub enum QueueOp<T> {
    Enqueue(T),
    Dequeue,
}

/// Applies `ops` in order to a queue holding `q`; returns what the queue holds
/// afterwards and the items that the dequeues handed out, in order. A dequeue on
/// an empty queue hands out nothing.
pub open spec fn apply_ops<T>(q: Seq<T>, ops: Seq<QueueOp<T>>) -> (Seq<T>, Seq<T>)
    decreases ops.len(),
{
    if ops.len() == 0 {
        (q, Seq::empty())
    } else {
        let (rest, out) = apply_ops(q, ops.drop_last());
        match ops.last() {
            QueueOp::Enqueue(x) => (rest.push(x), out),
            QueueOp::Dequeue => if rest.len() > 0 {
                (rest.drop_first(), out.push(rest[0]))
            } else {
                (rest, out)
            },
        }
    }
}

/// The items that `ops` appends, in order.
pub open spec fn enqueued<T>(ops: Seq<QueueOp<T>>) -> Seq<T>
    decreases ops.len(),
{
    if ops.len() == 0 {
        Seq::empty()
    } else {
        match ops.last() {
            QueueOp::Enqueue(x) => enqueued(ops.drop_last()).push(x),
            QueueOp::Dequeue => enqueued(ops.drop_last()),
        }
    }
}

proof fn lemma_apply_one<T>(q: Seq<T>, op: QueueOp<T>)
    ensures
        apply_ops(q, seq![op]) == (match op {
            QueueOp::Enqueue(x) => (q.push(x), Seq::<T>::empty()),
            QueueOp::Dequeue => if q.len() > 0 {
                (q.drop_first(), seq![q[0]])
            } else {
                (q, Seq::<T>::empty())
            },
        }),
{
    let ops = seq![op];
    assert(ops.drop_last() =~= Seq::<QueueOp<T>>::empty());
    assert(ops.last() == op);
    assert(apply_ops(q, ops.drop_last()) == (q, Seq::<T>::empty()));
    if q.len() > 0 {
        assert(Seq::<T>::empty().push(q[0]) =~= seq![q[0]]);
    }
}

/// First in, first out: whatever the interleaving of enqueues and dequeues, the
/// items handed out, followed by those still waiting, are the items that were
/// there at the start followed by the enqueued ones, in enqueue order.
pub proof fn lemma_fifo_order<T>(q: Seq<T>, ops: Seq<QueueOp<T>>)
    ensures
        apply_ops(q, ops).1 + apply_ops(q, ops).0 == q + enqueued(ops),
    decreases ops.len(),
{
    if ops.len() > 0 {
        let prev = ops.drop_last();
        lemma_fifo_order(q, prev);
        let (rest, out) = apply_ops(q, prev);
        match ops.last() {
            QueueOp::Enqueue(x) => {
                assert(out + rest.push(x) =~= (out + rest).push(x));
                assert(q + enqueued(prev).push(x) =~= (q + enqueued(prev)).push(x));
            },
            QueueOp::Dequeue => {
                if rest.len() > 0 {
                    assert(out.push(rest[0]) + rest.drop_first() =~= out + rest);
                }
            },
        }
    } else {
        assert(Seq::<T>::empty() + q =~= q + Seq::<T>::empty());
    }
}

} // verus!
