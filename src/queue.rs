use crossbeam_queue::SegQueue;
use vstd::prelude::*;

verus! {

#[verifier::external_type_specification]
#[verifier::external_body]
#[verifier::reject_recursive_types(T)]
pub struct ExSegQueue<T>(SegQueue<T>);

/// The samples held by a queue, oldest first.
pub uninterp spec fn seg_items(q: SegQueue<u32>) -> Seq<u32>;

/// Relies on crossbeam's `SegQueue::new`: a new queue is empty.
#[verifier::external_body]
fn seg_new() -> (r: SegQueue<u32>)
    ensures
        seg_items(r) == Seq::<u32>::empty(),
{
    SegQueue::new()
}

/// Relies on crossbeam's `SegQueue::push`: the value goes to the back.
#[verifier::external_body]
fn seg_push(q: &mut SegQueue<u32>, v: u32)
    ensures
        seg_items(*final(q)) == seg_items(*old(q)).push(v),
{
    q.push(v)
}

/// Relies on crossbeam's `SegQueue::pop`: the oldest value leaves the front;
/// `PopError` comes exactly when the queue is empty.
#[verifier::external_body]
fn seg_pop(q: &mut SegQueue<u32>) -> (r: Option<u32>)
    ensures
        seg_items(*old(q)).len() == 0 ==> r is None && seg_items(*final(q)) == seg_items(*old(q)),
        seg_items(*old(q)).len() > 0 ==> r == Some(seg_items(*old(q))[0])
            && seg_items(*final(q)) == seg_items(*old(q)).drop_first(),
{
    match q.pop() {
        Ok(v) => Some(v),
        Err(_) => None,
    }
}

/// Relies on crossbeam's `SegQueue::len`: the number of values held.
#[verifier::external_body]
fn seg_len(q: &SegQueue<u32>) -> (r: usize)
    ensures
        r == seg_items(*q).len(),
{
    q.len()
}

/// The unbounded first-in first-out hand-off of samples between the receive
/// path (which pushes) and the render path (which pops).
pub struct TransferQueue {
    inner: SegQueue<u32>,
}

impl View for TransferQueue {
    type V = Seq<u32>;

    closed spec fn view(&self) -> Seq<u32> {
        seg_items(self.inner)
    }
}

impl TransferQueue {
    /// An empty queue.
    pub fn new() -> (r: TransferQueue)
        ensures
            r@ == Seq::<u32>::empty(),
    {
        TransferQueue { inner: seg_new() }
    }

    /// Appends one sample at the back.
    pub fn push(&mut self, sample: u32)
        ensures
            final(self)@ == old(self)@.push(sample),
    {
        seg_push(&mut self.inner, sample);
    }

    /// Removes and returns the oldest sample, or `None` when the queue is empty.
    pub fn pop(&mut self) -> (r: Option<u32>)
        ensures
            old(self)@.len() == 0 ==> r is None && final(self)@ == old(self)@,
            old(self)@.len() > 0 ==> r == Some(old(self)@[0]) && final(self)@ == old(self)@.drop_first(),
    {
        seg_pop(&mut self.inner)
    }

    /// The number of samples held.
    pub fn len(&self) -> (r: usize)
        ensures
            r == self@.len(),
    {
        seg_len(&self.inner)
    }

    /// Whether no sample is held.
    pub fn is_empty(&self) -> (r: bool)
        ensures
            r == (self@.len() == 0),
    {
        seg_len(&self.inner) == 0
    }

    /// Appends every sample of `frame`, in order, at the back.
    pub fn push_frame(&mut self, frame: &[u32])
        ensures
            final(self)@ == old(self)@ + frame@,
    {
        let mut i: usize = 0;
        while i < frame.len()
            invariant
                0 <= i <= frame@.len(),
                self@ == old(self)@ + frame@.subrange(0, i as int),
            decreases frame@.len() - i,
        {
            self.push(frame[i]);
            i = i + 1;
            assert(frame@.subrange(0, i as int) =~= frame@.subrange(0, i - 1).push(frame@[i - 1]));
        }
        assert(frame@.subrange(0, frame@.len() as int) =~= frame@);
    }

    /// Removes every sample held and returns them, oldest first.
    pub fn drain(&mut self) -> (r: Vec<u32>)
        ensures
            r@ == old(self)@,
            final(self)@ == Seq::<u32>::empty(),
    {
        let mut out: Vec<u32> = Vec::new();
        loop
            invariant
                out@ + self@ == old(self)@,
            decreases self@.len(),
        {
            match self.pop() {
                Some(v) => {
                    proof {
                        assert(out@.push(v) + self@ =~= old(self)@);
                    }
                    out.push(v);
                }
                None => {
                    assert(out@ =~= old(self)@);
                    return out;
                }
            }
        }
    }
}

} // verus!
