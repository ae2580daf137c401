use crate::codec::SILENCE;
use crate::queue::TransferQueue;
use std::collections::VecDeque;
use vstd::prelude::*;

verus! {

/// Channel count of the nominal stream.
pub const NOMINAL_CHANNELS: u16 = 2;

/// Sample rate, in Hz, of the nominal stream.
pub const NOMINAL_RATE: u32 = 48000;

/// One pull from a backlog: its oldest sample and what is left, or silence
/// and the backlog unchanged when it is empty.
pub open spec fn pull(backlog: Seq<u32>) -> (u32, Seq<u32>) {
    if backlog.len() == 0 {
        (SILENCE, backlog)
    } else {
        (backlog[0], backlog.drop_first())
    }
}

/// The samples that `n` successive pulls from `backlog` return.
pub open spec fn pulls(backlog: Seq<u32>, n: nat) -> Seq<u32>
    decreases n,
{
    if n == 0 {
        Seq::empty()
    } else {
        seq![pull(backlog).0] + pulls(pull(backlog).1, (n - 1) as nat)
    }
}

/// Pulling from an empty backlog gives silence, however often it is done.
pub proof fn lemma_silence_forever(n: nat)
    ensures
        pulls(Seq::<u32>::empty(), n) == Seq::new(n, |i: int| SILENCE),
    decreases n,
{
    if n > 0 {
        lemma_silence_forever((n - 1) as nat);
        assert(pulls(Seq::<u32>::empty(), n) =~= Seq::new(n, |i: int| SILENCE));
    }
}

/// Pulling as many samples as a backlog holds gives exactly its samples, in order.
pub proof fn lemma_pulls_in_order(s: Seq<u32>)
    ensures
        pulls(s, s.len()) == s,
    decreases s.len(),
{
    if s.len() > 0 {
        lemma_pulls_in_order(s.drop_first());
        assert(pulls(s, s.len()) =~= s);
    }
}

/// Frames `a` then `b` pushed, in that order, onto a new queue
/// (`TransferQueue::push_frame` appends), moved into the empty backlog of a
/// new source (`SampleSource::refill` appends the queue) and pulled in full
/// (`SampleSource::next`) come out as all of `a`, then all of `b`.
pub proof fn lemma_order_kept(a: Seq<u32>, b: Seq<u32>)
    ensures
        ({
            let queued = Seq::<u32>::empty() + a + b;
            let out = pulls(Seq::<u32>::empty() + queued, a.len() + b.len());
            &&& out.subrange(0, a.len() as int) == a
            &&& out.subrange(a.len() as int, out.len() as int) == b
        }),
{
    let s = Seq::<u32>::empty() + (Seq::<u32>::empty() + a + b);
    assert(s =~= a + b);
    lemma_pulls_in_order(s);
    assert((a + b).subrange(0, a.len() as int) =~= a);
    assert((a + b).subrange(a.len() as int, (a + b).len() as int) =~= b);
}

/// An endless source of samples in the nominal format (two interleaved
/// channels at 48000 Hz) that never blocks: it keeps a backlog of arrived
/// samples and gives silence when the backlog is empty.
pub struct SampleSource {
    backlog: VecDeque<u32>,
}

impl View for SampleSource {
    type V = Seq<u32>;

    closed spec fn view(&self) -> Seq<u32> {
        self.backlog@
    }
}

impl SampleSource {
    /// A source with an empty backlog.
    pub fn new() -> (r: SampleSource)
        ensures
            r@ == Seq::<u32>::empty(),
    {
        SampleSource { backlog: VecDeque::new() }
    }

    /// Channel count of the samples given.
    pub fn channels(&self) -> (r: u16)
        ensures
            r == NOMINAL_CHANNELS,
    {
        NOMINAL_CHANNELS
    }

    /// Sample rate, in Hz, of the samples given.
    pub fn sample_rate(&self) -> (r: u32)
        ensures
            r == NOMINAL_RATE,
    {
        NOMINAL_RATE
    }

    /// The number of samples waiting in the backlog.
    pub fn backlog_len(&self) -> (r: usize)
        ensures
            r == self@.len(),
    {
        self.backlog.len()
    }

    /// Moves every sample waiting in `queue` to the back of the backlog.
    pub fn refill(&mut self, queue: &mut TransferQueue)
        ensures
            final(self)@ == old(self)@ + old(queue)@,
            final(queue)@ == Seq::<u32>::empty(),
    {
        loop
            invariant
                self@ + queue@ == old(self)@ + old(queue)@,
            decreases queue@.len(),
        {
            match queue.pop() {
                Some(v) => {
                    proof {
                        assert(self@.push(v) + queue@ =~= old(self)@ + old(queue)@);
                    }
                    self.backlog.push_back(v);
                }
                None => {
                    assert(self@ =~= old(self)@ + old(queue)@);
                    return;
                }
            }
        }
    }

    /// The oldest sample of the backlog, or silence when it is empty.
    pub fn next(&mut self) -> (r: u32)
        ensures
            (r, final(self)@) == pull(old(self)@),
    {
        match self.backlog.pop_front() {
            Some(v) => {
                assert(self@ =~= old(self)@.drop_first());
                v
            }
            None => SILENCE,
        }
    }

    /// Takes in what has arrived in `queue`, then gives the oldest sample, or
    /// silence when nothing is waiting.
    pub fn next_from(&mut self, queue: &mut TransferQueue) -> (r: u32)
        ensures
            (r, final(self)@) == pull(old(self)@ + old(queue)@),
            final(queue)@ == Seq::<u32>::empty(),
    {
        self.refill(queue);
        self.next()
    }
}

} // verus!
