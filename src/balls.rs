use vstd::prelude::*;
use ringbuf::{Rb, StaticRb};
use crate::ball::Ball;

verus! {

/// Most balls kept at once; the oldest gives way to a new one.
pub const BALLS_MAX: usize = 50;

/// A fixed-capacity queue of balls, oldest first, kept in a ring buffer of
/// the ringbuf crate. Verus sees the buffer only through `queued`.
#[verifier::external_body]
pub struct BallQueue {
    rb: StaticRb<Ball, BALLS_MAX>,
}

/// `q` with `b` added at the back; when `q` is full its oldest ball leaves.
pub open spec fn enqueued(q: Seq<Ball>, b: Ball) -> Seq<Ball> {
    if q.len() < BALLS_MAX {
        q.push(b)
    } else {
        q.drop_first().push(b)
    }
}

/// The balls in the queue, oldest first.
pub uninterp spec fn queued(q: BallQueue) -> Seq<Ball>;

impl BallQueue {
    /// Relies on the `Default` of ringbuf's `StaticRb`: an empty buffer.
    #[verifier::external_body]
    pub(crate) fn new() -> (r: BallQueue)
        ensures
            queued(r) == Seq::<Ball>::empty(),
    {
        BallQueue { rb: StaticRb::default() }
    }

    /// Relies on ringbuf's `Rb::len`: the number of items stored.
    #[verifier::external_body]
    pub(crate) fn len(&self) -> (r: usize)
        ensures
            r == queued(*self).len(),
    {
        self.rb.len()
    }

    /// Relies on ringbuf's `Rb::push_overwrite`: where the buffer is full the
    /// oldest item is popped first, then the new one goes to the back.
    #[verifier::external_body]
    pub(crate) fn push_overwrite(&mut self, b: Ball)
        ensures
            queued(*final(self)) == enqueued(queued(*old(self)), b),
    {
        self.rb.push_overwrite(b);
    }

    /// Relies on ringbuf's `Rb::pop`: takes the oldest item, if any.
    #[verifier::external_body]
    pub(crate) fn pop(&mut self) -> (r: Option<Ball>)
        ensures
            queued(*old(self)).len() == 0 ==> r is None && queued(*final(self)) == queued(*old(self)),
            queued(*old(self)).len() > 0 ==> r == Some(queued(*old(self))[0])
                && queued(*final(self)) == queued(*old(self)).drop_first(),
    {
        self.rb.pop()
    }

    /// Relies on ringbuf's `Rb::iter`: the items front to back, oldest first.
    #[verifier::external_body]
    pub(crate) fn to_vec(&self) -> (r: Vec<Ball>)
        ensures
            r@ == queued(*self),
    {
        self.rb.iter().copied().collect()
    }
}

} // verus!
