use vstd::prelude::*;

verus! {

/// What one best-effort send leaves in a queue: the element appended when
/// there is room, the queue unchanged when it is full.
pub open spec fn send_spec<T>(s: Seq<T>, cap: int, x: T) -> Seq<T> {
    if s.len() < cap {
        s.push(x)
    } else {
        s
    }
}

/// What a burst of best-effort sends leaves in a queue, first element sent
/// first.
pub open spec fn send_all_spec<T>(s: Seq<T>, cap: int, xs: Seq<T>) -> Seq<T>
    decreases xs.len(),
{
    if xs.len() == 0 {
        s
    } else {
        send_all_spec(send_spec(s, cap, xs[0]), cap, xs.skip(1))
    }
}

/// What a run of successive receives hands out, oldest element first.
pub open spec fn drain_spec<T>(s: Seq<T>, n: int) -> Seq<T>
    decreases n,
{
    if n <= 0 || s.len() == 0 {
        Seq::empty()
    } else {
        seq![s[0]] + drain_spec(s.drop_first(), n - 1)
    }
}

/// A bounded FIFO queue: the model of the two channels that connect the UI
/// context to the worker context. Senders that must not block use the
/// best-effort policy: try to append, drop the element when full.
pub struct BoundedQueue<T> {
    pub items: Vec<T>,
    pub capacity: usize,
}

impl<T> BoundedQueue<T> {
    /// The queue never holds more elements than its capacity.
    pub open spec fn wf(self) -> bool {
        self.items@.len() <= self.capacity
    }

    /// An empty queue with the given capacity.
    pub fn new(capacity: usize) -> (q: Self)
        ensures
            q.wf(),
            q.items@ == Seq::<T>::empty(),
            q.capacity == capacity,
    {
        BoundedQueue { items: Vec::new(), capacity }
    }

    /// The number of elements waiting in the queue.
    pub fn len(&self) -> (n: usize)
        ensures
            n == self.items@.len(),
    {
        self.items.len()
    }

    /// The named best-effort policy: try to append, and when the queue is
    /// full drop the element and report so, without ever blocking the caller.
    /// A burst of operator keystrokes therefore never stalls a frame.
    pub fn best_effort_send(&mut self, x: T) -> (accepted: bool)
        requires
            old(self).wf(),
        ensures
            final(self).wf(),
            final(self).capacity == old(self).capacity,
            final(self).items@ == send_spec(old(self).items@, old(self).capacity as int, x),
            accepted == (old(self).items@.len() < old(self).capacity),
    {
        if self.items.len() < self.capacity {
            self.items.push(x);
            true
        } else {
            false
        }
    }

    /// Receive the oldest element, or nothing when the queue is empty:
    /// submission order is delivery order.
    pub fn recv(&mut self) -> (r: Option<T>)
        requires
            old(self).wf(),
        ensures
            final(self).wf(),
            final(self).capacity == old(self).capacity,
            old(self).items@.len() == 0 ==> r is None && final(self).items@ == old(self).items@,
            old(self).items@.len() > 0 ==> r is Some && r->0 == old(self).items@[0]
                && final(self).items@ == old(self).items@.drop_first(),
    {
        if self.items.len() > 0 {
            let x = self.items.remove(0);
            proof {
                assert(self.items@ =~= old(self).items@.drop_first());
            }
            Option::Some(x)
        } else {
            Option::None
        }
    }
}

/// Burst law: submitting any burst of elements through the best-effort policy
/// never blocks and never overflows the queue. The queue accepts the leading
/// elements that fit, up to its capacity, and drops the rest unchanged.
pub proof fn lemma_burst_send<T>(s: Seq<T>, cap: int, xs: Seq<T>)
    requires
        s.len() <= cap,
    ensures
        send_all_spec(s, cap, xs).len() <= cap,
        send_all_spec(s, cap, xs) == if s.len() + xs.len() <= cap {
            s + xs
        } else {
            (s + xs).take(cap)
        },
    decreases xs.len(),
{
    if xs.len() == 0 {
        assert(s + xs =~= s);
    } else {
        let s2 = send_spec(s, cap, xs[0]);
        lemma_burst_send(s2, cap, xs.skip(1));
        if s.len() < cap {
            assert(s2 + xs.skip(1) =~= s + xs);
        } else {
            assert(s2 == s);
            assert(s.len() == cap);
            if s2.len() + xs.skip(1).len() <= cap {
                assert(xs.skip(1).len() == 0);
                assert(s2 + xs.skip(1) =~= s);
                assert((s + xs).take(cap) =~= s);
            } else {
                assert((s2 + xs.skip(1)).take(cap) =~= s);
                assert((s + xs).take(cap) =~= s);
            }
        }
    }
}

/// Delivery law: the first `n` receives hand out exactly the first `n`
/// queued elements, in submission order. A command submitted behind another
/// is therefore processed only after the earlier one.
pub proof fn lemma_fifo_delivery<T>(s: Seq<T>, n: int)
    requires
        0 <= n <= s.len(),
    ensures
        drain_spec(s, n) == s.take(n),
    decreases n,
{
    if n == 0 {
        assert(drain_spec(s, 0) =~= s.take(0));
    } else {
        lemma_fifo_delivery(s.drop_first(), n - 1);
        assert(seq![s[0]] + s.drop_first().take(n - 1) =~= s.take(n));
    }
}

/// Submission-order law: of two elements accepted back to back, the first
/// sits immediately before the second, so it is received first.
pub proof fn lemma_send_order<T>(s: Seq<T>, cap: int, a: T, b: T)
    requires
        s.len() + 2 <= cap,
    ensures
        ({
            let t = send_spec(send_spec(s, cap, a), cap, b);
            &&& t.len() == s.len() + 2
            &&& t[s.len() as int] == a
            &&& t[s.len() as int + 1] == b
        }),
{
}

} // verus!
