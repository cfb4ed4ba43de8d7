//! The bounded FIFO that carries function-call requests from the chat turns
//! to the executor. When it is full a request is handed back, never dropped.

use vstd::prelude::*;
use std::collections::VecDeque;
use crate::executor::FunctionCallRequest;

verus! {

pub const DEFAULT_QUEUE_CAPACITY: usize = 100;

/// A bounded FIFO of pending requests.
#[derive(Debug)]
pub struct ExecutionQueue {
    items: VecDeque<FunctionCallRequest>,
    capacity: usize,
}

pub open spec fn min_nat(a: nat, b: nat) -> nat {
    if a <= b { a } else { b }
}

impl ExecutionQueue {
    /// The pending requests, oldest first.
    pub closed spec fn view(&self) -> Seq<FunctionCallRequest> {
        self.items@
    }

    pub closed spec fn spec_capacity(&self) -> nat {
        self.capacity as nat
    }

    pub open spec fn wf(&self) -> bool {
        &&& self@.len() <= self.spec_capacity()
        &&& self.spec_capacity() > 0
    }

    pub open spec fn is_full(&self) -> bool {
        self@.len() == self.spec_capacity()
    }

    /// An empty queue that holds at most `capacity` requests.
    pub fn new(capacity: usize) -> (r: Self)
        requires
            capacity > 0,
        ensures
            r.wf(),
            r@.len() == 0,
            r.spec_capacity() == capacity,
    {
        ExecutionQueue { items: VecDeque::new(), capacity }
    }

    /// An empty queue of the default capacity.
    pub fn with_default_capacity() -> (r: Self)
        ensures
            r.wf(),
            r@.len() == 0,
            r.spec_capacity() == DEFAULT_QUEUE_CAPACITY,
    {
        Self::new(DEFAULT_QUEUE_CAPACITY)
    }

    pub fn len(&self) -> (r: usize)
        requires
            self.wf(),
        ensures
            r == self@.len(),
    {
        self.items.len()
    }

    pub fn capacity(&self) -> (r: usize)
        ensures
            r == self.spec_capacity(),
    {
        self.capacity
    }

    /// Adds a request at the back. Where the queue is full the request comes
    /// back in `Err` and the queue is unchanged: the caller waits or reports
    /// saturation.
    pub fn try_enqueue(&mut self, request: FunctionCallRequest) -> (r: Result<(), FunctionCallRequest>)
        requires
            old(self).wf(),
        ensures
            final(self).wf(),
            final(self).spec_capacity() == old(self).spec_capacity(),
            r is Err <==> old(self).is_full(),
            r is Ok ==> final(self)@ == old(self)@.push(request),
            r matches Err(back) ==> back == request && final(self)@ == old(self)@,
    {
        if self.items.len() >= self.capacity {
            Err(request)
        } else {
            self.items.push_back(request);
            Ok(())
        }
    }

    /// Takes the oldest request, if any.
    pub fn dequeue(&mut self) -> (r: Option<FunctionCallRequest>)
        requires
            old(self).wf(),
        ensures
            final(self).wf(),
            final(self).spec_capacity() == old(self).spec_capacity(),
            old(self)@.len() == 0 ==> r is None && final(self)@ == old(self)@,
            old(self)@.len() > 0 ==> r == Some(old(self)@[0]) && final(self)@ == old(self)@.drop_first(),
    {
        self.items.pop_front()
    }

    /// Offers requests in order while nothing drains the queue. The first
    /// ones, as many as there is room for, are appended; the rest come back,
    /// in order. No request is lost.
    pub fn enqueue_all(&mut self, requests: Vec<FunctionCallRequest>) -> (rejected: Vec<FunctionCallRequest>)
        requires
            old(self).wf(),
        ensures
            final(self).wf(),
            final(self).spec_capacity() == old(self).spec_capacity(),
            ({
                let k = min_nat(requests@.len(), (old(self).spec_capacity() - old(self)@.len()) as nat) as int;
                &&& final(self)@ == old(self)@ + requests@.subrange(0, k)
                &&& rejected@ == requests@.subrange(k, requests@.len() as int)
            }),
            final(self)@.len() + rejected@.len() == old(self)@.len() + requests@.len(),
    {
        let ghost k = min_nat(requests@.len(), (self.spec_capacity() - self@.len()) as nat) as int;
        let ghost start = self@;
        let mut rejected: Vec<FunctionCallRequest> = Vec::new();
        let mut rest = requests;
        let ghost all = rest@;
        let n: usize = rest.len();
        let mut i: usize = 0;
        while rest.len() > 0
            invariant
                self.wf(),
                self.spec_capacity() == old(self).spec_capacity(),
                start == old(self)@,
                all == requests@,
                all.len() == n,
                i <= all.len(),
                rest@.len() == all.len() - i,
                rest@ == all.subrange(i as int, all.len() as int),
                i <= k ==> self@ == start + all.subrange(0, i as int) && rejected@.len() == 0,
                i > k ==> self@ == start + all.subrange(0, k) && rejected@ == all.subrange(k, i as int),
                k == min_nat(all.len(), (self.spec_capacity() - start.len()) as nat) as int,
            decreases rest@.len(),
        {
            let r = rest.remove(0);
            proof {
                assert(r == all[i as int]);
                assert(rest@ =~= all.subrange(i + 1, all.len() as int));
            }
            match self.try_enqueue(r) {
                Ok(()) => {
                    proof {
                        assert(all.subrange(0, i + 1) == all.subrange(0, i as int).push(all[i as int]));
                    }
                },
                Err(back) => {
                    rejected.push(back);
                    proof {
                        if i == k {
                            assert(all.subrange(k, i + 1) =~= seq![all[i as int]]);
                        } else {
                            assert(all.subrange(k, i + 1) == all.subrange(k, i as int).push(all[i as int]));
                        }
                    }
                },
            }
            i = i + 1;
        }
        proof {
            assert(all.subrange(0, all.len() as int) == all);
        }
        rejected
    }
}

} // verus!
