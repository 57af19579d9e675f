use crate::circle::Circle;
use crate::range::ConfigError;
use std::collections::VecDeque;
use vstd::prelude::*;

verus! {

/// The trail after appending `c` to `s` under capacity `cap`: the oldest
/// entry leaves when the trail would grow past `cap`.
pub open spec fn push_result(cap: nat, s: Seq<Circle>, c: Circle) -> Seq<Circle> {
    let t = s.push(c);
    if t.len() > cap {
        t.drop_first()
    } else {
        t
    }
}

/// The trail after appending each of `items`, in order, to `s`.
pub open spec fn push_all(cap: nat, s: Seq<Circle>, items: Seq<Circle>) -> Seq<Circle>
    decreases items.len(),
{
    if items.len() == 0 {
        s
    } else {
        push_result(cap, push_all(cap, s, items.drop_last()), items.last())
    }
}

/// The last `cap` entries of `s`, or all of them when there are fewer.
pub open spec fn latest(cap: nat, s: Seq<Circle>) -> Seq<Circle> {
    if s.len() > cap {
        s.subrange(s.len() - cap, s.len() as int)
    } else {
        s
    }
}

/// Pushing onto a trail that respects its capacity keeps the latest `cap`
/// of everything pushed so far, oldest first.
pub proof fn lemma_push_all_keeps_latest(cap: nat, s: Seq<Circle>, items: Seq<Circle>)
    requires
        cap > 0,
        s.len() <= cap,
    ensures
        push_all(cap, s, items) == latest(cap, s + items),
    decreases items.len(),
{
    if items.len() == 0 {
        assert(s + items =~= s);
    } else {
        let init = items.drop_last();
        lemma_push_all_keeps_latest(cap, s, init);
        let prev = latest(cap, s + init);
        let all = s + items;
        assert(s + init =~= all.drop_last());
        if all.len() > cap {
            assert(push_result(cap, prev, items.last()) =~= all.subrange(all.len() - cap, all.len() as int));
        } else {
            assert(push_result(cap, prev, items.last()) =~= all);
        }
    }
}

/// FIFO law: pushing any sequence of circles into an empty history leaves the
/// most recent `min(n, capacity)` pushes, in the order they were pushed; in
/// particular exactly `capacity` of them once more than `capacity` were pushed.
pub proof fn lemma_history_fifo(cap: nat, items: Seq<Circle>)
    requires
        cap > 0,
    ensures
        push_all(cap, Seq::empty(), items) == latest(cap, items),
        items.len() > cap ==> push_all(cap, Seq::empty(), items).len() == cap
            && push_all(cap, Seq::empty(), items) == items.subrange(items.len() - cap, items.len() as int),
{
    lemma_push_all_keeps_latest(cap, Seq::empty(), items);
    assert(Seq::<Circle>::empty() + items =~= items);
}

/// A fixed-capacity trail of circle snapshots, oldest first.
pub struct History {
    capacity: usize,
    elements: VecDeque<Circle>,
}

impl History {
    pub closed spec fn capacity_spec(&self) -> nat {
        self.capacity as nat
    }

    /// The stored snapshots, oldest first.
    pub closed spec fn view(&self) -> Seq<Circle> {
        self.elements@
    }

    /// The capacity is positive and respected.
    pub open spec fn wf(&self) -> bool {
        self.capacity_spec() > 0 && self.view().len() <= self.capacity_spec()
    }

    /// An empty history holding up to `capacity` snapshots; a capacity of zero
    /// is rejected.
    pub fn new(capacity: usize) -> (r: Result<History, ConfigError>)
        ensures
            r is Ok <==> capacity > 0,
            r is Ok ==> r->Ok_0.wf() && r->Ok_0.capacity_spec() == capacity
                && r->Ok_0.view() == Seq::<Circle>::empty(),
            r is Err ==> r->Err_0 == ConfigError::InvalidCapacity,
    {
        if capacity > 0 {
            Ok(History { capacity, elements: VecDeque::new() })
        } else {
            Err(ConfigError::InvalidCapacity)
        }
    }

    /// Appends a copy of `circle`, evicting the oldest snapshot when the
    /// history would exceed its capacity.
    pub fn push(&mut self, circle: Circle)
        requires
            old(self).wf(),
        ensures
            final(self).wf(),
            final(self).capacity_spec() == old(self).capacity_spec(),
            final(self).view() == push_result(old(self).capacity_spec(), old(self).view(), circle),
    {
        self.elements.push_back(circle);
        if self.elements.len() > self.capacity {
            let _ = self.elements.pop_front();
        }
    }

    /// The stored snapshots, oldest first.
    pub fn snapshot(&self) -> (r: Vec<Circle>)
        ensures
            r@ == self.view(),
    {
        let mut out: Vec<Circle> = Vec::new();
        let mut i: usize = 0;
        while i < self.elements.len()
            invariant
                i <= self.elements@.len(),
                out@ == self.elements@.subrange(0, i as int),
            decreases self.elements@.len() - i,
        {
            out.push(self.elements[i]);
            i += 1;
        }
        assert(out@ =~= self.elements@);
        out
    }

    pub fn len(&self) -> (r: usize)
        ensures
            r == self.view().len(),
    {
        self.elements.len()
    }

    pub fn capacity(&self) -> (r: usize)
        ensures
            r == self.capacity_spec(),
    {
        self.capacity
    }
}

} // verus!
