use std::collections::VecDeque;
use vstd::prelude::*;

verus! {

/// What a buffer of the given capacity holds after `value` arrives: the value
/// is appended, and the oldest one leaves first when the buffer is full.
pub open spec fn pushed(s: Seq<i32>, value: i32, capacity: nat) -> Seq<i32> {
    if s.len() >= capacity {
        s.drop_first().push(value)
    } else {
        s.push(value)
    }
}

/// What a buffer holds after each value of `values` arrived in turn.
pub open spec fn pushed_all(s: Seq<i32>, values: Seq<i32>, capacity: nat) -> Seq<i32>
    decreases values.len(),
{
    if values.len() == 0 {
        s
    } else {
        pushed_all(pushed(s, values[0], capacity), values.drop_first(), capacity)
    }
}

/// The last `n` values of `s` (all of them when it holds fewer).
pub open spec fn last_n(s: Seq<i32>, n: nat) -> Seq<i32> {
    if s.len() <= n {
        s
    } else {
        s.subrange(s.len() - n, s.len() as int)
    }
}

/// A bounded first-in first-out history of samples, oldest first.
pub struct RollingBuffer {
    items: VecDeque<i32>,
    capacity: usize,
}

impl View for RollingBuffer {
    type V = Seq<i32>;

    closed spec fn view(&self) -> Seq<i32> {
        self.items@
    }
}

impl RollingBuffer {
    /// The fixed number of samples the buffer keeps.
    pub closed spec fn spec_capacity(&self) -> nat {
        self.capacity as nat
    }

    /// The buffer never holds more than its capacity, which is positive.
    pub closed spec fn wf(&self) -> bool {
        &&& self.capacity > 0
        &&& self.items@.len() <= self.capacity
    }

    /// A well-formed buffer holds at most its capacity.
    pub proof fn lemma_len_within_capacity(&self)
        requires
            self.wf(),
        ensures
            self@.len() <= self.spec_capacity(),
            self.spec_capacity() > 0,
    {
    }

    pub fn new(capacity: usize) -> (r: Self)
        requires
            capacity > 0,
        ensures
            r.wf(),
            r@ == Seq::<i32>::empty(),
            r.spec_capacity() == capacity,
    {
        RollingBuffer { items: VecDeque::with_capacity(capacity), capacity }
    }

    /// Appends `value` as the newest sample, dropping the oldest one first
    /// when the buffer is full.
    pub fn push(&mut self, value: i32)
        requires
            old(self).wf(),
        ensures
            final(self).wf(),
            final(self).spec_capacity() == old(self).spec_capacity(),
            final(self)@ == pushed(old(self)@, value, old(self).spec_capacity()),
    {
        if self.items.len() == self.capacity {
            let _ = self.items.pop_front();
        }
        self.items.push_back(value);
    }

    pub fn len(&self) -> (r: usize)
        ensures
            r == self@.len(),
    {
        self.items.len()
    }

    pub fn capacity(&self) -> (r: usize)
        ensures
            r == self.spec_capacity(),
    {
        self.capacity
    }

    pub fn is_empty(&self) -> (r: bool)
        ensures
            r == (self@.len() == 0),
    {
        self.items.len() == 0
    }

    pub fn is_full(&self) -> (r: bool)
        ensures
            r == (self@.len() == self.spec_capacity()),
    {
        self.items.len() == self.capacity
    }

    /// A snapshot of the samples, oldest first.
    pub fn to_vec(&self) -> (r: Vec<i32>)
        ensures
            r@ == self@,
    {
        let mut r: Vec<i32> = Vec::with_capacity(self.items.len());
        let n = self.items.len();
        for i in 0..n
            invariant
                n == self.items@.len(),
                r@ == self.items@.subrange(0, i as int),
        {
            r.push(self.items[i]);
        }
        assert(r@ =~= self.items@);
        r
    }
}

/// Pushing one value keeps the last `capacity` values of the history.
proof fn lemma_pushed_keeps_last(s: Seq<i32>, value: i32, capacity: nat)
    requires
        capacity > 0,
        s.len() <= capacity,
    ensures
        pushed(s, value, capacity) == last_n(s.push(value), capacity),
{
    if s.len() >= capacity {
        assert(pushed(s, value, capacity) =~= last_n(s.push(value), capacity));
    }
}

/// Filling a buffer: after `values` arrive in an empty buffer, it holds
/// `min(n, capacity)` samples, namely the last ones pushed, oldest first.
pub proof fn lemma_push_sequence(values: Seq<i32>, capacity: nat)
    requires
        capacity > 0,
    ensures
        pushed_all(Seq::empty(), values, capacity) == last_n(values, capacity),
        pushed_all(Seq::empty(), values, capacity).len() == if values.len() <= capacity {
            values.len()
        } else {
            capacity
        },
{
    lemma_pushed_all_from(Seq::empty(), values, capacity);
    assert(Seq::<i32>::empty() + values =~= values);
}

/// From any history within capacity, pushing `values` keeps the last
/// `capacity` values of the history followed by `values`.
proof fn lemma_pushed_all_from(s: Seq<i32>, values: Seq<i32>, capacity: nat)
    requires
        capacity > 0,
        s.len() <= capacity,
    ensures
        pushed_all(s, values, capacity) == last_n(s + values, capacity),
    decreases values.len(),
{
    if values.len() == 0 {
        assert(s + values =~= s);
    } else {
        let v = values[0];
        let s1 = pushed(s, v, capacity);
        lemma_pushed_keeps_last(s, v, capacity);
        lemma_pushed_all_from(s1, values.drop_first(), capacity);
        let t = s.push(v);
        assert(t + values.drop_first() =~= s + values);
        let u = values.drop_first();
        if t.len() > capacity {
            assert(last_n(t, capacity) + u =~= (t + u).subrange(t.len() - capacity, (t + u).len() as int));
        } else {
            assert(last_n(t, capacity) + u =~= t + u);
        }
        assert(last_n(last_n(t, capacity) + u, capacity) =~= last_n(t + u, capacity));
    }
}

} // verus!
