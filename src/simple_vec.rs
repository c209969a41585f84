//! A growable buffer with an explicit growth policy: capacity starts at 0,
//! becomes 8 on first need and doubles whenever a push would exceed it.
use vstd::prelude::*;

verus! {

/// Capacity given to an empty buffer on its first growth.
pub const INITIAL_CAPACITY: usize = 8;

/// The capacity that follows `cap` when the buffer is full.
pub open spec fn next_capacity(cap: nat) -> nat {
    if cap == 0 {
        INITIAL_CAPACITY as nat
    } else {
        cap * 2
    }
}

/// `n` is a power of two.
pub open spec fn is_pow2(n: nat) -> bool
    decreases n,
{
    if n == 1 {
        true
    } else if n < 2 || n % 2 != 0 {
        false
    } else {
        is_pow2((n / 2) as nat)
    }
}

/// The capacities that growth alone can produce: 0, or a power of two of at least 8.
pub open spec fn grown_capacity(cap: nat) -> bool {
    cap == 0 || (cap >= 8 && is_pow2(cap))
}

/// The capacity after pushing onto a buffer of capacity `cap` holding `count` items.
pub open spec fn capacity_after_push(cap: nat, count: nat) -> nat {
    if cap < count + 1 {
        next_capacity(cap)
    } else {
        cap
    }
}

/// An owning, contiguous, growable buffer.
pub struct SimpleVec<T> {
    items: Vec<T>,
    capacity: usize,
}

impl<T> View for SimpleVec<T> {
    type V = Seq<T>;

    closed spec fn view(&self) -> Seq<T> {
        self.items@
    }
}

impl<T> SimpleVec<T> {
    /// Every occupied slot lies within the reserved capacity.
    pub closed spec fn wf(&self) -> bool {
        self.items@.len() <= self.capacity
    }

    /// Number of slots reserved by the buffer's growth policy.
    pub closed spec fn spec_capacity(&self) -> nat {
        self.capacity as nat
    }

    /// An empty buffer without any reserved slot. Zero-sized element types
    /// are not accepted.
    pub fn new() -> (r: Self)
        requires
            vstd::layout::size_of::<T>() != 0,
        ensures
            r.wf(),
            r@ == Seq::<T>::empty(),
            r.spec_capacity() == 0,
    {
        SimpleVec { items: Vec::new(), capacity: 0 }
    }

    /// An empty buffer with `capacity` slots reserved up front. Zero-sized
    /// element types are not accepted.
    pub fn with_initial_capacity(capacity: usize) -> (r: Self)
        requires
            vstd::layout::size_of::<T>() != 0,
        ensures
            r.wf(),
            r@ == Seq::<T>::empty(),
            r.spec_capacity() == capacity,
    {
        SimpleVec { items: Vec::with_capacity(capacity), capacity }
    }

    /// Number of occupied slots.
    pub fn count(&self) -> (r: usize)
        requires
            self.wf(),
        ensures
            r == self@.len(),
            r <= self.spec_capacity(),
    {
        self.items.len()
    }

    /// Number of reserved slots.
    pub fn capacity(&self) -> (r: usize)
        requires
            self.wf(),
        ensures
            r == self.spec_capacity(),
            self@.len() <= r,
    {
        self.capacity
    }

    /// The capacity to grow to when the buffer is full.
    fn grow_capacity(&self) -> (r: usize)
        requires
            self.spec_capacity() <= usize::MAX / 2,
        ensures
            r == next_capacity(self.spec_capacity()),
    {
        if self.capacity == 0 {
            INITIAL_CAPACITY
        } else {
            self.capacity * 2
        }
    }

    /// Grows the reserved space to the next capacity, keeping every element.
    fn realloc(&mut self)
        requires
            old(self).wf(),
            old(self).spec_capacity() <= usize::MAX / 2,
        ensures
            final(self).wf(),
            final(self)@ == old(self)@,
            final(self).spec_capacity() == next_capacity(old(self).spec_capacity()),
    {
        let capacity = self.grow_capacity();
        let additional = capacity - self.items.len();
        self.items.reserve(additional);
        self.capacity = capacity;
    }

    /// Appends `item`, growing the buffer first when it is full.
    pub fn push(&mut self, item: T)
        requires
            old(self).wf(),
            old(self)@.len() < usize::MAX / 2,
        ensures
            final(self).wf(),
            final(self)@ == old(self)@.push(item),
            final(self).spec_capacity() == capacity_after_push(
                old(self).spec_capacity(),
                old(self)@.len(),
            ),
    {
        if self.capacity < self.items.len() + 1 {
            self.realloc();
        }
        self.items.push(item);
    }

    /// Removes and returns the last element, or `None` when the buffer is empty.
    pub fn pop(&mut self) -> (r: Option<T>)
        requires
            old(self).wf(),
        ensures
            final(self).wf(),
            old(self)@.len() == 0 ==> r is None && final(self)@ == old(self)@,
            old(self)@.len() > 0 ==> r == Some(old(self)@.last()) && final(self)@ == old(
                self,
            )@.drop_last(),
            final(self).spec_capacity() == old(self).spec_capacity(),
    {
        self.items.pop()
    }

    /// The element at `index`, which must be occupied.
    pub fn get(&self, index: usize) -> (r: &T)
        requires
            index < self@.len(),
        ensures
            *r == self@[index as int],
    {
        &self.items[index]
    }
}

/// Growth keeps the capacity at 0 or at a power of two of at least 8, and a
/// push always finds room for its item.
pub proof fn law_push_keeps_capacity_shape(cap: nat, count: nat)
    requires
        grown_capacity(cap),
        count <= cap,
    ensures
        grown_capacity(capacity_after_push(cap, count)),
        capacity_after_push(cap, count) >= count + 1,
{
    if cap < count + 1 && cap != 0 {
        assert((cap * 2) / 2 == cap);
        assert(is_pow2(cap * 2));
    }
    if cap == 0 {
        reveal_with_fuel(is_pow2, 4);
        assert(is_pow2(8));
    }
}

/// After a push, each earlier position still reads its old element and the
/// new last position reads the pushed item.
pub proof fn law_read_after_push<T>(before: Seq<T>, item: T, after: Seq<T>, i: int)
    requires
        after == before.push(item),
        0 <= i < after.len(),
    ensures
        after[i] == if i == before.len() {
            item
        } else {
            before[i]
        },
{
}

/// The contents, capacity, number of pushes and number of pops that
/// returned an element, after running `ops` on a new buffer: `Some(x)` stands
/// for `push(x)` and `None` for `pop()`, each with the effect that the
/// contracts of `push` and `pop` give it.
pub open spec fn after_ops<T>(ops: Seq<Option<T>>) -> (Seq<T>, nat, nat, nat)
    decreases ops.len(),
{
    if ops.len() == 0 {
        (Seq::empty(), 0, 0, 0)
    } else {
        let (items, cap, pushes, pops) = after_ops(ops.drop_last());
        match ops.last() {
            Some(x) => (items.push(x), capacity_after_push(cap, items.len()), pushes + 1, pops),
            None => if items.len() > 0 {
                (items.drop_last(), cap, pushes, pops + 1)
            } else {
                (items, cap, pushes, pops)
            },
        }
    }
}

/// Over any sequence of pushes and pops on a new buffer, the count is the
/// number of pushes minus the number of pops that returned an element, and
/// the capacity is 0 or a power of two of at least 8, never below the count.
pub proof fn law_count_and_capacity_over_calls<T>(ops: Seq<Option<T>>)
    ensures
        ({
            let (items, cap, pushes, pops) = after_ops(ops);
            &&& items.len() == pushes - pops
            &&& grown_capacity(cap)
            &&& items.len() <= cap
        }),
    decreases ops.len(),
{
    if ops.len() > 0 {
        law_count_and_capacity_over_calls(ops.drop_last());
        let (items, cap, pushes, pops) = after_ops(ops.drop_last());
        law_push_keeps_capacity_shape(cap, items.len());
    }
}

} // verus!
