//! A fixed-capacity first-in-first-out buffer that overwrites its oldest
//! element once it is full.
use vstd::prelude::*;

verus! {

/// Position in the backing storage of the element `offset` places after `head`.
pub open spec fn ring_slot(head: int, offset: int, capacity: int) -> int {
    if head + offset < capacity {
        head + offset
    } else {
        head + offset - capacity
    }
}

/// The contents a push leaves behind: the new item appended, and the oldest
/// element dropped when the buffer was already full.
pub open spec fn pushed<T>(items: Seq<T>, item: T, capacity: nat) -> Seq<T> {
    if items.len() < capacity {
        items.push(item)
    } else {
        items.push(item).drop_first()
    }
}

/// The contents after pushing every element of `xs`, in order, onto `items`.
pub open spec fn pushed_all<T>(items: Seq<T>, xs: Seq<T>, capacity: nat) -> Seq<T>
    decreases xs.len(),
{
    if xs.len() == 0 {
        items
    } else {
        pushed(pushed_all(items, xs.drop_last(), capacity), xs.last(), capacity)
    }
}

/// The last `capacity` elements of `s` (all of them when there are fewer).
pub open spec fn last_n<T>(s: Seq<T>, capacity: nat) -> Seq<T> {
    if s.len() <= capacity {
        s
    } else {
        s.subrange(s.len() - capacity, s.len() as int)
    }
}

/// Pushing any sequence of items onto a buffer of positive capacity leaves
/// exactly the last `capacity` of the old contents followed by the pushed
/// items, oldest first; from an empty buffer, the last `capacity` pushed.
pub proof fn lemma_ring_keeps_last_pushed<T>(items: Seq<T>, xs: Seq<T>, capacity: nat)
    requires
        capacity > 0,
        items.len() <= capacity,
    ensures
        pushed_all(items, xs, capacity) == last_n(items + xs, capacity),
        pushed_all(items, xs, capacity).len() == if items.len() + xs.len() <= capacity {
            items.len() + xs.len()
        } else {
            capacity
        },
    decreases xs.len(),
{
    if xs.len() == 0 {
        assert(items + xs =~= items);
    } else {
        let ys = xs.drop_last();
        lemma_ring_keeps_last_pushed(items, ys, capacity);
        let all = items + xs;
        let prev = items + ys;
        assert(prev.push(xs.last()) =~= all);
        if prev.len() < capacity {
        } else if prev.len() == capacity {
            assert(prev.push(xs.last()).drop_first() =~= all.subrange(
                all.len() - capacity,
                all.len() as int,
            ));
        } else {
            assert(prev.subrange(prev.len() - capacity, prev.len() as int).push(
                xs.last(),
            ).drop_first() =~= all.subrange(all.len() - capacity, all.len() as int));
        }
    }
}

/// Mapping over the contents commutes with a push.
pub proof fn lemma_pushed_map<A, B>(items: Seq<A>, item: A, capacity: nat, f: spec_fn(A) -> B)
    ensures
        pushed(items, item, capacity).map_values(f) == pushed(items.map_values(f), f(item), capacity),
{
    if items.len() < capacity {
        assert(items.push(item).map_values(f) =~= items.map_values(f).push(f(item)));
    } else {
        assert(items.push(item).drop_first().map_values(f) =~= items.map_values(f).push(
            f(item),
        ).drop_first());
    }
}

#[derive(Debug)]
pub struct CircularBuffer<T> {
    data: Vec<Option<T>>,
    head: usize,
    tail: usize,
    size: usize,
    capacity: usize,
}

impl<T> View for CircularBuffer<T> {
    type V = Seq<T>;

    /// The stored elements, oldest first.
    closed spec fn view(&self) -> Seq<T> {
        Seq::new(
            self.size as nat,
            |i: int| self.data@[ring_slot(self.head as int, i, self.capacity as int)]->Some_0,
        )
    }
}

impl<T> CircularBuffer<T> {
    /// The capacity the buffer was created with.
    pub closed spec fn spec_capacity(&self) -> nat {
        self.capacity as nat
    }

    pub closed spec fn wf(&self) -> bool {
        &&& self.data@.len() == self.capacity
        &&& self.size <= self.capacity
        &&& self.capacity > 0 ==> self.head < self.capacity
        &&& self.capacity > 0 ==> self.tail == ring_slot(
            self.head as int,
            self.size as int,
            self.capacity as int,
        ) || (self.size == self.capacity && self.tail == self.head)
        &&& self.capacity == 0 ==> self.size == 0 && self.head == 0 && self.tail == 0
        &&& forall|i: int|
            0 <= i < self.size ==> (#[trigger] self.data@[ring_slot(
                self.head as int,
                i,
                self.capacity as int,
            )]) is Some
    }

    /// A well-formed buffer never holds more than its capacity.
    pub proof fn lemma_len_bound(&self)
        requires
            self.wf(),
        ensures
            self@.len() <= self.spec_capacity(),
    {
    }

    pub fn new(capacity: usize) -> (r: Self)
        ensures
            r.wf(),
            r@ == Seq::<T>::empty(),
            r.spec_capacity() == capacity,
    {
        let mut data: Vec<Option<T>> = Vec::new();
        let mut i: usize = 0;
        while i < capacity
            invariant
                i <= capacity,
                data@.len() == i,
            decreases capacity - i,
        {
            data.push(None);
            i = i + 1;
        }
        let r = CircularBuffer { data, head: 0, tail: 0, size: 0, capacity };
        assert(r@ =~= Seq::<T>::empty());
        r
    }

    /// Appends `item`; when the buffer is full the oldest element is dropped,
    /// so the length never exceeds the capacity.
    pub fn push(&mut self, item: T)
        requires
            old(self).wf(),
            old(self).spec_capacity() > 0,
        ensures
            final(self).wf(),
            final(self).spec_capacity() == old(self).spec_capacity(),
            final(self)@ == pushed(old(self)@, item, old(self).spec_capacity()),
    {
        let ghost old_items = self@;
        let ghost cap = self.capacity as int;
        let ghost h0 = self.head as int;
        self.data.set(self.tail, Some(item));
        self.tail = if self.tail + 1 == self.capacity {
            0
        } else {
            self.tail + 1
        };
        if self.size < self.capacity {
            self.size = self.size + 1;
            assert forall|i: int| 0 <= i < self.size implies (#[trigger] self.data@[ring_slot(
                self.head as int,
                i,
                cap,
            )]) is Some by {
                if i < self.size - 1 {
                    assert(ring_slot(h0, i, cap) != ring_slot(h0, self.size - 1, cap));
                }
            }
            assert(self@ =~= old_items.push(item)) by {
                assert forall|i: int| 0 <= i < old_items.len() implies self@[i] == old_items[i] by {
                    assert(ring_slot(h0, i, cap) != ring_slot(h0, old_items.len() as int, cap));
                }
            }
        } else {
            self.head = if self.head + 1 == self.capacity {
                0
            } else {
                self.head + 1
            };
            assert forall|i: int| 0 <= i < self.size implies (#[trigger] self.data@[ring_slot(
                self.head as int,
                i,
                cap,
            )]) is Some by {
                if i < self.size - 1 {
                    assert(ring_slot(self.head as int, i, cap) == ring_slot(h0, i + 1, cap));
                } else {
                    assert(ring_slot(self.head as int, i, cap) == h0);
                }
            }
            assert(self@ =~= old_items.push(item).drop_first()) by {
                assert forall|i: int| 0 <= i < self.size implies #[trigger] self@[i]
                    == old_items.push(item).drop_first()[i] by {
                    if i < self.size - 1 {
                        assert(ring_slot(self.head as int, i, cap) == ring_slot(h0, i + 1, cap));
                        assert(ring_slot(h0, i + 1, cap) != h0);
                    } else {
                        assert(ring_slot(self.head as int, i, cap) == h0);
                    }
                }
            }
        }
    }

    pub fn len(&self) -> (n: usize)
        requires
            self.wf(),
        ensures
            n == self@.len(),
            n <= self.spec_capacity(),
    {
        self.size
    }

    /// The element `offset` places after the oldest one.
    pub fn get(&self, offset: usize) -> (r: &T)
        requires
            self.wf(),
            offset < self@.len(),
        ensures
            *r == self@[offset as int],
    {
        let idx = if offset < self.capacity - self.head {
            self.head + offset
        } else {
            offset - (self.capacity - self.head)
        };
        assert(self.data@[ring_slot(self.head as int, offset as int, self.capacity as int)] is Some);
        match &self.data[idx] {
            Some(x) => x,
            None => unreached(),
        }
    }

    /// The stored elements, oldest first.
    pub fn iter(&self) -> (r: Vec<&T>)
        requires
            self.wf(),
        ensures
            r@.len() == self@.len(),
            forall|i: int| 0 <= i < r@.len() ==> *#[trigger] r@[i] == self@[i],
    {
        let mut out: Vec<&T> = Vec::new();
        let mut i: usize = 0;
        while i < self.size
            invariant
                self.wf(),
                i <= self.size,
                out@.len() == i,
                forall|j: int| 0 <= j < i ==> *#[trigger] out@[j] == self@[j],
            decreases self.size - i,
        {
            out.push(self.get(i));
            i = i + 1;
        }
        out
    }
}

} // verus!
