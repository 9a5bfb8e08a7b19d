//! A fixed-capacity FIFO over an inline array.

use vstd::prelude::*;

verus! {

/// A ring of `CAPACITY` slots that holds at most `CAPACITY - 1` elements:
/// one slot always stays free, so that `begin == end` means "empty" and never
/// "full". Nothing is allocated and the capacity never changes.
pub struct CyclicBuf<T, const CAPACITY: usize> {
    buf: [Option<T>; CAPACITY],
    begin: usize,
    end: usize,
}

impl<T: Copy, const CAPACITY: usize> CyclicBuf<T, CAPACITY> {
    /// Number of stored elements, as a function of the two cursors.
    spec fn spec_len(&self) -> nat {
        if self.begin <= self.end {
            (self.end - self.begin) as nat
        } else {
            (CAPACITY - self.begin + self.end) as nat
        }
    }

    /// The slot that holds the `i`-th stored element.
    spec fn slot(&self, i: int) -> int {
        if self.begin + i < CAPACITY {
            self.begin + i
        } else {
            self.begin + i - CAPACITY
        }
    }

    /// The stored elements, oldest first.
    pub closed spec fn view(&self) -> Seq<T> {
        Seq::new(self.spec_len(), |i: int| self.buf@[self.slot(i)].unwrap())
    }

    /// The cursors are in range and every slot between them is filled.
    pub closed spec fn wf(&self) -> bool {
        &&& CAPACITY > 0
        &&& self.begin < CAPACITY
        &&& self.end < CAPACITY
        &&& forall|i: int|
            0 <= i < self.spec_len() ==> (#[trigger] self.buf@[self.slot(i)]) is Some
    }

    /// The most elements a buffer of this capacity holds.
    pub open spec fn limit() -> nat {
        (CAPACITY - 1) as nat
    }

    /// What `push` makes of the contents `q`: `v` goes to the back unless the
    /// buffer is full, in which case nothing changes.
    pub open spec fn spec_push(q: Seq<T>, v: T) -> Seq<T> {
        if q.len() < Self::limit() {
            q.push(v)
        } else {
            q
        }
    }

    /// What `pop` makes of the contents `q`: the element handed out and what
    /// stays behind.
    pub open spec fn spec_pop(q: Seq<T>) -> (Option<T>, Seq<T>) {
        if q.len() == 0 {
            (None, q)
        } else {
            (Some(q[0]), q.skip(1))
        }
    }

    /// The contents after pushing the elements of `items`, first to last.
    pub open spec fn spec_push_all(q: Seq<T>, items: Seq<T>) -> Seq<T>
        decreases items.len(),
    {
        if items.len() == 0 {
            q
        } else {
            Self::spec_push_all(Self::spec_push(q, items[0]), items.skip(1))
        }
    }

    /// The results of `n` pops in a row, and the contents after them.
    pub open spec fn spec_pop_n(q: Seq<T>, n: nat) -> (Seq<Option<T>>, Seq<T>)
        decreases n,
    {
        if n == 0 {
            (Seq::empty(), q)
        } else {
            let (first, rest) = Self::spec_pop(q);
            let (more, left) = Self::spec_pop_n(rest, (n - 1) as nat);
            (seq![first] + more, left)
        }
    }

    /// A well-formed buffer has a slot to spare and never holds more than
    /// `CAPACITY - 1` elements.
    pub proof fn lemma_len_bounded(&self)
        requires
            self.wf(),
        ensures
            CAPACITY > 0,
            self@.len() <= Self::limit(),
    {
    }

    /// Filling: of any run of pushes onto an empty buffer exactly the first
    /// `CAPACITY - 1` elements are stored, and a push onto a full buffer
    /// changes nothing.
    pub proof fn lemma_fill(items: Seq<T>, v: T)
        requires
            CAPACITY > 0,
            items.len() >= Self::limit(),
        ensures
            Self::spec_push_all(Seq::empty(), items) == items.take(Self::limit() as int),
            Self::spec_push(Self::spec_push_all(Seq::empty(), items), v) == Self::spec_push_all(
                Seq::empty(),
                items,
            ),
    {
        Self::lemma_push_all(Seq::empty(), items);
    }

    /// Pushing `items` onto the contents `q` appends as many of them as there
    /// is room for, in order.
    pub proof fn lemma_push_all(q: Seq<T>, items: Seq<T>)
        requires
            CAPACITY > 0,
            q.len() <= Self::limit(),
        ensures
            Self::spec_push_all(q, items) == q + items.take(
                if items.len() <= Self::limit() - q.len() {
                    items.len() as int
                } else {
                    Self::limit() - q.len()
                },
            ),
        decreases items.len(),
    {
        if items.len() > 0 {
            Self::lemma_push_all(Self::spec_push(q, items[0]), items.skip(1));
        }
    }

    /// Popping `n <= q.len()` times hands out the first `n` elements of `q`
    /// in order and leaves the rest.
    pub proof fn lemma_pop_n(q: Seq<T>, n: nat)
        requires
            n <= q.len(),
        ensures
            Self::spec_pop_n(q, n) == (q.take(n as int).map_values(|v: T| Some(v)), q.skip(n as int)),
        decreases n,
    {
        if n > 0 {
            Self::lemma_pop_n(q.skip(1), (n - 1) as nat);
        }
    }

    /// Round trip: elements pushed while there is room come out of as many
    /// pops unchanged and in the order pushed, behind whatever the buffer
    /// held before. The cursors do not occur: the law holds wherever in the
    /// ring the contents lie.
    pub proof fn lemma_round_trip(q: Seq<T>, items: Seq<T>)
        requires
            CAPACITY > 0,
            q.len() + items.len() <= Self::limit(),
        ensures
            Self::spec_pop_n(Self::spec_push_all(q, items), q.len() + items.len()) == (
                (q + items).map_values(|v: T| Some(v)),
                Seq::<T>::empty(),
            ),
    {
        let all = q + items;
        Self::lemma_push_all(q, items);
        assert(items.take(items.len() as int) =~= items);
        Self::lemma_pop_n(all, all.len());
    }

    /// Number of elements that can still be pushed.
    pub fn push_ability(&self) -> (free: usize)
        requires
            self.wf(),
        ensures
            free == Self::limit() - self@.len(),
    {
        if self.begin > self.end {
            self.begin - self.end - 1
        } else {
            CAPACITY - 1 - (self.end - self.begin)
        }
    }

    /// Number of stored elements.
    pub fn len(&self) -> (n: usize)
        requires
            self.wf(),
        ensures
            n == self@.len(),
    {
        CAPACITY - self.push_ability() - 1
    }

    pub fn is_full(&self) -> (full: bool)
        requires
            self.wf(),
        ensures
            full <==> self@.len() == Self::limit(),
    {
        self.push_ability() == 0
    }

    pub fn is_empty(&self) -> (empty: bool)
        requires
            self.wf(),
        ensures
            empty <==> self@.len() == 0,
    {
        self.begin == self.end
    }

    /// Appends `v` unless the buffer is full; says whether it did.
    pub fn push(&mut self, v: T) -> (pushed: bool)
        requires
            old(self).wf(),
        ensures
            final(self).wf(),
            pushed <==> old(self)@.len() < Self::limit(),
            final(self)@ == Self::spec_push(old(self)@, v),
            !pushed ==> *final(self) == *old(self),
    {
        if self.is_full() {
            false
        } else {
            self.buf[self.end] = Some(v);
            self.end = if self.end + 1 == CAPACITY {
                0
            } else {
                self.end + 1
            };
            proof {
                let n = old(self).spec_len() as int;
                assert forall|i: int| 0 <= i < n + 1 implies (#[trigger] self.buf@[self.slot(
                    i,
                )]) is Some by {
                    if i < n {
                        assert(old(self).buf@[old(self).slot(i)] is Some);
                    }
                }
            }
            true
        }
    }

    /// Removes and returns the oldest element, if there is one.
    pub fn pop(&mut self) -> (popped: Option<T>)
        requires
            old(self).wf(),
        ensures
            final(self).wf(),
            (popped, final(self)@) == Self::spec_pop(old(self)@),
            popped is None ==> *final(self) == *old(self),
    {
        if self.is_empty() {
            None
        } else {
            let v = self.buf[self.begin];
            self.begin = if self.begin + 1 == CAPACITY {
                0
            } else {
                self.begin + 1
            };
            proof {
                let n = old(self).spec_len() as int;
                assert forall|i: int| 0 <= i < n - 1 implies self.slot(i) == old(self).slot(
                    i + 1,
                ) by {}
                assert forall|i: int| 0 <= i < n - 1 implies (#[trigger] self.buf@[self.slot(
                    i,
                )]) is Some by {}
            }
            v
        }
    }

    /// The oldest element, which stays in the buffer.
    pub fn top(&self) -> (first: Option<T>)
        requires
            self.wf(),
        ensures
            first == Self::spec_pop(self@).0,
    {
        if self.is_empty() {
            None
        } else {
            self.buf[self.begin]
        }
    }

    /// Copies the oldest elements into the front of `output`, as many as both
    /// hold, and returns their number. The buffer is only read.
    pub fn peek(&self, output: &mut [T]) -> (copied: usize)
        requires
            self.wf(),
        ensures
            copied == if old(output)@.len() <= self@.len() {
                old(output)@.len()
            } else {
                self@.len()
            },
            final(output)@ == self@.take(copied as int) + old(output)@.skip(copied as int),
    {
        let stored: usize = self.len();
        let len: usize = if output.len() <= stored {
            output.len()
        } else {
            stored
        };
        let mut fb: usize = self.begin;
        let mut i: usize = 0;
        while i < len
            invariant
                self.wf(),
                i <= len,
                len <= self.spec_len(),
                len <= output@.len(),
                output@.len() == old(output)@.len(),
                fb < CAPACITY,
                i < self.spec_len() ==> fb == self.slot(i as int),
                forall|j: int| 0 <= j < i ==> output@[j] == self@[j],
                forall|j: int| i <= j < output@.len() ==> output@[j] == old(output)@[j],
            decreases len - i,
        {
            output[i] = self.buf[fb].unwrap();
            fb = if fb + 1 == CAPACITY {
                0
            } else {
                fb + 1
            };
            i += 1;
        }
        len
    }
}

impl<T: Copy, const CAPACITY: usize> Default for CyclicBuf<T, CAPACITY> {
    /// An empty buffer. It is usable wherever `CAPACITY` is at least 1.
    fn default() -> (r: Self)
        ensures
            CAPACITY > 0 ==> r.wf(),
            r@ == Seq::<T>::empty(),
    {
        Self { buf: [None; CAPACITY], begin: 0, end: 0 }
    }
}

} // verus!
