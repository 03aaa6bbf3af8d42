use vstd::prelude::*;

verus! {

/// Number of slots in a `Fifo`.
pub const FIFO_SIZE: usize = 64;

/// A fixed-capacity ring buffer of `FIFO_SIZE` slots. `write` and `read`
/// are free-running counters that wrap around `usize`; the slot that a
/// counter designates is its value modulo `FIFO_SIZE`.
pub struct Fifo<T> where T: Copy {
    pub storage: [T; 64],
    pub write: usize,
    pub read: usize,
}

/// The value of a `usize` counter after one wrapping increment.
pub open spec fn next_counter(c: usize) -> usize {
    if c == usize::MAX { 0 } else { (c + 1) as usize }
}

/// `usize::MAX + 1` is a multiple of `FIFO_SIZE` on every target.
proof fn lemma_word_range_multiple_of_size()
    ensures
        (usize::MAX as int + 1) % 64 == 0,
{
    assert(usize::MAX == 0xffff_ffff || usize::MAX == 0xffff_ffff_ffff_ffff);
}

proof fn lemma_shift_by_word_range(x: int)
    ensures
        (x + usize::MAX as int + 1) % 64 == x % 64,
{
    lemma_word_range_multiple_of_size();
    vstd::arithmetic::div_mod::lemma_add_mod_noop(x, usize::MAX as int + 1, 64);
}

impl<T> Fifo<T> where T: Copy {
    /// Number of items held: the distance from `read` to `write`, counted
    /// modulo the range of `usize`.
    pub open spec fn count(self) -> nat {
        if self.read <= self.write {
            (self.write - self.read) as nat
        } else {
            (self.write + (usize::MAX - self.read) + 1) as nat
        }
    }

    /// The counters are at most `FIFO_SIZE` apart.
    pub open spec fn wf(self) -> bool {
        self.count() <= FIFO_SIZE
    }

    /// The items held, oldest first.
    pub open spec fn items(self) -> Seq<T> {
        Seq::new(self.count(), |i: int| self.storage@[(self.read + i) % 64])
    }

    /// What `push` does to the fields.
    pub open spec fn push_post(old: Self, data: T, new: Self) -> bool {
        &&& new.storage@ == old.storage@.update(old.write as int % 64, data)
        &&& new.write == next_counter(old.write)
        &&& new.read == old.read
    }

    /// What `pop` does to the fields and what it returns.
    pub open spec fn pop_post(old: Self, new: Self, r: Option<T>) -> bool {
        if old.read == old.write {
            &&& r is None
            &&& new == old
        } else {
            &&& r == Some(old.storage@[old.read as int % 64])
            &&& new.storage == old.storage
            &&& new.write == old.write
            &&& new.read == next_counter(old.read)
        }
    }

    proof fn lemma_write_slot(self)
        ensures
            self.write % 64 == (self.read + self.count()) % 64,
    {
        if self.read > self.write {
            lemma_shift_by_word_range(self.write as int);
        }
    }

    proof fn lemma_push_items(old: Self, data: T, new: Self)
        requires
            Self::push_post(old, data, new),
            old.count() < FIFO_SIZE,
        ensures
            new.count() == old.count() + 1,
            new.wf(),
            new.items() == old.items().push(data),
    {
        old.lemma_write_slot();
        assert(new.count() == old.count() + 1);
        assert forall|i: int| 0 <= i < new.count() implies #[trigger] new.items()[i] == old.items().push(data)[i] by {
            if i < old.count() {
                vstd::arithmetic::div_mod::lemma_fundamental_div_mod(old.read + i, 64);
                vstd::arithmetic::div_mod::lemma_fundamental_div_mod(old.read + old.count(), 64);
                if (old.read + i) % 64 == (old.read + old.count()) % 64 {
                    let a = (old.read + i) / 64;
                    let b = (old.read + old.count()) / 64;
                    vstd::arithmetic::mul::lemma_mul_is_distributive_sub(64, b, a);
                    assert(64 * (b - a) == old.count() - i);
                    assert(false) by (nonlinear_arith)
                        requires
                            64 * (b - a) == old.count() - i,
                            0 < old.count() - i < 64,
                    ;
                }
            }
        }
        assert(new.items() =~= old.items().push(data));
    }

    proof fn lemma_pop_items(old: Self, new: Self, r: Option<T>)
        requires
            Self::pop_post(old, new, r),
            old.wf(),
        ensures
            new.wf(),
            old.count() == 0 <==> r is None,
            r is Some ==> {
                &&& r == Some(old.items()[0])
                &&& new.items() == old.items().drop_first()
            },
    {
        if old.read != old.write {
            assert(old.count() > 0);
            assert(new.count() == old.count() - 1);
            assert forall|i: int| 0 <= i < new.count() implies #[trigger] new.items()[i] == old.items().drop_first()[i] by {
                if old.read == usize::MAX {
                    lemma_shift_by_word_range(i);
                }
            }
            assert(new.items() =~= old.items().drop_first());
        }
    }

    /// Stores `data` in the slot of the write counter and advances it. On a
    /// fifo with room left, this appends `data` to the items.
    pub fn push(&mut self, data: T)
        ensures
            Self::push_post(*old(self), data, *final(self)),
            old(self).count() < FIFO_SIZE ==> {
                &&& final(self).wf()
                &&& final(self).items() == old(self).items().push(data)
            },
    {
        let write_idx = self.write % FIFO_SIZE;
        self.storage[write_idx] = data;
        self.write = self.write.wrapping_add(1);
        proof {
            if old(self).count() < FIFO_SIZE {
                Self::lemma_push_items(*old(self), data, *self);
            }
        }
    }

    /// Takes the item in the slot of the read counter, if the counters
    /// differ. On a well-formed fifo this removes and returns the oldest
    /// item, and returns `None` exactly when the fifo is empty.
    pub fn pop(&mut self) -> (r: Option<T>)
        ensures
            Self::pop_post(*old(self), *final(self), r),
            old(self).wf() ==> {
                &&& final(self).wf()
                &&& (r is None <==> old(self).items().len() == 0)
                &&& r is Some ==> r == Some(old(self).items()[0])
                &&& r is Some ==> final(self).items() == old(self).items().drop_first()
            },
    {
        if self.read == self.write {
            None
        } else {
            let read_idx = self.read % FIFO_SIZE;
            let data = self.storage[read_idx];
            self.read = self.read.wrapping_add(1);
            proof {
                if old(self).wf() {
                    Self::lemma_pop_items(*old(self), *self, Some(data));
                }
            }
            Some(data)
        }
    }

    /// Pushing onto an empty fifo and then popping gives back the pushed
    /// item and leaves the fifo empty.
    pub proof fn law_push_then_pop_on_empty(f: Self, x: T, g: Self, h: Self, r: Option<T>)
        requires
            f.wf(),
            f.count() == 0,
            Self::push_post(f, x, g),
            Self::pop_post(g, h, r),
        ensures
            r == Some(x),
            h.wf(),
            h.count() == 0,
    {
        Self::lemma_push_items(f, x, g);
        Self::lemma_pop_items(g, h, r);
    }

    /// On a fifo that is neither empty nor full, a push followed by a pop
    /// returns the same item, and leaves the same items, as the pop
    /// followed by the push: items leave in the order in which they came.
    pub proof fn law_push_pop_commute(
        f: Self,
        x: T,
        g: Self,
        g2: Self,
        r1: Option<T>,
        h: Self,
        r2: Option<T>,
        h2: Self,
    )
        requires
            f.wf(),
            0 < f.count() < FIFO_SIZE,
            Self::push_post(f, x, g),
            Self::pop_post(g, g2, r1),
            Self::pop_post(f, h, r2),
            Self::push_post(h, x, h2),
        ensures
            r1 == r2,
            g2.items() == h2.items(),
    {
        Self::lemma_push_items(f, x, g);
        Self::lemma_pop_items(g, g2, r1);
        Self::lemma_pop_items(f, h, r2);
        Self::lemma_push_items(h, x, h2);
        assert(g2.items() =~= h2.items());
    }

    /// A push keeps a well-formed fifo well-formed exactly when it was not
    /// full; on a full fifo it overwrites the slot of the oldest item.
    pub proof fn law_push_capacity(f: Self, x: T, g: Self)
        requires
            f.wf(),
            Self::push_post(f, x, g),
        ensures
            g.wf() <==> f.count() < FIFO_SIZE,
            g.count() == f.count() + 1,
            f.count() == FIFO_SIZE ==> f.write % 64 == f.read % 64,
    {
        f.lemma_write_slot();
        if f.count() == FIFO_SIZE {
            vstd::arithmetic::div_mod::lemma_add_mod_noop(f.read as int, 64, 64);
        }
    }
}

} // verus!
